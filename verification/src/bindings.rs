//! Binding names, recovered from the disassembly of a shader module.
//!
//! The disassembly is searched for resource declarations with a regular
//! expression; each declaration found is a keyword or type, a space, and the
//! name of the binding. The search is the `regex` crate's; what is done with
//! the declarations it finds is proved here.

use vstd::prelude::*;

verus! {

/// The pattern of a resource declaration: a buffer block (`buffer`, a space,
/// and a block name that ends in `_block`) or an image of one, two or three
/// dimensions, its type followed by a space and the variable's name.
pub const BINDING_PATTERN: &'static str =
    r"buffer [^\s\\]*_block|(([ui]*image3D|[ui]*image2D|[ui]*image1D) [a-z_A-Z]*)";

/// `regex::Error`: why the `regex` crate rejected a pattern. Nothing is read
/// from it.
#[verifier::external_type_specification]
#[verifier::external_body]
pub struct ExRegexError(regex::Error);

/// What the `regex` crate finds: `None` where it rejects `pattern`, else the
/// text of every match of `pattern` in `text`, from the first to the last,
/// as `regex::Regex::find_iter` yields them.
pub uninterp spec fn pattern_matches(pattern: Seq<char>, text: Seq<char>) -> Option<Seq<Seq<char>>>;

/// The character sequences of a list of strings.
pub open spec fn texts(strings: Seq<String>) -> Seq<Seq<char>> {
    strings.map_values(|s: String| s@)
}

/// The number of characters of `s` before its first space; its whole length
/// where it holds no space.
pub open spec fn leading_len(s: Seq<char>) -> int
    decreases s.len(),
{
    if s.len() == 0 || s[0] == ' ' {
        0
    } else {
        1 + leading_len(s.drop_first())
    }
}

/// The name that a declaration gives: its second field, where fields are
/// parted by single spaces. That is what stands between the first space and
/// the next one (or the end). A declaration without a space names nothing.
pub open spec fn binding_name_of(declaration: Seq<char>) -> Option<Seq<char>> {
    let keyword_len = leading_len(declaration);
    if keyword_len == declaration.len() {
        None
    } else {
        let rest = declaration.skip(keyword_len + 1);
        Some(rest.take(leading_len(rest)))
    }
}

/// The names of a list of declarations, one per declaration and in the same
/// order; `None` where one of them names nothing.
pub open spec fn binding_names_of(declarations: Seq<Seq<char>>) -> Option<Seq<Seq<char>>> {
    if forall|i: int|
        0 <= i < declarations.len() ==> (#[trigger] binding_name_of(declarations[i])) is Some {
        Some(declarations.map_values(|d: Seq<char>| binding_name_of(d).unwrap()))
    } else {
        None
    }
}

/// The binding names of a disassembly: the names of the declarations that
/// the pattern finds in it.
pub open spec fn bindings_of(disassembly: Seq<char>) -> Option<Seq<Seq<char>>> {
    match pattern_matches(BINDING_PATTERN@, disassembly) {
        Some(declarations) => binding_names_of(declarations),
        None => None,
    }
}

/// `leading_len` is the position of the first space: no space stands before
/// it, and it is the end of `s` or a space.
pub proof fn lemma_leading_len(s: Seq<char>)
    ensures
        0 <= leading_len(s) <= s.len(),
        forall|k: int| 0 <= k < leading_len(s) ==> s[k] != ' ',
        leading_len(s) < s.len() ==> s[leading_len(s)] == ' ',
    decreases s.len(),
{
    if s.len() == 0 || s[0] == ' ' {
    } else {
        let tail = s.drop_first();
        lemma_leading_len(tail);
        assert forall|k: int| 0 <= k < leading_len(s) implies s[k] != ' ' by {
            if k > 0 {
                assert(s[k] == tail[k - 1]);
            }
        }
        if leading_len(s) < s.len() {
            assert(s[leading_len(s)] == tail[leading_len(tail)]);
        }
    }
}

/// A position with no space before it that is the end of `s` or a space is
/// `leading_len(s)`.
pub proof fn lemma_leading_len_is(s: Seq<char>, at: int)
    requires
        0 <= at <= s.len(),
        forall|k: int| 0 <= k < at ==> s[k] != ' ',
        at < s.len() ==> s[at] == ' ',
    ensures
        leading_len(s) == at,
{
    lemma_leading_len(s);
    let found = leading_len(s);
    if found < at {
        assert(s[found] == ' ');
    } else if at < found {
        assert(s[at] == ' ');
    }
}

/// Names come one per declaration, in the order of the declarations, and a
/// name that occurs twice is kept twice.
pub proof fn lemma_binding_names_in_order(declarations: Seq<Seq<char>>)
    ensures
        binding_names_of(declarations) matches Some(names) ==> {
            &&& names.len() == declarations.len()
            &&& forall|i: int|
                0 <= i < declarations.len() ==> binding_name_of(declarations[i]) == Some(
                    #[trigger] names[i],
                )
        },
        binding_names_of(declarations) is None <==> exists|i: int|
            0 <= i < declarations.len() && (#[trigger] binding_name_of(declarations[i])) is None,
        binding_names_of(Seq::empty()) == Some(Seq::<Seq<char>>::empty()),
{
    assert(Seq::<Seq<char>>::empty().map_values(|d: Seq<char>| binding_name_of(d).unwrap())
        =~= Seq::<Seq<char>>::empty());
}

/// The position of the first space of `text` at or after `from`, or the
/// length of `text` where none follows.
fn next_space(text: &str, from: usize) -> (at: usize)
    requires
        from <= text@.len(),
    ensures
        at == from + leading_len(text@.skip(from as int)),
        from <= at <= text@.len(),
{
    let len = text.unicode_len();
    let mut at: usize = from;
    while at < len && text.get_char(at) != ' '
        invariant
            len == text@.len(),
            from <= at <= len,
            forall|k: int| from <= k < at ==> text@[k] != ' ',
        decreases len - at,
    {
        at += 1;
    }
    proof {
        lemma_leading_len_is(text@.skip(from as int), at - from);
    }
    at
}

/// The name that `declaration` gives, if it gives one.
pub fn binding_name(declaration: &str) -> (name: Option<String>)
    ensures
        match name {
            Some(n) => binding_name_of(declaration@) == Some(n@),
            None => binding_name_of(declaration@) is None,
        },
{
    let len = declaration.unicode_len();
    let keyword_end = next_space(declaration, 0);
    assert(declaration@.skip(0) =~= declaration@);
    if keyword_end == len {
        return None;
    }
    let name_end = next_space(declaration, keyword_end + 1);
    let name = declaration.substring_char(keyword_end + 1, name_end);
    proof {
        let rest = declaration@.skip(keyword_end + 1);
        assert(name@ =~= rest.take(leading_len(rest)));
    }
    Some(String::from_str(name))
}

/// The names that `declarations` give, in their order; `None` where one of
/// them gives none.
pub fn binding_names(declarations: &Vec<String>) -> (names: Option<Vec<String>>)
    ensures
        match names {
            Some(found) => binding_names_of(texts(declarations@)) == Some(texts(found@)),
            None => binding_names_of(texts(declarations@)) is None,
        },
{
    let ghost all = texts(declarations@);
    let mut names: Vec<String> = Vec::new();
    let mut i: usize = 0;
    while i < declarations.len()
        invariant
            i <= declarations.len(),
            all == texts(declarations@),
            names@.len() == i,
            forall|k: int| 0 <= k < i ==> binding_name_of(all[k]) == Some(#[trigger] names@[k]@),
        decreases declarations.len() - i,
    {
        match binding_name(declarations[i].as_str()) {
            Some(name) => {
                names.push(name);
            },
            None => {
                assert(binding_name_of(all[i as int]) is None);
                return None;
            },
        }
        i += 1;
    }
    proof {
        assert forall|k: int| 0 <= k < all.len() implies (#[trigger] binding_name_of(
            all[k],
        )) is Some by {
            assert(binding_name_of(all[k]) == Some(names@[k]@));
        }
        assert(texts(names@) =~= all.map_values(|d: Seq<char>| binding_name_of(d).unwrap())) by {
            assert forall|k: int| 0 <= k < all.len() implies texts(names@)[k] == binding_name_of(
                all[k],
            ).unwrap() by {
                assert(binding_name_of(all[k]) == Some(names@[k]@));
            }
        }
    }
    Some(names)
}

/// `regex::Regex::new` on `pattern`, then `Regex::find_iter` on `text`, each
/// match copied out with `Match::as_str`. The crate's answer is not restated
/// here: it is called `pattern_matches`, and an error stands for the crate
/// rejecting the pattern.
#[verifier::external_body]
fn find_all(pattern: &str, text: &str) -> (found: Result<Vec<String>, regex::Error>)
    ensures
        match found {
            Ok(matches) => pattern_matches(pattern@, text@) == Some(texts(matches@)),
            Err(_) => pattern_matches(pattern@, text@) is None,
        },
{
    let compiled = regex::Regex::new(pattern)?;
    Ok(compiled.find_iter(text).map(|found| found.as_str().to_string()).collect())
}

/// The names of the resource bindings that `disassembly` declares, in the
/// order in which their declarations stand in it, repeated names kept.
/// `None` where the pattern is rejected or a declaration names nothing.
pub fn extract_bindings(disassembly: &str) -> (bindings: Option<Vec<String>>)
    ensures
        match bindings {
            Some(names) => bindings_of(disassembly@) == Some(texts(names@)),
            None => bindings_of(disassembly@) is None,
        },
{
    match find_all(BINDING_PATTERN, disassembly) {
        Ok(declarations) => binding_names(&declarations),
        Err(_) => None,
    }
}

} // verus!
