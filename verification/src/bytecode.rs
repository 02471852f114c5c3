//! Shader bytecode as words and as the raw bytes a reflector reads.

use vstd::prelude::*;

verus! {

/// The order in which the four bytes of a word lie in memory.
#[derive(Clone, Copy, Debug, PartialEq, Eq, Structural)]
pub enum WordLayout {
    /// Least significant byte first.
    LittleEndian,
    /// Most significant byte first.
    BigEndian,
}

/// The four bytes of `word`, least significant first.
pub open spec fn le_bytes(word: u32) -> Seq<u8> {
    seq![
        (word & 0xff) as u8,
        ((word >> 8) & 0xff) as u8,
        ((word >> 16) & 0xff) as u8,
        ((word >> 24) & 0xff) as u8,
    ]
}

/// The four bytes of `word` in the given layout.
pub open spec fn word_bytes(word: u32, layout: WordLayout) -> Seq<u8> {
    match layout {
        WordLayout::LittleEndian => le_bytes(word),
        WordLayout::BigEndian => le_bytes(word).reverse(),
    }
}

/// The byte buffer that holds `words` one after the other, each in the given
/// layout: four bytes per word, byte `i` taken from word `i / 4`.
pub open spec fn bytecode_bytes(words: Seq<u32>, layout: WordLayout) -> Seq<u8> {
    Seq::new(4 * words.len(), |i: int| word_bytes(words[i / 4], layout)[i % 4])
}

/// `u32::to_ne_bytes`: the bytes of `word` as this machine keeps them in
/// memory. The standard library documents the order as the target's own,
/// which is one of the two layouts; nothing more is claimed here.
#[verifier::external_body]
fn native_word_bytes(word: u32) -> (bytes: [u8; 4])
    ensures
        bytes@ == word_bytes(word, WordLayout::LittleEndian) || bytes@ == word_bytes(
            word,
            WordLayout::BigEndian,
        ),
{
    word.to_ne_bytes()
}

/// The layout of words in this machine's memory, with the bytes of the word
/// 1 that it was read from: they hold that word in the layout returned.
fn native_layout() -> (found: (WordLayout, [u8; 4]))
    ensures
        found.1@ == word_bytes(1, found.0),
{
    let probe = native_word_bytes(1);
    proof {
        assert((1u32 & 0xff) == 1 && ((1u32 >> 24) & 0xff) == 0) by (bit_vector);
    }
    if probe[0] == 1 {
        (WordLayout::LittleEndian, probe)
    } else {
        (WordLayout::BigEndian, probe)
    }
}

/// Appends the four bytes of `word`, in `layout`, to `bytes`.
fn push_word(bytes: &mut Vec<u8>, word: u32, layout: WordLayout)
    ensures
        final(bytes)@ == old(bytes)@ + word_bytes(word, layout),
{
    assert((word & 0xff) <= 0xff && ((word >> 8) & 0xff) <= 0xff && ((word >> 16) & 0xff) <= 0xff
        && ((word >> 24) & 0xff) <= 0xff) by (bit_vector);
    let b0: u8 = (word & 0xff) as u8;
    let b1: u8 = ((word >> 8) & 0xff) as u8;
    let b2: u8 = ((word >> 16) & 0xff) as u8;
    let b3: u8 = ((word >> 24) & 0xff) as u8;
    match layout {
        WordLayout::LittleEndian => {
            bytes.push(b0);
            bytes.push(b1);
            bytes.push(b2);
            bytes.push(b3);
        },
        WordLayout::BigEndian => {
            bytes.push(b3);
            bytes.push(b2);
            bytes.push(b1);
            bytes.push(b0);
        },
    }
    assert(final(bytes)@ =~= old(bytes)@ + word_bytes(word, layout));
}

/// Writes `words` out as bytes, each word in `layout`. The buffer is exactly
/// four times as long as `words`.
pub fn words_to_bytes(words: &Vec<u32>, layout: WordLayout) -> (bytes: Vec<u8>)
    ensures
        bytes@ == bytecode_bytes(words@, layout),
        bytes@.len() == 4 * words@.len(),
{
    let mut bytes: Vec<u8> = Vec::new();
    let mut i: usize = 0;
    while i < words.len()
        invariant
            i <= words.len(),
            bytes@ == bytecode_bytes(words@.take(i as int), layout),
        decreases words.len() - i,
    {
        let ghost before = bytes@;
        push_word(&mut bytes, words[i], layout);
        proof {
            let done = words@.take(i as int);
            let next = words@.take(i + 1);
            assert(bytes@ =~= bytecode_bytes(next, layout)) by {
                assert forall|k: int| 0 <= k < 4 * (i + 1) implies bytes@[k] == bytecode_bytes(
                    next,
                    layout,
                )[k] by {
                    if k < 4 * i {
                        assert(bytes@[k] == before[k]);
                        assert(done[k / 4] == next[k / 4]);
                    } else {
                        assert(k / 4 == i as int);
                        assert(bytes@[k] == word_bytes(words@[i as int], layout)[k - 4 * i]);
                        assert(k % 4 == k - 4 * i);
                    }
                }
            }
        }
        i += 1;
    }
    assert(words@.take(i as int) =~= words@);
    bytes
}

/// The bytes of `words` as they lie in this machine's memory: the buffer a
/// reflector is handed. It holds `words` in one of the two layouts, the same
/// for every word.
pub fn native_bytes(words: &Vec<u32>) -> (bytes: Vec<u8>)
    ensures
        bytes@ == bytecode_bytes(words@, WordLayout::LittleEndian) || bytes@ == bytecode_bytes(
            words@,
            WordLayout::BigEndian,
        ),
        bytes@.len() == 4 * words@.len(),
{
    words_to_bytes(words, native_layout().0)
}

} // verus!
