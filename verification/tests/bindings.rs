use gpu::bindings::{binding_name, binding_names, extract_bindings, BINDING_PATTERN};

fn strings(items: &[&str]) -> Vec<String> {
    items.iter().map(|s| s.to_string()).collect()
}

#[test]
fn buffer_block_and_image_are_found_in_order() {
    let text = "; SPIR-V\n   OpName %main \"main\"\n\t layout(std430, binding = 0) \
                buffer TrianglesBlock_block { uint data[]; };  \n\n   \
                unrelated tokens 42 %7\n layout(binding = 1, rgba8) uniform   image2D depthImage ;\n";
    assert_eq!(
        extract_bindings(text),
        Some(strings(&["TrianglesBlock_block", "depthImage"]))
    );
}

#[test]
fn image_before_buffer_keeps_text_order() {
    let text = "uniform image2D depthImage; buffer TrianglesBlock_block";
    assert_eq!(
        extract_bindings(text),
        Some(strings(&["depthImage", "TrianglesBlock_block"]))
    );
}

#[test]
fn empty_text_has_no_bindings() {
    assert_eq!(extract_bindings(""), Some(Vec::new()));
}

#[test]
fn text_without_declarations_has_no_bindings() {
    let text = "OpCapability Shader\nOpMemoryModel Logical GLSL450\nbuffer\nimage2D\nimage4D x\n";
    assert_eq!(extract_bindings(text), Some(Vec::new()));
}

#[test]
fn repeated_names_are_kept() {
    let text = "image2D a\nimage2D a\nbuffer b_block buffer b_block";
    assert_eq!(
        extract_bindings(text),
        Some(strings(&["a", "a", "b_block", "b_block"]))
    );
}

#[test]
fn image_types_may_carry_a_prefix_and_any_dimension() {
    let text = "uimage3D volume; iimage1D line_; image1D a image3D B uimage2D cD";
    assert_eq!(
        extract_bindings(text),
        Some(strings(&["volume", "line_", "a", "B", "cD"]))
    );
}

#[test]
fn image_name_stops_at_the_first_other_character() {
    assert_eq!(
        extract_bindings("image2D depth9Image"),
        Some(strings(&["depth"]))
    );
    assert_eq!(extract_bindings("image2D 9"), Some(strings(&[""])));
}

#[test]
fn block_name_does_not_cross_space_or_backslash() {
    assert_eq!(extract_bindings("buffer a b_block"), Some(Vec::new()));
    assert_eq!(extract_bindings("buffer a\\nb_block"), Some(Vec::new()));
    assert_eq!(
        extract_bindings("buffer a_block_block\\n"),
        Some(strings(&["a_block_block"]))
    );
}

#[test]
fn the_pattern_names_both_kinds_of_declaration() {
    assert_eq!(
        BINDING_PATTERN,
        "buffer [^\\s\\\\]*_block|(([ui]*image3D|[ui]*image2D|[ui]*image1D) [a-z_A-Z]*)"
    );
}

#[test]
fn name_is_the_second_field() {
    assert_eq!(binding_name("image2D depthImage"), Some("depthImage".to_string()));
    assert_eq!(binding_name("buffer Foo_block"), Some("Foo_block".to_string()));
    assert_eq!(binding_name("a b c"), Some("b".to_string()));
    assert_eq!(binding_name(" x"), Some("x".to_string()));
}

#[test]
fn name_may_be_empty() {
    assert_eq!(binding_name("image2D "), Some(String::new()));
    assert_eq!(binding_name("a  b"), Some(String::new()));
    assert_eq!(binding_name(" "), Some(String::new()));
}

#[test]
fn no_space_no_name() {
    assert_eq!(binding_name("nospace"), None);
    assert_eq!(binding_name(""), None);
    assert_eq!(binding_name("tab\tonly"), None);
}

#[test]
fn name_counts_characters_not_bytes() {
    assert_eq!(binding_name("büffer nämé_block x"), Some("nämé_block".to_string()));
}

#[test]
fn names_come_one_per_declaration() {
    assert_eq!(
        binding_names(&strings(&["buffer a_block", "image2D b", "uimage3D "])),
        Some(strings(&["a_block", "b", ""]))
    );
    assert_eq!(binding_names(&Vec::new()), Some(Vec::new()));
}

#[test]
fn one_nameless_declaration_spoils_the_list() {
    assert_eq!(binding_names(&strings(&["buffer a_block", "image2D"])), None);
    assert_eq!(binding_names(&strings(&["", "image2D b"])), None);
}
