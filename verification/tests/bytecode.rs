use gpu::bytecode::{native_bytes, words_to_bytes, WordLayout};

#[test]
fn little_endian_puts_the_low_byte_first() {
    let words = vec![0x0723_0203u32, 0x0001_0000, 0xdead_beef];
    assert_eq!(
        words_to_bytes(&words, WordLayout::LittleEndian),
        vec![0x03, 0x02, 0x23, 0x07, 0x00, 0x00, 0x01, 0x00, 0xef, 0xbe, 0xad, 0xde]
    );
}

#[test]
fn big_endian_puts_the_high_byte_first() {
    let words = vec![0x0723_0203u32, 0x0001_0000, 0xdead_beef];
    assert_eq!(
        words_to_bytes(&words, WordLayout::BigEndian),
        vec![0x07, 0x23, 0x02, 0x03, 0x00, 0x01, 0x00, 0x00, 0xde, 0xad, 0xbe, 0xef]
    );
}

#[test]
fn no_words_give_no_bytes() {
    let words: Vec<u32> = Vec::new();
    assert_eq!(words_to_bytes(&words, WordLayout::LittleEndian), Vec::<u8>::new());
    assert_eq!(words_to_bytes(&words, WordLayout::BigEndian), Vec::<u8>::new());
    assert_eq!(native_bytes(&words), Vec::<u8>::new());
}

#[test]
fn bytes_are_four_times_the_words() {
    for len in [1usize, 2, 5, 64, 1000] {
        let words: Vec<u32> = (0..len as u32).map(|i| i.wrapping_mul(0x9e37_79b9)).collect();
        assert_eq!(words_to_bytes(&words, WordLayout::LittleEndian).len(), 4 * len);
        assert_eq!(words_to_bytes(&words, WordLayout::BigEndian).len(), 4 * len);
        assert_eq!(native_bytes(&words).len(), 4 * len);
    }
}

#[test]
fn native_bytes_are_the_words_in_memory() {
    let words = vec![1u32, 0x0723_0203, 0xffff_ffff, 0, 0x0102_0304, 0x8000_0001];
    let mut expected: Vec<u8> = Vec::new();
    for word in &words {
        expected.extend_from_slice(&word.to_ne_bytes());
    }
    assert_eq!(native_bytes(&words), expected);
}

#[test]
fn native_bytes_follow_one_of_the_two_layouts() {
    let words = vec![0x0723_0203u32, 0x1122_3344];
    let bytes = native_bytes(&words);
    assert!(
        bytes == words_to_bytes(&words, WordLayout::LittleEndian)
            || bytes == words_to_bytes(&words, WordLayout::BigEndian)
    );
}
