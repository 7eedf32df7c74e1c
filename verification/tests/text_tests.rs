use serial_chat::text::truncate;

#[test]
fn truncate_cuts_a_longer_line_to_width() {
    assert_eq!(truncate("hello world", 5), b"hello".to_vec());
}

#[test]
fn truncate_leaves_a_line_of_width_or_less() {
    assert_eq!(truncate("hello", 5), b"hello".to_vec());
    assert_eq!(truncate("hi", 5), b"hi".to_vec());
    assert_eq!(truncate("", 5), Vec::<u8>::new());
}

#[test]
fn truncate_to_nothing() {
    assert_eq!(truncate("hello", 0), Vec::<u8>::new());
    assert_eq!(truncate("", 0), Vec::<u8>::new());
}

#[test]
fn truncate_counts_bytes_and_may_split_a_character() {
    // "aé" is 61 C3 A9
    assert_eq!(truncate("a\u{e9}", 2), vec![0x61, 0xC3]);
    assert_eq!(truncate("a\u{e9}", 3), vec![0x61, 0xC3, 0xA9]);
    // "═" is E2 95 90
    assert_eq!(truncate("\u{2550}\u{2550}", 4), vec![0xE2, 0x95, 0x90, 0xE2]);
}
