use radial_dots::utf_to_binary::text_to_binary;

#[test]
fn test_single_character() {
    assert_eq!(
        text_to_binary("a"),
        Some(vec![false, true, true, false, false, false, false, true]),
    );
}

#[test]
fn test_2_chars() {
    assert_eq!(
        text_to_binary("ayy"),
        Some(vec![
            // 'a'
            false, true, true, false, false, false, false, true, // 'y'
            false, true, true, true, true, false, false, true, // 'y'
            false, true, true, true, true, false, false, true,
        ]),
    );
}

#[test]
fn empty_text_encodes_to_no_bits() {
    assert_eq!(text_to_binary(""), Some(vec![]));
}

#[test]
fn non_ascii_text_has_no_encoding() {
    assert_eq!(text_to_binary("é"), None);
    assert_eq!(text_to_binary("abcé"), None);
    assert_eq!(text_to_binary("é abc"), None);
}

#[test]
fn encoding_has_eight_bits_per_character() {
    let text = "hello, world";
    assert_eq!(text_to_binary(text).unwrap().len(), 8 * text.len());
}

#[test]
fn highest_ascii_code_encodes_to_seven_ones() {
    assert_eq!(
        text_to_binary("\u{7f}"),
        Some(vec![false, true, true, true, true, true, true, true]),
    );
}
