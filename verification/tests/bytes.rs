use lenny_fetch::bytes::stdout_str;

#[test]
fn output_is_decoded_and_trimmed() {
    assert_eq!(stdout_str(&b"Linux 6.1.0\n".to_vec()), "Linux 6.1.0");
    assert_eq!(stdout_str(&b"  up 3 hours, 2 minutes \n\n".to_vec()), "up 3 hours, 2 minutes");
    assert_eq!(stdout_str(&Vec::new()), "");
}

#[test]
fn output_keeps_text_beyond_ascii() {
    assert_eq!(stdout_str(&"h\u{f4}te.example\n".as_bytes().to_vec()), "h\u{f4}te.example");
}

#[test]
fn ill_formed_output_is_decoded_leniently() {
    assert_eq!(stdout_str(&vec![0xff, b'o', b'k', b'\n']), "\u{FFFD}ok");
    assert_eq!(stdout_str(&vec![b'a', 0xe2, 0x82, b'\n']), "a\u{FFFD}");
}
