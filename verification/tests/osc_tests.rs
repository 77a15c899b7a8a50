use zundux_tts::osc::chatbox_message;

#[test]
fn chatbox_message_layout() {
    let m = chatbox_message("hi");
    let mut expected: Vec<u8> = b"/chatbox/input\0\0".to_vec();
    expected.extend_from_slice(b",sTF\0\0\0\0");
    expected.extend_from_slice(b"hi\0\0");
    assert_eq!(m, expected);
}

#[test]
fn chatbox_message_is_word_aligned() {
    for text in ["", "a", "abc", "abcd", "ずんだもん"] {
        let m = chatbox_message(text);
        assert_eq!(m.len() % 4, 0);
        let start = 16 + 8;
        let bytes = text.as_bytes();
        assert_eq!(&m[start..start + bytes.len()], bytes);
        assert!(m[start + bytes.len()..].iter().all(|&b| b == 0));
        assert!(m.len() - start > bytes.len());
    }
}
