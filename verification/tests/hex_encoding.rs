use lighting_client::lnd::buffer_as_hex;

#[test]
fn empty_input_gives_empty_text() {
    assert_eq!(buffer_as_hex(vec![]), "");
}

#[test]
fn bytes_become_two_lowercase_digits_each() {
    assert_eq!(buffer_as_hex(vec![0x00, 0x0f, 0xa5, 0xff]), "000fa5ff");
}

#[test]
fn high_half_comes_first() {
    assert_eq!(buffer_as_hex(vec![0x1e]), "1e");
    assert_eq!(buffer_as_hex(vec![0xe1]), "e1");
}

#[test]
fn every_byte_value_matches_the_standard_formatting() {
    for b in 0..=255u8 {
        assert_eq!(buffer_as_hex(vec![b]), format!("{:02x}", b));
    }
}

#[test]
fn length_is_twice_the_input() {
    for n in [0usize, 1, 2, 7, 64, 1000] {
        let bytes: Vec<u8> = (0..n).map(|i| (i * 37 % 256) as u8).collect();
        assert_eq!(buffer_as_hex(bytes).len(), 2 * n);
    }
}

#[test]
fn output_is_lowercase_hex_only() {
    let bytes: Vec<u8> = (0..=255u8).collect();
    let text = buffer_as_hex(bytes);
    assert!(text.chars().all(|c| matches!(c, '0'..='9' | 'a'..='f')));
}

#[test]
fn encoding_is_deterministic() {
    let bytes = vec![0xde, 0xad, 0xbe, 0xef, 0x00, 0x7f, 0x80];
    assert_eq!(buffer_as_hex(bytes.clone()), buffer_as_hex(bytes));
}

#[test]
fn encoding_of_joined_input_is_joined_encodings() {
    let a = vec![0x01, 0x23];
    let b = vec![0xab, 0xcd, 0xef];
    let mut joined = a.clone();
    joined.extend_from_slice(&b);
    assert_eq!(buffer_as_hex(joined), buffer_as_hex(a) + &buffer_as_hex(b));
}

#[test]
fn different_inputs_give_different_text() {
    assert_ne!(buffer_as_hex(vec![0x01, 0x10]), buffer_as_hex(vec![0x10, 0x01]));
    assert_ne!(buffer_as_hex(vec![0x00]), buffer_as_hex(vec![0x00, 0x00]));
}
