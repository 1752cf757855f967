use lighting_client::lnd::credential::build_macaroon;
use lighting_client::lnd::headers::build_headers;

#[test]
fn credential_holds_the_hex_of_the_file_contents() {
    let credential = build_macaroon(vec![0x02, 0x01, 0xff, 0x6c, 0x6e, 0x64]);
    assert_eq!(credential.expose(), "0201ff6c6e64");
}

#[test]
fn credential_of_an_empty_file_is_empty() {
    let credential = build_macaroon(vec![]);
    assert_eq!(credential.expose(), "");
}

#[test]
fn credential_is_not_printed() {
    let credential = build_macaroon(vec![0xca, 0xfe]);
    let printed = format!("{:?}", credential);
    assert!(!printed.contains("cafe"));
    assert!(printed.contains("REDACTED"));
}

#[test]
fn headers_carry_content_type_and_credential() {
    let credential = build_macaroon(vec![0xab, 0xcd, 0x12]);
    let headers = build_headers(&credential);
    assert_eq!(headers.len(), 2);
    assert_eq!(headers.get("content-type").unwrap().as_bytes(), b"application/json");
    assert_eq!(headers.get("grpc-metadata-macaroon").unwrap().as_bytes(), b"abcd12");
}

#[test]
fn header_names_are_found_in_any_case() {
    let credential = build_macaroon(vec![0x00]);
    let headers = build_headers(&credential);
    assert_eq!(headers.get("Content-Type").unwrap().as_bytes(), b"application/json");
    assert_eq!(headers.get("Grpc-Metadata-macaroon").unwrap().as_bytes(), b"00");
    let names: Vec<String> = headers.keys().map(|k| k.as_str().to_string()).collect();
    assert!(names.contains(&"content-type".to_string()));
    assert!(names.contains(&"grpc-metadata-macaroon".to_string()));
}

#[test]
fn header_of_an_empty_credential_is_empty() {
    let credential = build_macaroon(vec![]);
    let headers = build_headers(&credential);
    assert_eq!(headers.get("grpc-metadata-macaroon").unwrap().as_bytes(), b"");
}

#[test]
fn header_of_a_long_credential_is_whole() {
    let contents: Vec<u8> = (0..4096usize).map(|i| (i % 251) as u8).collect();
    let credential = build_macaroon(contents.clone());
    let headers = build_headers(&credential);
    let expected: String = contents.iter().map(|b| format!("{:02x}", b)).collect();
    assert_eq!(headers.get("grpc-metadata-macaroon").unwrap().as_bytes(), expected.as_bytes());
}
