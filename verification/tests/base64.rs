use sysenix::base64::to_base64;

#[test]
fn encodes_rfc4648_vectors() {
    assert_eq!(to_base64(b""), "");
    assert_eq!(to_base64(b"f"), "Zg==");
    assert_eq!(to_base64(b"fo"), "Zm8=");
    assert_eq!(to_base64(b"foo"), "Zm9v");
    assert_eq!(to_base64(b"foob"), "Zm9vYg==");
    assert_eq!(to_base64(b"fooba"), "Zm9vYmE=");
    assert_eq!(to_base64(b"foobar"), "Zm9vYmFy");
}

#[test]
fn encodes_hello() {
    assert_eq!(to_base64(b"hello"), "aGVsbG8=");
    assert_eq!(to_base64(b"hell"), "aGVsbA==");
    assert_eq!(to_base64(b"hel"), "aGVs");
}

#[test]
fn encodes_high_bytes_with_plus_and_slash() {
    assert_eq!(to_base64(&[0xfb, 0xff]), "+/8=");
    assert_eq!(to_base64(&[0xff, 0xff, 0xff]), "////");
    assert_eq!(to_base64(&[0x00, 0x00, 0x00]), "AAAA");
    assert_eq!(to_base64(&[0x89, 0x50, 0x4e, 0x47]), "iVBORw==");
}

#[test]
fn encoded_length_is_four_per_started_group() {
    for n in 0..40usize {
        let bytes: Vec<u8> = (0..n).map(|i| (i * 37 % 256) as u8).collect();
        let encoded = to_base64(&bytes);
        assert_eq!(encoded.len(), 4 * ((n + 2) / 3));
        let padding = (3 - n % 3) % 3;
        assert!(encoded.ends_with(&"=".repeat(padding)));
        assert!(encoded[..encoded.len() - padding]
            .chars()
            .all(|c| c.is_ascii_alphanumeric() || c == '+' || c == '/'));
    }
}

#[test]
fn distinct_inputs_give_distinct_encodings() {
    let inputs: Vec<Vec<u8>> = vec![
        vec![],
        vec![0],
        vec![0, 0],
        vec![0, 0, 0],
        vec![1],
        vec![0, 1],
        vec![255, 0],
        vec![255, 0, 0],
    ];
    for (i, a) in inputs.iter().enumerate() {
        for (j, b) in inputs.iter().enumerate() {
            assert_eq!(i == j, to_base64(a) == to_base64(b));
        }
    }
}
