use apd::codec::{decode_nul_terminated, encode_nul_terminated};

#[test]
fn encode_appends_exactly_one_terminator() {
    let buf = encode_nul_terminated(b"SECRET").expect("no null byte");
    assert_eq!(buf.raw(), b"SECRET\0");
}

#[test]
fn encode_of_empty_value_is_just_the_terminator() {
    let buf = encode_nul_terminated(b"").expect("no null byte");
    assert_eq!(buf.raw(), b"\0");
}

#[test]
fn round_trip_preserves_bytes_exactly() {
    let cases: Vec<&[u8]> = vec![b"SECRET", b"", b"/data/x.kpm", b"\x01\xff weird \x7f"];
    for case in cases {
        let buf = encode_nul_terminated(case).expect("no null byte");
        let back = decode_nul_terminated(&buf);
        assert_eq!(back.as_slice(), case);
    }
}

#[test]
fn embedded_null_byte_is_rejected() {
    assert!(encode_nul_terminated(b"bad\0key").is_none());
    assert!(encode_nul_terminated(b"\0").is_none());
    assert!(encode_nul_terminated(b"trailing\0").is_none());
}
