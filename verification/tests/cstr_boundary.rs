use crabwatch_gpiod::cstr::{encode_path, find_nul, read_token};

#[test]
fn encode_appends_one_terminator() {
    let bytes = encode_path("/dev/gpiochip0").expect("no zero byte in the path");
    assert_eq!(bytes, b"/dev/gpiochip0\0".to_vec());
    assert_eq!(bytes.len(), 15);
}

#[test]
fn encode_empty_path_is_a_lone_terminator() {
    let bytes = encode_path("").expect("the empty path holds no zero byte");
    assert_eq!(bytes, vec![0u8]);
}

#[test]
fn encode_keeps_multibyte_text() {
    let bytes = encode_path("/dev/gpio\u{e9}").expect("no zero byte in the path");
    assert_eq!(bytes, vec![b'/', b'd', b'e', b'v', b'/', b'g', b'p', b'i', b'o', 0xc3, 0xa9, 0]);
}

#[test]
fn encode_refuses_interior_nul() {
    let error = encode_path("/dev/gp\0iochip0").expect_err("the path holds a zero byte");
    assert_eq!(error.position, 7);
    assert_eq!(error.bytes, b"/dev/gp\0iochip0".to_vec());
}

#[test]
fn encode_refuses_trailing_nul() {
    let error = encode_path("abc\0").expect_err("the path ends in a zero byte");
    assert_eq!(error.position, 3);
    assert_eq!(error.bytes, b"abc\0".to_vec());
}

#[test]
fn encode_reports_first_of_several_nuls() {
    let error = encode_path("\0a\0").expect_err("the path starts with a zero byte");
    assert_eq!(error.position, 0);
    assert_eq!(error.bytes, vec![0u8, b'a', 0u8]);
}

#[test]
fn find_nul_gives_first_position() {
    assert_eq!(find_nul(b"ab\0cd\0"), Some(2));
    assert_eq!(find_nul(b"\0"), Some(0));
    assert_eq!(find_nul(b"abcd"), None);
    assert_eq!(find_nul(b""), None);
}

#[test]
fn read_token_stops_at_terminator() {
    assert_eq!(read_token(b"1.6.3\0"), b"1.6.3");
    assert_eq!(read_token(b"1.6\0.3\0"), b"1.6");
    assert_eq!(read_token(b"\0"), b"");
}

#[test]
fn read_token_without_terminator_is_whole_buffer() {
    assert_eq!(read_token(b"2.1"), b"2.1");
    assert_eq!(read_token(b""), b"");
}

#[test]
fn read_token_undoes_encode() {
    let path = "/dev/gpiochip12";
    let bytes = encode_path(path).expect("no zero byte in the path");
    assert_eq!(read_token(&bytes), path.as_bytes());
    assert_eq!(find_nul(&bytes), Some(bytes.len() - 1));
}
