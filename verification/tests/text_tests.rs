use rust_client::decimal::decimal;
use rust_client::hex::hex_dump;
use rust_client::qlog::qlog_file_name;

#[test]
fn hex_dump_two_digits_per_byte() {
    assert_eq!(hex_dump(&[0xbe, 0x0f, 0x00, 0xff, 0x5a]), "be0f00ff5a");
}

#[test]
fn hex_dump_empty() {
    assert_eq!(hex_dump(&[]), "");
}

#[test]
fn hex_dump_matches_format() {
    let bytes: Vec<u8> = (0..=255u8).collect();
    let expected: String = bytes.iter().map(|b| format!("{b:02x}")).collect();
    assert_eq!(hex_dump(&bytes), expected);
}

#[test]
fn decimal_renders_like_display() {
    assert_eq!(decimal(0), "0");
    assert_eq!(decimal(7), "7");
    assert_eq!(decimal(10), "10");
    assert_eq!(decimal(1234567890), "1234567890");
    assert_eq!(decimal(usize::MAX), usize::MAX.to_string());
}

#[test]
fn qlog_name() {
    assert_eq!(qlog_file_name("client", "abc123"), "client-abc123.sqlog");
    assert_eq!(qlog_file_name("", ""), "-.sqlog");
}
