use datalith::text::hex32;
use datalith::text::parse_hex32;

#[test]
fn blob_name_is_thirty_two_lowercase_hex_digits() {
    assert_eq!(hex32(0x70b7c850506e4fa98a4a713aca21f594), "70b7c850506e4fa98a4a713aca21f594");
    assert_eq!(hex32(0), "00000000000000000000000000000000");
    assert_eq!(hex32(u128::MAX), "ffffffffffffffffffffffffffffffff");
    assert_eq!(hex32(0xabc), "00000000000000000000000000000abc");
}

#[test]
fn blob_name_parses_back() {
    assert_eq!(
        parse_hex32("70b7c850506e4fa98a4a713aca21f594"),
        Some(0x70b7c850506e4fa98a4a713aca21f594)
    );
    assert_eq!(parse_hex32("hello.txt"), None);
    assert_eq!(parse_hex32("70B7C850506E4FA98A4A713ACA21F594"), None);
    assert_eq!(parse_hex32("abc"), None);
    assert_eq!(parse_hex32(""), None);
}
