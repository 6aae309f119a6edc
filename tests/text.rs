use awgateway::text::{bytes_to_hex, hex_join, remove_colons, split_list};

#[test]
fn hex_upper_with_separator() {
    assert_eq!(bytes_to_hex(&[0x00, 0xAB, 0x0F], ":"), "00:AB:0F");
    assert_eq!(bytes_to_hex(&[], ":"), "");
    assert_eq!(bytes_to_hex(&[0x7E], "-"), "7E");
}

#[test]
fn hex_lower_without_separator() {
    assert_eq!(hex_join(&[0xDE, 0xAD, 0x01], "", false), "dead01");
}

#[test]
fn colons_removed() {
    assert_eq!(remove_colons("a:b::c:"), "abc");
    assert_eq!(remove_colons(""), "");
    assert_eq!(remove_colons("GW1100A_V2.3.1"), "GW1100A_V2.3.1");
}

#[test]
fn comma_list_split() {
    assert_eq!(split_list("192.168.1.2,192.168.1.3"), vec!["192.168.1.2", "192.168.1.3"]);
    assert_eq!(split_list("one"), vec!["one"]);
    assert_eq!(split_list(""), vec![""]);
    assert_eq!(split_list("a,,b,"), vec!["a", "", "b", ""]);
}
