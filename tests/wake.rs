use homedash::wake::mac_address;

#[test]
fn mac_address_reads_six_bytes() {
    assert_eq!(mac_address("00:0a:0b:0c:0d:0e"), Some([0x00, 0x0a, 0x0b, 0x0c, 0x0d, 0x0e]));
    assert_eq!(mac_address("ff:ee:dd:cc:bb:aa"), Some([0xff, 0xee, 0xdd, 0xcc, 0xbb, 0xaa]));
}

#[test]
fn mac_address_rejects_malformed_text() {
    assert_eq!(mac_address("not a mac"), None);
    assert_eq!(mac_address(""), None);
}
