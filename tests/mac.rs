use pwmp_server::mac::Mac;

#[test]
fn parses_lowercase_address() {
    let mac = Mac::parse("aa:bb:cc:dd:ee:ff").unwrap();
    assert_eq!(mac.octets, [0xaa, 0xbb, 0xcc, 0xdd, 0xee, 0xff]);
}

#[test]
fn canonical_text_is_lowercase_of_input() {
    for text in ["aa:bb:cc:dd:ee:ff", "AA:Bb:0C:dd:EE:ff", "01:23:45:67:89:AB", "00:00:00:00:00:00"] {
        let mac = Mac::parse(text).unwrap();
        assert_eq!(mac.to_canonical_string(), text.to_lowercase());
    }
}

#[test]
fn canonical_text_parses_back() {
    let mac = Mac::new([0x01, 0xa0, 0x0f, 0xf0, 0x99, 0x10]);
    let text = mac.to_canonical_string();
    assert_eq!(text, "01:a0:0f:f0:99:10");
    assert_eq!(Mac::parse(&text), Some(mac));
}

#[test]
fn rejects_malformed_addresses() {
    assert_eq!(Mac::parse(""), None);
    assert_eq!(Mac::parse("aa:bb:cc:dd:ee"), None);
    assert_eq!(Mac::parse("aa-bb-cc-dd-ee-ff"), None);
    assert_eq!(Mac::parse("gg:bb:cc:dd:ee:ff"), None);
    assert_eq!(Mac::parse("aa:bb:cc:dd:ee:ff:"), None);
    assert_eq!(Mac::parse("aab:b:cc:dd:ee:ff"), None);
}
