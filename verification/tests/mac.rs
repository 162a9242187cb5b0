use fireup::vm::mac::{generate_unique_mac, mac_from_bytes};

#[test]
fn test_generate_unique_mac() {
    let mac1 = generate_unique_mac();
    let mac2 = generate_unique_mac();

    // Check format (6 pairs of 2 hex digits separated by colons)
    assert!(mac1.chars().count() == 17);
    assert!(mac1.split(':').count() == 6);

    // Check that the MAC is locally administered (second bit of first byte is 1)
    let first_byte = u8::from_str_radix(&mac1[0..2], 16).unwrap();
    assert_eq!(first_byte & 0x02, 0x02);
    assert_eq!(first_byte & 0x01, 0x00); // Unicast

    // Check uniqueness
    assert_ne!(mac1, mac2);
}

#[test]
fn mac_from_bytes_formats_upper_case_pairs() {
    assert_eq!(mac_from_bytes([0xff, 0x00, 0x1a, 0xb2, 0x3c, 0x09]), "FE:00:1A:B2:3C:09");
    assert_eq!(mac_from_bytes([0x00, 0x01, 0x02, 0x03, 0x04, 0x05]), "02:01:02:03:04:05");
    assert_eq!(mac_from_bytes([0x01, 0xaa, 0xbb, 0xcc, 0xdd, 0xee]), "02:AA:BB:CC:DD:EE");
}

#[test]
fn every_first_octet_is_local_unicast() {
    for b in 0..=255u8 {
        let mac = mac_from_bytes([b, 0, 0, 0, 0, 0]);
        let first = u8::from_str_radix(&mac[0..2], 16).unwrap();
        assert_eq!(first & 0x03, 0x02);
        assert_eq!(first & 0xfc, b & 0xfc);
    }
}
