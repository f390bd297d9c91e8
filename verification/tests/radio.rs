use wifi_handler::radio::terminated;

#[test]
fn terminated_appends_one_zero() {
    assert_eq!(terminated(&b"MySSID".to_vec()), b"MySSID\0".to_vec());
    assert_eq!(terminated(&b"MyPassword".to_vec()), b"MyPassword\0".to_vec());
}

#[test]
fn terminated_of_nothing_is_the_terminator() {
    assert_eq!(terminated(&Vec::new()), vec![0u8]);
}

#[test]
fn terminated_stops_at_the_first_zero() {
    assert_eq!(terminated(&b"ab\0cd\0".to_vec()), b"ab\0".to_vec());
    assert_eq!(terminated(&b"\0rest".to_vec()), vec![0u8]);
}

#[test]
fn terminated_keeps_terminated_bytes() {
    let once = terminated(&vec![0xffu8, 0x80, 0x01]);
    assert_eq!(once, vec![0xffu8, 0x80, 0x01, 0x00]);
    assert_eq!(terminated(&once), once);
}
