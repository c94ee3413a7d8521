use sqlx_to_json::mysql::{date_payload_safe, datetime_payload_safe};

#[test]
fn date_payloads() {
    // binary: length byte, then year (little endian), month, day
    assert!(date_payload_safe(&vec![4, 0xE8, 0x07, 1, 15]));
    assert!(date_payload_safe(&vec![0]));
    assert!(date_payload_safe(&vec![]));
    assert!(!date_payload_safe(&vec![1, 0xE8]));
    assert!(!date_payload_safe(&vec![3, 0xE8, 0x07, 1]));
    // text protocol
    assert!(date_payload_safe(&b"2024-01-15".to_vec()));
}

#[test]
fn datetime_payloads() {
    assert!(datetime_payload_safe(&vec![4, 0xE8, 0x07, 1, 15]));
    assert!(datetime_payload_safe(&vec![7, 0xE8, 0x07, 1, 15, 10, 30, 0]));
    assert!(datetime_payload_safe(&vec![11, 0xE8, 0x07, 1, 15, 10, 30, 0, 1, 0, 0, 0]));
    assert!(!datetime_payload_safe(&vec![2, 0xE8, 0x07]));
    assert!(!datetime_payload_safe(&vec![5, 0xE8, 0x07, 1, 15, 10]));
    let mut long = vec![20u8];
    long.extend(vec![1u8; 20]);
    assert!(!datetime_payload_safe(&long));
    assert!(datetime_payload_safe(&b"2024-01-15 10:30:00".to_vec()));
    assert!(datetime_payload_safe(&b"2024-01-15 10:30:00.123456".to_vec()));
}
