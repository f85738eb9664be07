use ffwebapps::runtime::{digests_differ, hasher, runtime_outdated};

#[test]
fn a_browser_is_digested_with_blake3() {
    let empty: Vec<u8> = vec![
        0xaf, 0x13, 0x49, 0xb9, 0xf5, 0xf9, 0xa1, 0xa6, 0xa0, 0x40, 0x4d, 0xea, 0x36, 0xdc, 0xc9,
        0x49, 0x9b, 0xcb, 0x25, 0xc9, 0xad, 0xc1, 0x12, 0xb7, 0xcc, 0x9a, 0x93, 0xca, 0xe4, 0x1f,
        0x32, 0x62,
    ];
    assert_eq!(hasher(&vec![]), empty);
    let browser = b"\x7fELF".to_vec();
    assert_eq!(hasher(&browser), blake3::hash(&browser).as_bytes().to_vec());
}

#[test]
fn digests_differ_in_any_byte() {
    assert!(!digests_differ(&vec![], &vec![]));
    assert!(!digests_differ(&vec![1, 2], &vec![1, 2]));
    assert!(digests_differ(&vec![1, 2], &vec![1, 3]));
    assert!(digests_differ(&vec![1, 2], &vec![1]));
}

#[test]
fn a_runtime_is_outdated_when_it_is_not_the_systems_browser() {
    assert!(!runtime_outdated(&b"same".to_vec(), &b"same".to_vec()));
    assert!(runtime_outdated(&b"new".to_vec(), &b"old".to_vec()));
}
