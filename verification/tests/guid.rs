use std::cmp::Ordering;

use mun_abi::Guid;

const I32_GUID: [u8; 16] = [
    0x17, 0x79, 0x7a, 0x74, 0x19, 0xd6, 0x32, 0x17, 0xd2, 0x35, 0x95, 0x43, 0x17, 0x88, 0x5b, 0xfa,
];

#[test]
fn identity_of_core_i32_is_fixed() {
    assert_eq!(Guid::from_str("core::i32").0, I32_GUID);
    assert_eq!(Guid::from_str("core::i32"), Guid::from_str("core::i32"));
    assert_eq!(Guid::from_str("core::i32"), Guid(I32_GUID));
}

#[test]
fn identity_is_the_md5_digest_of_the_name() {
    assert_eq!(
        Guid::from_str("").0,
        [
            0xd4, 0x1d, 0x8c, 0xd9, 0x8f, 0x00, 0xb2, 0x04, 0xe9, 0x80, 0x09, 0x98, 0xec, 0xf8,
            0x42, 0x7e
        ]
    );
    assert_eq!(
        Guid::from_str("a").0,
        [
            0x0c, 0xc1, 0x75, 0xb9, 0xc0, 0xf1, 0xb6, 0xa8, 0x31, 0xc3, 0x99, 0xe2, 0x69, 0x77,
            0x26, 0x61
        ]
    );
    assert_eq!(
        Guid::from_str("input string").0,
        [
            0x16, 0x4c, 0x37, 0x5b, 0x4a, 0x5d, 0xf4, 0x4a, 0x33, 0x2c, 0xa3, 0x4b, 0xda, 0x6c,
            0xba, 0x9d
        ]
    );
}

#[test]
fn identity_differs_from_the_bytes_of_the_name() {
    let name = "0123456789abcdef";
    assert_eq!(name.len(), 16);
    assert_ne!(&Guid::from_str(name).0[..], name.as_bytes());
}

#[test]
fn equal_names_have_equal_identities() {
    let owned = String::from("core::") + "u64";
    assert_eq!(Guid::from_str(&owned), Guid::from_str("core::u64"));
    assert_ne!(Guid::from_str("core::u64"), Guid::from_str("core::u32"));
}

#[test]
fn from_cstr_agrees_with_from_str() {
    assert_eq!(Guid::from_cstr(b"core::i32"), Guid::from_str("core::i32"));
    assert_eq!(Guid::from_cstr(b""), Guid::from_str(""));
    assert_eq!(Guid::from_cstr(b"core::i32").0, I32_GUID);
}

#[test]
fn display_has_canonical_shape() {
    for name in ["core::i32", "core::empty", "", "some::longer::name"] {
        let text = Guid::from_str(name).to_string();
        assert_eq!(text.len(), 36);
        for (i, c) in text.chars().enumerate() {
            if i == 8 || i == 13 || i == 18 || i == 23 {
                assert_eq!(c, '-');
            } else {
                assert!(c.is_ascii_digit() || ('a'..='f').contains(&c));
            }
        }
    }
}

#[test]
fn display_of_known_bytes() {
    let guid = Guid([
        0x01, 0x23, 0x45, 0x67, 0x89, 0xab, 0xcd, 0xef, 0x00, 0x00, 0x00, 0x00, 0x00, 0x00, 0x00,
        0xff,
    ]);
    assert_eq!(guid.to_string(), "01234567-89ab-cdef-0000-0000000000ff");
    assert_eq!(Guid([0; 16]).to_string(), "00000000-0000-0000-0000-000000000000");
    assert_eq!(Guid([0xff; 16]).to_string(), "ffffffff-ffff-ffff-ffff-ffffffffffff");
    assert_eq!(Guid(I32_GUID).to_string(), "17797a74-19d6-3217-d235-954317885bfa");
}

#[test]
fn format_hyphenated_gives_the_ascii_bytes_of_the_text() {
    let guid = Guid::from_str("core::bool");
    let bytes = guid.format_hyphenated();
    assert_eq!(&bytes[..], guid.to_string().as_bytes());
    assert_eq!(&bytes[..], "7882816d-2074-3703-cbf8-6b812d3bc984".as_bytes());
}

#[test]
fn equality_is_by_bytes() {
    let mut bytes = [7u8; 16];
    let a = Guid(bytes);
    assert!(a == Guid([7; 16]));
    bytes[15] = 8;
    assert!(a != Guid(bytes));
    bytes[15] = 7;
    bytes[0] = 6;
    assert!(a != Guid(bytes));
}

#[test]
fn order_is_bytewise() {
    let low = Guid([0x10; 16]);
    let mut bytes = [0x10; 16];
    bytes[15] = 0x11;
    let last_greater = Guid(bytes);
    let mut bytes = [0x00; 16];
    bytes[0] = 0x11;
    let first_greater = Guid(bytes);

    assert_eq!(low.partial_cmp(&low), Some(Ordering::Equal));
    assert_eq!(low.partial_cmp(&last_greater), Some(Ordering::Less));
    assert_eq!(last_greater.partial_cmp(&low), Some(Ordering::Greater));
    assert_eq!(last_greater.partial_cmp(&first_greater), Some(Ordering::Less));
    assert_eq!(first_greater.partial_cmp(&low), Some(Ordering::Greater));
    assert!(low < last_greater && last_greater < first_greater && low < first_greater);

    for a in [low, last_greater, first_greater] {
        for b in [low, last_greater, first_greater] {
            assert_eq!(a.partial_cmp(&b), Some(a.cmp(&b)));
            assert_eq!(a.partial_cmp(&b), Some(a.0.cmp(&b.0)));
        }
    }
}
