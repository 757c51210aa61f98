use mxchat::auth::UserId;
use mxchat::utils::{bytes_as_u16, bytes_as_u32, u16_as_bytes, u32_as_bytes};

#[test]
fn test_u16() {
    let value = 1048;

    let bytes = u16_as_bytes(value);
    println!("{bytes:?}");

    assert_eq!(value, bytes_as_u16(&bytes));
}

#[test]
fn test_u32() {
    let value = 570_234;

    let bytes = u32_as_bytes(value);
    println!("{bytes:?}");

    assert_eq!(value, bytes_as_u32(&bytes));
}

#[test]
fn u32_is_big_endian() {
    assert_eq!(u32_as_bytes(1), [0, 0, 0, 1]);
    assert_eq!(u32_as_bytes(0x0102_0304), [1, 2, 3, 4]);
    assert_eq!(u16_as_bytes(0x0A0B), [0x0A, 0x0B]);
    assert_eq!(bytes_as_u32(&[0xFF, 0, 0, 0x10]), 0xFF00_0010);
}

#[test]
fn u32_round_trip_at_the_edges() {
    for v in [0u32, 1, 255, 256, 65_535, 65_536, u32::MAX - 1, u32::MAX] {
        assert_eq!(bytes_as_u32(&u32_as_bytes(v)), v);
    }
}

#[test]
fn user_id_bytes() {
    let id = UserId::new(258);
    assert_eq!(id.to_bytes(), [0, 0, 1, 2]);
    assert_eq!(UserId::from_bytes(&[0, 0, 1, 2]), id);
    assert_eq!(UserId::size(), 4);
    assert_eq!(id.get(), 258);
}
