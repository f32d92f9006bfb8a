use cec_rs::first_n;

#[test]
fn test_first_3() {
    assert_eq!([b's', b'a', b'm'], first_n::<3>("sample"));
    assert_eq!([b's', b'a', 0], first_n::<3>("sa"));
    assert_eq!([0u8, 0, 0], first_n::<3>(""));
}

#[test]
fn test_first_7() {
    assert_eq!(
        [b's', b'a', b'm', b'p', b'l', b'e', 0],
        first_n::<7>("sample")
    );
}

#[test]
fn test_first_0() {
    assert_eq!([] as [u8; 0], first_n::<0>("sample"));
}

#[test]
fn first_n_copies_utf8_bytes() {
    // "ä" is two bytes in UTF-8: 0xc3 0xa4
    assert_eq!([0xc3, 0xa4, b'b', 0], first_n::<4>("äb"));
}
