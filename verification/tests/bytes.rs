use dice_game::bytes::{bytes_eq, extend_le_u64, read_le_u128};
use dice_game::Pubkey;

#[test]
fn u64_is_appended_least_significant_byte_first() {
    let mut out = vec![0xaa];
    extend_le_u64(&mut out, 0x0102_0304_0506_0708);
    assert_eq!(out, vec![0xaa, 8, 7, 6, 5, 4, 3, 2, 1]);
}

#[test]
fn u64_extremes_are_eight_bytes() {
    let mut zero = Vec::new();
    extend_le_u64(&mut zero, 0);
    assert_eq!(zero, vec![0u8; 8]);
    let mut max = Vec::new();
    extend_le_u64(&mut max, u64::MAX);
    assert_eq!(max, vec![0xffu8; 8]);
    let mut thousand = Vec::new();
    extend_le_u64(&mut thousand, 1000);
    assert_eq!(thousand, 1000u64.to_le_bytes().to_vec());
}

#[test]
fn sixteen_bytes_are_read_as_little_endian() {
    let mut bytes = vec![9u8; 3];
    bytes.extend_from_slice(&0x0011_2233_4455_6677_8899_aabb_ccdd_eeffu128.to_le_bytes());
    bytes.push(9);
    assert_eq!(read_le_u128(&bytes, 3), 0x0011_2233_4455_6677_8899_aabb_ccdd_eeff);
    assert_eq!(read_le_u128(&[0xff; 16], 0), u128::MAX);
    assert_eq!(read_le_u128(&[0; 16], 0), 0);
    let mut one = [0u8; 16];
    one[0] = 1;
    assert_eq!(read_le_u128(&one, 0), 1);
    let mut high = [0u8; 16];
    high[15] = 1;
    assert_eq!(read_le_u128(&high, 0), 1u128 << 120);
}

#[test]
fn byte_strings_compare_by_length_and_content() {
    assert!(bytes_eq(&[], &[]));
    assert!(bytes_eq(&[1, 2, 3], &[1, 2, 3]));
    assert!(!bytes_eq(&[1, 2, 3], &[1, 2, 4]));
    assert!(!bytes_eq(&[1, 2, 3], &[1, 2]));
    assert!(!bytes_eq(&[1, 2], &[1, 2, 3]));
}

#[test]
fn keys_compare_by_their_bytes() {
    let a = Pubkey::new_from_array([1; 32]);
    let mut other = [1u8; 32];
    other[31] = 2;
    let b = Pubkey::new_from_array(other);
    assert!(a.same(&Pubkey::new_from_array([1; 32])));
    assert!(!a.same(&b));
    assert_eq!(a, Pubkey::new_from_array([1; 32]));
    assert_ne!(a, b);
    assert_eq!(b.to_bytes(), other);
}
