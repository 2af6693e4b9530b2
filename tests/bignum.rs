use secret_service::bignum::{powm, BigNum};

fn num(bytes: &[u8]) -> BigNum {
    BigNum::from_bytes_be(bytes)
}

fn value(n: &BigNum) -> u128 {
    n.to_bytes_be().iter().fold(0u128, |acc, &b| (acc << 8) | b as u128)
}

#[test]
fn powm_small_values() {
    let r = powm(&num(&[4]), &num(&[13]), &num(&[0x01, 0xf1]));
    assert_eq!(value(&r), 445);
}

#[test]
fn powm_larger_exponent() {
    let r = powm(&num(&[3]), &num(&[200]), &num(&[0x0f, 0x42, 0x47]));
    assert_eq!(value(&r), 959082);
}

#[test]
fn powm_sixty_four_bit_operands() {
    let base = num(&0x1234567890abcdefu64.to_be_bytes());
    let exp = num(&0x10001u64.to_be_bytes());
    let modulus = num(&0xfffffffffffffffbu64.to_be_bytes());
    assert_eq!(value(&powm(&base, &exp, &modulus)), 6202122992327880755);
}

#[test]
fn powm_zero_exponent_is_one_reduced() {
    assert_eq!(value(&powm(&num(&[9]), &num(&[]), &num(&[7]))), 1);
    assert_eq!(value(&powm(&num(&[9]), &num(&[0, 0]), &num(&[1]))), 0);
}

#[test]
fn powm_zero_base() {
    assert_eq!(value(&powm(&num(&[0]), &num(&[5]), &num(&[7]))), 0);
}

#[test]
fn zero_and_parity() {
    assert!(num(&[]).is_zero());
    assert!(num(&[0, 0, 0]).is_zero());
    assert!(!num(&[0, 1, 0]).is_zero());
    assert!(num(&[2, 3]).is_odd());
    assert!(!num(&[3, 2]).is_odd());
    assert!(!num(&[]).is_odd());
}

#[test]
fn padded_encoding_adds_leading_zeros() {
    assert_eq!(num(&[1, 2]).to_bytes_be_padded(4), vec![0, 0, 1, 2]);
    assert_eq!(num(&[]).to_bytes_be_padded(3), vec![0, 0, 0]);
}

#[test]
fn padded_encoding_drops_leading_zero_bytes() {
    assert_eq!(num(&[0, 0, 0, 5]).to_bytes_be_padded(2), vec![0, 5]);
    assert_eq!(num(&[7, 8]).to_bytes_be_padded(2), vec![7, 8]);
}

#[test]
fn from_u8_and_copy() {
    let n = BigNum::from_u8(200);
    assert_eq!(value(&n.copy()), 200);
}
