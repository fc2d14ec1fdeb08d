use faucet::Identity;

#[test]
fn identity_keeps_its_bytes() {
    let mut bytes = [0u8; 32];
    for (i, b) in bytes.iter_mut().enumerate() {
        *b = (i as u8) * 3 + 1;
    }
    let id = Identity::new_from_array(bytes);
    assert_eq!(id.to_bytes(), bytes);
}

#[test]
fn identities_with_the_same_bytes_are_equal() {
    let a = Identity::new_from_array([7u8; 32]);
    let b = Identity::new_from_array([7u8; 32]);
    assert!(a == b);
    assert!(!(a != b));
}

#[test]
fn identities_differ_by_a_single_byte() {
    let a = Identity::new_from_array([7u8; 32]);
    for i in 0..32 {
        let mut bytes = [7u8; 32];
        bytes[i] = 8;
        let b = Identity::new_from_array(bytes);
        assert!(a != b, "byte {} must count", i);
        assert!(!(a == b));
    }
}

#[test]
fn identity_agrees_with_pubkey_equality() {
    let x = anchor_lang::prelude::Pubkey::new_from_array([1u8; 32]);
    let y = anchor_lang::prelude::Pubkey::new_from_array([2u8; 32]);
    let a = Identity::new_from_array(x.to_bytes());
    let b = Identity::new_from_array(y.to_bytes());
    assert_eq!(a == b, x == y);
    assert_eq!(a == a, x == x);
}
