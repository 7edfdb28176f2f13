use vanity_address::address::{AddressError, BitcoinAddress};

#[test]
fn from_secret_builds_legacy_keypair() {
    let secret = vec![1u8; 32];
    let b = BitcoinAddress::from_secret(&secret, true, false).unwrap();
    // legacy mainnet pay-to-pubkey-hash addresses always start with '1'
    assert!(b.address.starts_with('1'));
    // a compressed public key is 33 bytes, 66 hex characters
    assert_eq!(b.public_key.len(), 66);
    // mainnet wallet-import format of a compressed key: 52 base58 characters
    assert_eq!(b.private_key.len(), 52);
    assert!(b.private_key.starts_with('K') || b.private_key.starts_with('L'));
}

#[test]
fn from_secret_uncompressed_keypair() {
    let secret = vec![1u8; 32];
    let b = BitcoinAddress::from_secret(&secret, false, false).unwrap();
    assert!(b.address.starts_with('1'));
    // an uncompressed public key is 65 bytes, 130 hex characters
    assert_eq!(b.public_key.len(), 130);
    // mainnet wallet-import format of an uncompressed key starts with '5'
    assert!(b.private_key.starts_with('5'));
}

#[test]
fn from_secret_builds_segwit_keypair() {
    let secret = vec![1u8; 32];
    let b = BitcoinAddress::from_secret(&secret, true, true).unwrap();
    assert!(b.address.starts_with("bc1"));
}

#[test]
fn from_secret_is_deterministic() {
    let secret = vec![7u8; 32];
    let a = BitcoinAddress::from_secret(&secret, true, false).unwrap();
    let b = BitcoinAddress::from_secret(&secret, true, false).unwrap();
    assert_eq!(a.private_key, b.private_key);
    assert_eq!(a.public_key, b.public_key);
    assert_eq!(a.address, b.address);
}

#[test]
fn different_secrets_give_different_addresses() {
    let a = BitcoinAddress::from_secret(&vec![1u8; 32], true, false).unwrap();
    let b = BitcoinAddress::from_secret(&vec![2u8; 32], true, false).unwrap();
    assert_ne!(a.address, b.address);
    assert_ne!(a.public_key, b.public_key);
    assert_ne!(a.private_key, b.private_key);
}

#[test]
fn zero_secret_is_rejected() {
    let err = BitcoinAddress::from_secret(&vec![0u8; 32], true, false).unwrap_err();
    assert_eq!(err, AddressError::InvalidSecret);
}

#[test]
fn short_secret_is_rejected() {
    let err = BitcoinAddress::from_secret(&vec![1u8; 31], true, false).unwrap_err();
    assert_eq!(err, AddressError::InvalidSecret);
}

#[test]
fn segwit_needs_a_compressed_key() {
    let err = BitcoinAddress::from_secret(&vec![1u8; 32], false, true).unwrap_err();
    assert_eq!(err, AddressError::UncompressedSegwit);
    let err = BitcoinAddress::new(false, true).unwrap_err();
    assert_eq!(err, AddressError::UncompressedSegwit);
}

#[test]
fn new_generates_fresh_keypairs() {
    let a = BitcoinAddress::new(true, false).unwrap();
    let b = BitcoinAddress::new(true, false).unwrap();
    assert!(a.address.starts_with('1'));
    assert!(b.address.starts_with('1'));
    // two draws from the entropy source collide with negligible probability
    assert_ne!(a.address, b.address);
}

#[test]
fn rederiving_the_address_from_the_public_key_round_trips() {
    let secret = vec![3u8; 32];
    for (compressed, bech32) in [(true, false), (false, false), (true, true)].iter() {
        let b = BitcoinAddress::from_secret(&secret, *compressed, *bech32).unwrap();
        let rederived = b.rederived_address(*bech32).unwrap();
        assert_eq!(rederived, b.address);
    }
}

#[test]
fn rederiving_fails_on_a_garbage_public_key() {
    let b = BitcoinAddress {
        private_key: String::new(),
        public_key: "not a public key".to_string(),
        address: String::new(),
    };
    assert_eq!(b.rederived_address(false), None);
}
