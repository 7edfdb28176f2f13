//! Candidate generation and pattern matching.
//!
//! A [`BitcoinAddress`] holds one generated keypair as three encoded
//! strings: the private key in wallet-import format, the public key in hex,
//! and the derived address (legacy pay-to-pubkey-hash, or segwit when
//! `bech32` is requested). The elliptic-curve derivation, the address
//! encoding, the entropy source and the regex engine are consumed through
//! narrow trusted wrappers; everything that decides on their results is
//! verified against the names given to those results.

use std::str::FromStr;

use bitcoin::network::constants::Network;
use bitcoin::secp256k1::{Secp256k1, SecretKey};
use bitcoin::util::address::Address;
use bitcoin::util::key::{PrivateKey, PublicKey};
use vstd::prelude::*;

verus! {

/// The lowercasing of a string, as `str::to_lowercase` computes it.
pub uninterp spec fn lower_of(s: Seq<char>) -> Seq<char>;

/// Whether a pattern string is accepted by the regex compiler.
pub uninterp spec fn regex_valid(pattern: Seq<char>) -> bool;

/// Whether a compiled pattern matches somewhere in a text.
pub uninterp spec fn regex_matches(pattern: Seq<char>, text: Seq<char>) -> bool;

/// Whether a byte string is a valid secp256k1 secret scalar.
pub uninterp spec fn secret_valid(secret: Seq<u8>) -> bool;

/// The wallet-import-format encoding of a secret key on the Bitcoin
/// mainnet, with the given compressedness flag.
pub uninterp spec fn wif_of(secret: Seq<u8>, compressed: bool) -> Seq<char>;

/// The hex encoding of the public key derived from a secret key, with the
/// given compressedness flag.
pub uninterp spec fn pubkey_of(secret: Seq<u8>, compressed: bool) -> Seq<char>;

/// Whether a string parses back into a public key.
pub uninterp spec fn pubkey_parses(public_key: Seq<char>) -> bool;

/// Whether the public key a string parses into is a compressed one.
pub uninterp spec fn pubkey_compressed(public_key: Seq<char>) -> bool;

/// The encoded mainnet address of a public key string: segwit
/// pay-to-witness-pubkey-hash when `bech32` is set, else legacy
/// pay-to-pubkey-hash.
pub uninterp spec fn address_of(public_key: Seq<char>, bech32: bool) -> Seq<char>;

/// Relies on `str::to_lowercase`: the result depends on the characters
/// alone.
#[verifier::external_body]
fn lowercase(s: &str) -> (r: String)
    ensures
        r@ == lower_of(s@),
{
    s.to_lowercase()
}

/// Relies on `regex::Regex::new`: whether a pattern compiles depends on the
/// pattern string alone.
#[verifier::external_body]
fn regex_is_valid(pattern: &str) -> (r: bool)
    ensures
        r == regex_valid(pattern@),
{
    regex::Regex::new(pattern).is_ok()
}

/// Relies on `regex::Regex::new` and `regex::Regex::is_match`: whether the
/// compiled pattern matches somewhere in the text depends on the pattern
/// and the text alone. The pattern must compile, so the error arm is never
/// taken.
#[verifier::external_body]
fn regex_find(pattern: &str, text: &str) -> (r: bool)
    requires
        regex_valid(pattern@),
    ensures
        r == regex_matches(pattern@, text@),
{
    match regex::Regex::new(pattern) {
        Ok(re) => re.is_match(text),
        Err(_) => false,
    }
}

/// Relies on `getrandom::getrandom`: on success the buffer is filled with
/// 32 bytes from the system entropy source. Nothing more is promised of
/// random bytes.
#[verifier::external_body]
fn random_bytes_32() -> (r: Option<Vec<u8>>)
    ensures
        r matches Some(v) ==> v@.len() == 32,
{
    let mut buf = [0u8; 32];
    match getrandom::getrandom(&mut buf) {
        Ok(()) => Some(buf.to_vec()),
        Err(_) => None,
    }
}

/// Relies on bitcoin's `SecretKey::from_slice` (succeeds exactly on a valid
/// 32-byte secret scalar), `PublicKey::from_private_key` (deterministic
/// derivation), and the `Display` encodings of `PrivateKey` (wallet-import
/// format) and `PublicKey` (hex, 66 characters compressed, 130
/// uncompressed, which `PublicKey::from_str` parses back with the same
/// compressedness).
#[verifier::external_body]
fn derive_keys(secret: &Vec<u8>, compressed: bool) -> (r: Option<(String, String)>)
    ensures
        r is Some <==> secret_valid(secret@),
        secret@.len() != 32 ==> r is None,
        r matches Some(k) ==> k.0@ == wif_of(secret@, compressed) && k.1@ == pubkey_of(
            secret@,
            compressed,
        ),
        r is Some ==> pubkey_parses(pubkey_of(secret@, compressed)) && (pubkey_compressed(
            pubkey_of(secret@, compressed),
        ) <==> compressed),
{
    let inner = match SecretKey::from_slice(secret.as_slice()) {
        Ok(k) => k,
        Err(_) => return None,
    };
    let private_key = PrivateKey { compressed, network: Network::Bitcoin, inner };
    let secp = Secp256k1::signing_only();
    let public_key = PublicKey::from_private_key(&secp, &private_key);
    Some((private_key.to_string(), public_key.to_string()))
}

/// Relies on bitcoin's `PublicKey::from_str`, `Address::p2pkh` (total),
/// `Address::p2wpkh` (fails exactly on an uncompressed key) and the
/// `Display` encoding of `Address`: the encoded address depends on the
/// public key string and the variant alone.
#[verifier::external_body]
fn encode_address(public_key: &str, bech32: bool) -> (r: Option<String>)
    ensures
        r is Some <==> (pubkey_parses(public_key@) && (bech32 ==> pubkey_compressed(public_key@))),
        r matches Some(a) ==> a@ == address_of(public_key@, bech32),
{
    let key = match PublicKey::from_str(public_key) {
        Ok(k) => k,
        Err(_) => return None,
    };
    let address = if bech32 {
        match Address::p2wpkh(&key, Network::Bitcoin) {
            Ok(a) => a,
            Err(_) => return None,
        }
    } else {
        Address::p2pkh(&key, Network::Bitcoin)
    };
    Some(address.to_string())
}

/// What [`BitcoinAddress::matches_with`] returns: containment of the
/// pattern in the encoded address, with both sides lowercased first when
/// the comparison is case-insensitive.
pub open spec fn spec_matches(address: Seq<char>, pattern: Seq<char>, case_sensitive: bool) -> bool {
    if case_sensitive {
        regex_matches(pattern, address)
    } else {
        regex_matches(lower_of(pattern), lower_of(address))
    }
}

/// The pattern compiles, after the lowercasing that a case-insensitive
/// comparison applies to it.
pub open spec fn pattern_ok(pattern: Seq<char>, case_sensitive: bool) -> bool {
    if case_sensitive {
        regex_valid(pattern)
    } else {
        regex_valid(lower_of(pattern))
    }
}

/// At least one pattern of the set matches the address.
pub open spec fn spec_matches_any(
    address: Seq<char>,
    patterns: Seq<String>,
    case_sensitive: bool,
) -> bool {
    exists|i: int|
        0 <= i < patterns.len() && #[trigger] spec_matches(address, patterns[i]@, case_sensitive)
}

/// Every pattern of the set compiles.
pub open spec fn patterns_ok(patterns: Seq<String>, case_sensitive: bool) -> bool {
    forall|i: int| 0 <= i < patterns.len() ==> #[trigger] pattern_ok(patterns[i]@, case_sensitive)
}

/// Why a keypair could not be generated or encoded. All of these are fatal
/// to a search: none is retried.
#[derive(Clone, Copy, PartialEq, Eq, Structural, Debug)]
pub enum AddressError {
    /// The system entropy source failed.
    Entropy,
    /// The random bytes were not a valid secp256k1 secret scalar.
    InvalidSecret,
    /// A segwit address was requested for an uncompressed public key.
    UncompressedSegwit,
}

/// One generated keypair with its derived address, all in their encoded
/// textual forms. Created as a unit and never mutated.
#[derive(Clone, Debug)]
pub struct BitcoinAddress {
    /// The private key in wallet-import format.
    pub private_key: String,
    /// The public key in hex.
    pub public_key: String,
    /// The encoded address.
    pub address: String,
}

impl BitcoinAddress {
    /// All three fields are derived from the one secret `secret` with the
    /// compressedness flag `compressed`, and the address encodes the stored
    /// public key in the requested variant.
    pub open spec fn derived_from(self, secret: Seq<u8>, compressed: bool, bech32: bool) -> bool {
        &&& secret_valid(secret)
        &&& self.private_key@ == wif_of(secret, compressed)
        &&& self.public_key@ == pubkey_of(secret, compressed)
        &&& pubkey_parses(self.public_key@)
        &&& (pubkey_compressed(self.public_key@) <==> compressed)
        &&& self.address@ == address_of(self.public_key@, bech32)
    }

    /// Builds the keypair for a given secret. Succeeds exactly when the
    /// secret is a valid scalar and the requested variant is encodable;
    /// a segwit address over an uncompressed key is rejected before any
    /// derivation.
    pub fn from_secret(secret: &Vec<u8>, compressed: bool, bech32: bool) -> (r: Result<
        BitcoinAddress,
        AddressError,
    >)
        ensures
            r is Ok <==> secret_valid(secret@) && (bech32 ==> compressed),
            r matches Ok(b) ==> b.derived_from(secret@, compressed, bech32),
            bech32 && !compressed ==> r == Err::<BitcoinAddress, AddressError>(
                AddressError::UncompressedSegwit,
            ),
            !(bech32 && !compressed) && !secret_valid(secret@) ==> r == Err::<
                BitcoinAddress,
                AddressError,
            >(AddressError::InvalidSecret),
    {
        if bech32 && !compressed {
            return Err(AddressError::UncompressedSegwit);
        }
        let keys = match derive_keys(secret, compressed) {
            Some(k) => k,
            None => {
                return Err(AddressError::InvalidSecret);
            },
        };
        let (private_key, public_key) = keys;
        let address = match encode_address(public_key.as_str(), bech32) {
            Some(a) => a,
            None => {
                // never taken: a freshly derived public key re-encodes in
                // any variant the compressedness admits
                return Err(AddressError::InvalidSecret);
            },
        };
        Ok(BitcoinAddress { private_key, public_key, address })
    }

    /// Generates one keypair from fresh entropy. The entropy source decides
    /// success, so only this much is owed: a returned keypair is derived
    /// from one 32-byte secret, and an unencodable configuration is
    /// rejected up front, before any entropy is drawn — and that rejection
    /// comes exactly on such a configuration.
    pub fn new(compressed: bool, bech32: bool) -> (r: Result<BitcoinAddress, AddressError>)
        ensures
            r matches Ok(b) ==> exists|s: Seq<u8>|
                s.len() == 32 && #[trigger] b.derived_from(s, compressed, bech32),
            bech32 && !compressed <==> r == Err::<BitcoinAddress, AddressError>(
                AddressError::UncompressedSegwit,
            ),
    {
        if bech32 && !compressed {
            return Err(AddressError::UncompressedSegwit);
        }
        let secret = match random_bytes_32() {
            Some(v) => v,
            None => {
                return Err(AddressError::Entropy);
            },
        };
        Self::from_secret(&secret, compressed, bech32)
    }

    /// Tests the address against one pattern: containment of the compiled
    /// pattern in the encoded address, with both the pattern and the
    /// address lowercased first when `is_case_sensitive` is false.
    pub fn matches_with(&self, regex_str: &str, is_case_sensitive: bool) -> (r: bool)
        requires
            pattern_ok(regex_str@, is_case_sensitive),
        ensures
            r == spec_matches(self.address@, regex_str@, is_case_sensitive),
    {
        if is_case_sensitive {
            regex_find(regex_str, self.address.as_str())
        } else {
            let lowered_pattern = lowercase(regex_str);
            let lowered_address = lowercase(self.address.as_str());
            regex_find(lowered_pattern.as_str(), lowered_address.as_str())
        }
    }

    /// Tests the address against a pattern set, true exactly when at least
    /// one pattern matches; an empty set matches nothing. Stops at the
    /// first match.
    pub fn matches_with_any(&self, regexes: &[String], is_case_sensitive: bool) -> (r: bool)
        requires
            patterns_ok(regexes@, is_case_sensitive),
        ensures
            r == spec_matches_any(self.address@, regexes@, is_case_sensitive),
    {
        let mut i: usize = 0;
        while i < regexes.len()
            invariant
                0 <= i <= regexes@.len(),
                patterns_ok(regexes@, is_case_sensitive),
                forall|j: int|
                    0 <= j < i ==> !#[trigger] spec_matches(
                        self.address@,
                        regexes@[j]@,
                        is_case_sensitive,
                    ),
            decreases regexes@.len() - i,
        {
            if self.matches_with(regexes[i].as_str(), is_case_sensitive) {
                return true;
            }
            i += 1;
        }
        false
    }

    /// As [`Self::matches_with`], but checks the pattern first and returns
    /// `None` exactly when it does not compile.
    pub fn try_matches_with(&self, regex_str: &str, is_case_sensitive: bool) -> (r: Option<bool>)
        ensures
            r is Some <==> pattern_ok(regex_str@, is_case_sensitive),
            r matches Some(m) ==> m == spec_matches(self.address@, regex_str@, is_case_sensitive),
    {
        if pattern_is_valid(regex_str, is_case_sensitive) {
            Some(self.matches_with(regex_str, is_case_sensitive))
        } else {
            None
        }
    }

    /// As [`Self::matches_with_any`], but checks every pattern first and
    /// returns `None` exactly when some pattern does not compile.
    pub fn try_matches_with_any(&self, regexes: &[String], is_case_sensitive: bool) -> (r: Option<
        bool,
    >)
        ensures
            r is Some <==> patterns_ok(regexes@, is_case_sensitive),
            r matches Some(m) ==> m == spec_matches_any(self.address@, regexes@, is_case_sensitive),
    {
        if patterns_are_valid(regexes, is_case_sensitive) {
            Some(self.matches_with_any(regexes, is_case_sensitive))
        } else {
            None
        }
    }

    /// Re-derives the address from the stored public key alone through the
    /// external encoder. For a keypair derived from one secret this is owed
    /// to succeed and to return exactly the stored address.
    pub fn rederived_address(&self, bech32: bool) -> (r: Option<String>)
        ensures
            r is Some <==> pubkey_parses(self.public_key@) && (bech32 ==> pubkey_compressed(
                self.public_key@,
            )),
            r matches Some(a) ==> a@ == address_of(self.public_key@, bech32),
    {
        encode_address(self.public_key.as_str(), bech32)
    }
}

/// Whether one pattern compiles, after the lowercasing a case-insensitive
/// comparison applies to it. A pattern that fails this check is a fatal
/// configuration error, surfaced before any worker starts.
pub fn pattern_is_valid(regex_str: &str, is_case_sensitive: bool) -> (r: bool)
    ensures
        r == pattern_ok(regex_str@, is_case_sensitive),
{
    if is_case_sensitive {
        regex_is_valid(regex_str)
    } else {
        let lowered = lowercase(regex_str);
        regex_is_valid(lowered.as_str())
    }
}

/// Whether every pattern of the set compiles.
pub fn patterns_are_valid(regexes: &[String], is_case_sensitive: bool) -> (r: bool)
    ensures
        r == patterns_ok(regexes@, is_case_sensitive),
{
    let mut i: usize = 0;
    while i < regexes.len()
        invariant
            0 <= i <= regexes@.len(),
            forall|j: int| 0 <= j < i ==> #[trigger] pattern_ok(regexes@[j]@, is_case_sensitive),
        decreases regexes@.len() - i,
    {
        if !pattern_is_valid(regexes[i].as_str(), is_case_sensitive) {
            assert(!pattern_ok(regexes@[i as int]@, is_case_sensitive));
            return false;
        }
        i += 1;
    }
    true
}

/// Determinism of matching: what `matches_with` returns is a pure function
/// of the address, the pattern and the case flag, so any two results
/// computed from the same inputs are equal.
pub proof fn lemma_matches_deterministic(
    address: Seq<char>,
    pattern: Seq<char>,
    case_sensitive: bool,
    r1: bool,
    r2: bool,
)
    requires
        r1 == spec_matches(address, pattern, case_sensitive),
        r2 == spec_matches(address, pattern, case_sensitive),
    ensures
        r1 == r2,
{
}

/// Case folding: matching case-insensitively is the same as lowercasing
/// both the address and the pattern and matching case-sensitively.
pub proof fn lemma_case_folding(address: Seq<char>, pattern: Seq<char>)
    ensures
        spec_matches(address, pattern, false) == spec_matches(
            lower_of(address),
            lower_of(pattern),
            true,
        ),
{
}

/// Key/address consistency: for a keypair derived from one secret, the
/// address encoding applied to the stored public key yields exactly the
/// stored address, and re-deriving through the encoder is owed to succeed.
pub proof fn lemma_key_address_consistency(
    b: BitcoinAddress,
    secret: Seq<u8>,
    compressed: bool,
    bech32: bool,
)
    requires
        b.derived_from(secret, compressed, bech32),
        bech32 ==> compressed,
    ensures
        b.address@ == address_of(b.public_key@, bech32),
        pubkey_parses(b.public_key@),
        bech32 ==> pubkey_compressed(b.public_key@),
{
}

} // verus!
