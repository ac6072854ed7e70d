//! Keys and signatures: decoding and the chain's lists of reserved keys.
use vstd::prelude::*;
use std::str::FromStr;
use solana_program::pubkey::{ParsePubkeyError, Pubkey};
use solana_signature::{ParseSignatureError, Signature};

verus! {

/// The 32 bytes that a base-58 public-key string decodes to, if it decodes.
pub uninterp spec fn decoded_pubkey(s: Seq<char>) -> Option<Seq<u8>>;

/// Whether a key is a sysvar or a built-in program of the chain.
pub uninterp spec fn reserved_key(k: Seq<u8>) -> bool;

/// The 64 bytes that a base-58 transaction signature decodes to, if it decodes.
pub uninterp spec fn decoded_signature(s: Seq<char>) -> Option<Seq<u8>>;

/// The key of the upgradeable program loader,
/// `BPFLoaderUpgradeab1e11111111111111111111111`, as bytes.
pub const UPGRADEABLE_LOADER_ID: [u8; 32] = [2, 168, 246, 145, 78, 136, 161, 176, 226, 16, 21, 62, 247, 99, 174, 43, 0, 194, 185, 61, 22, 193, 36, 210, 192, 83, 122, 16, 4, 128, 0, 0];

/// Whether a key is the upgradeable program loader.
pub open spec fn upgradeable_loader_key(k: Seq<u8>) -> bool {
    k == UPGRADEABLE_LOADER_ID@
}

/// Relies on `Pubkey::from_str`: decodes a base-58 key into its 32 bytes.
#[verifier::external_body]
pub(crate) fn decode_pubkey(s: &str) -> (r: Result<[u8; 32], ParsePubkeyError>)
    ensures
        match r {
            Ok(k) => decoded_pubkey(s@) == Some(k@),
            Err(_) => decoded_pubkey(s@) is None,
        },
{
    match Pubkey::from_str(s) {
        Ok(k) => Ok(k.to_bytes()),
        Err(e) => Err(e),
    }
}

/// Relies on `message::legacy::is_builtin_key_or_sysvar`: whether the key is
/// a sysvar or one of the chain's built-in programs.
#[verifier::external_body]
#[allow(deprecated)]
pub(crate) fn is_reserved_key(k: &[u8; 32]) -> (r: bool)
    ensures
        r == reserved_key(k@),
{
    solana_program::message::legacy::is_builtin_key_or_sysvar(&Pubkey::new_from_array(*k))
}

/// Whether the key is the upgradeable loader.
pub(crate) fn is_upgradeable_loader(k: &[u8; 32]) -> (r: bool)
    ensures
        r == upgradeable_loader_key(k@),
{
    let id = UPGRADEABLE_LOADER_ID;
    let mut i: usize = 0;
    while i < 32
        invariant
            i <= 32,
            id@ == UPGRADEABLE_LOADER_ID@,
            k@.len() == 32 && id@.len() == 32,
            forall|j: int| 0 <= j < i ==> k@[j] == id@[j],
        decreases 32 - i,
    {
        if k[i] != id[i] {
            return false;
        }
        i = i + 1;
    }
    assert(k@ =~= id@);
    true
}

/// Relies on `Signature::from_str`: decodes a base-58 transaction signature
/// into its 64 bytes.
#[verifier::external_body]
pub(crate) fn parse_signature(s: &str) -> (r: Result<[u8; 64], ParseSignatureError>)
    ensures
        match r {
            Ok(b) => decoded_signature(s@) == Some(b@),
            Err(_) => decoded_signature(s@) is None,
        },
{
    match Signature::from_str(s) {
        Ok(sig) => Ok(sig.into()),
        Err(e) => Err(e),
    }
}

} // verus!
