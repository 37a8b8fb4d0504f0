//! The owner's viewing key: the secret that opens the pool's balance queries.
//!
//! A key is never kept as it was given. What is kept is the base64 text of
//! the SHA-256 digest of the base64 text of the key. Base64 comes from the
//! `base64` crate and the digest from `sha2`; the two functions below that are
//! marked `external_body` call them and give their results a name.

use crate::error::ContractError;
use crate::msg::ViewerInfo;
use sha2::{Digest, Sha256};
use vstd::prelude::*;
use vstd::utf8::encode_utf8;

verus! {

/// The base64 text of the bytes, as `base64::encode` writes it.
pub uninterp spec fn base64_of(input: Seq<u8>) -> Seq<char>;

/// The SHA-256 digest of the bytes, as `sha2::Sha256::digest` computes it.
pub uninterp spec fn sha256_of(input: Seq<u8>) -> Seq<u8>;

/// Calls `base64::encode`. The contract gives the text a name and claims
/// that it depends on the bytes alone.
#[verifier::external_body]
fn base64_encode(input: &[u8]) -> (text: String)
    ensures
        text@ == base64_of(input@),
{
    base64::encode(input)
}

/// Calls `sha2::Sha256::digest`. The contract gives the digest a name and
/// claims that it depends on the bytes alone.
#[verifier::external_body]
fn sha_256(data: &[u8]) -> (digest: Vec<u8>)
    ensures
        digest@ == sha256_of(data@),
{
    Sha256::digest(data).to_vec()
}

/// The key that is kept for the key `entropy` that was given.
pub open spec fn derived_key(entropy: Seq<char>) -> Seq<char> {
    base64_of(sha256_of(encode_utf8(base64_of(encode_utf8(entropy)))))
}

/// Derives the key that is kept from the key that was given.
pub fn viewing_key(entropy: &String) -> (key: String)
    ensures
        key@ == derived_key(entropy@),
{
    let text = base64_encode(entropy.as_str().as_bytes());
    let digest = sha_256(text.as_str().as_bytes());
    base64_encode(digest.as_slice())
}

/// Whether the address and the derived key are those that `admin` holds.
pub open spec fn matches_kept(
    admin: Option<ViewerInfo>,
    address: Seq<char>,
    derived: Seq<char>,
) -> bool {
    admin matches Some(admin) && derived == admin.viewing_key@ && address == admin.address@
}

/// Whether `viewer` shows the key that `admin` holds, under the same address.
pub open spec fn opens(admin: Option<ViewerInfo>, viewer: ViewerInfo) -> bool {
    matches_kept(admin, viewer.address@, derived_key(viewer.viewing_key@))
}

/// Tells whether the address and the derived key are those that are kept in
/// `admin_key`. Where no key has been set, nothing matches.
pub fn key_matches(admin_key: &Option<ViewerInfo>, address: &String, derived: &String) -> (r: bool)
    ensures
        r == matches_kept(*admin_key, address@, derived@),
{
    match admin_key {
        Some(admin) => *derived == admin.viewing_key && *address == admin.address,
        None => false,
    }
}

/// Sets the viewing key of the pool's owner. Only the owner may. What is kept
/// in `admin_key` is the owner's address and the key derived from `key`.
pub fn try_set_viewing_key(
    owner: &String,
    admin_key: &mut Option<ViewerInfo>,
    sender: &String,
    key: String,
) -> (r: Result<(), ContractError>)
    ensures
        r is Ok <==> sender@ == owner@,
        r is Ok ==> *final(admin_key) is Some && final(admin_key)->Some_0.address == *sender
            && final(admin_key)->Some_0.viewing_key@ == derived_key(key@),
        r matches Err(e) ==> e == ContractError::Unauthorized && *final(admin_key) == *old(
            admin_key
        ),
{
    if *sender != *owner {
        return Err(ContractError::Unauthorized);
    }
    let kept = ViewerInfo { address: sender.clone(), viewing_key: viewing_key(&key) };
    *admin_key = Some(kept);
    Ok(())
}

/// Checks that `viewer` shows the owner's viewing key under the owner's
/// address. Refuses with `Unauthorized` where it does not, or where no key
/// has been set.
pub fn check_admin_key(admin_key: &Option<ViewerInfo>, viewer: &ViewerInfo) -> (r: Result<
    (),
    ContractError,
>)
    ensures
        r is Ok <==> opens(*admin_key, *viewer),
        r matches Err(e) ==> e == ContractError::Unauthorized,
{
    let shown = viewing_key(&viewer.viewing_key);
    if key_matches(admin_key, &viewer.address, &shown) {
        Ok(())
    } else {
        Err(ContractError::Unauthorized)
    }
}

} // verus!
