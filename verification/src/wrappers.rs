//! Trusted calls into outside crates. Each function here makes one outside
//! call and converts its arguments and result; its contract is believed, not
//! proved.
use vstd::prelude::*;
use base64::Engine as _;

verus! {

/// The simple (32 lowercase hex digits) text of the name-based UUID (version
/// 5, SHA-1) of `name` in the namespace `namespace`.
pub uninterp spec fn uuid_v5_simple_text(namespace: u128, name: Seq<u8>) -> Seq<char>;

/// Calls `uuid::Uuid::new_v5` and formats the result with `simple()`: a
/// function of the namespace and the name alone, 32 characters long.
#[verifier::external_body]
pub(crate) fn uuid_v5_simple(namespace: u128, name: &[u8]) -> (res: String)
    ensures
        res@ == uuid_v5_simple_text(namespace, name@),
        res@.len() == 32,
{
    uuid::Uuid::new_v5(&uuid::Uuid::from_u128(namespace), name).simple().to_string()
}

} // verus!

verus! {

/// Calls `uuid::Uuid::new_v4` and returns its 16 bytes. The bytes are
/// random: nothing is promised of them.
#[verifier::external_body]
pub(crate) fn uuid_v4_bytes() -> (res: Vec<u8>)
    ensures
        res@.len() == 16,
{
    uuid::Uuid::new_v4().as_bytes().to_vec()
}

/// Calls `uuid::Uuid::new_v4` and formats it with `simple()`: random, 32
/// characters long; nothing more is said of it.
#[verifier::external_body]
pub(crate) fn uuid_v4_simple() -> (res: String)
    ensures
        res@.len() == 32,
{
    uuid::Uuid::new_v4().simple().to_string()
}

/// The URL-safe base64 text, without padding, of `data`.
pub uninterp spec fn base64_url_nopad(data: Seq<u8>) -> Seq<char>;

/// Calls `base64::engine::general_purpose::URL_SAFE_NO_PAD.encode`: a
/// function of the data alone; without padding, 16 bytes give 22
/// characters.
#[verifier::external_body]
pub(crate) fn base64_url_nopad_encode(data: &[u8]) -> (res: String)
    ensures
        res@ == base64_url_nopad(data@),
        data@.len() == 16 ==> res@.len() == 22,
{
    base64::engine::general_purpose::URL_SAFE_NO_PAD.encode(data)
}

} // verus!
