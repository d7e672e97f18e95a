//! Trusted calls into the hashing crates (bcrypt, sha2, password-hash,
//! scrypt, pbkdf2, base64, rand) and into the parts of std that vstd does not
//! specify. Each function here makes one call and converts its arguments and
//! result; its contract is believed, not proved.
use vstd::prelude::*;
use vstd::utf8::{decode_utf8, valid_utf8};
use base64::Engine as _;
use pbkdf2::password_hash::{PasswordHasher, PasswordVerifier};
use sha2::Digest;
use crate::util::two_digits;

verus! {

#[verifier::external_type_specification]
#[verifier::external_body]
pub struct ExBcryptError(bcrypt::BcryptError);

#[verifier::external_type_specification]
#[verifier::external_body]
pub struct ExSaltString(pbkdf2::password_hash::SaltString);

#[verifier::external_type_specification]
#[verifier::external_body]
pub struct ExUtf8Error(core::str::Utf8Error);

/// Whether `prefix` begins `s`.
pub open spec fn starts_with(s: Seq<char>, prefix: Seq<char>) -> bool {
    prefix.len() <= s.len() && s.subrange(0, prefix.len() as int) == prefix
}

/// What `bcrypt::verify` gives for `password` and `hash`: `Some` of its
/// answer, or `None` where it fails.
pub uninterp spec fn bcrypt_verify_outcome(password: Seq<u8>, hash: Seq<char>) -> Option<bool>;

/// What holds of every hash that `bcrypt::hash` returns for `password` at
/// `cost`: 60 characters, starting with `$2b$`, the cost in two digits and
/// `$`, and accepted by `bcrypt::verify` for the same password.
pub open spec fn bcrypt_hash_valid(password: Seq<u8>, cost: u32, hash: Seq<char>) -> bool {
    &&& hash.len() == 60
    &&& starts_with(hash, "$2b$"@)
    &&& hash.subrange(4, 6) == two_digits(cost as int)
    &&& hash[6] == '$'
    &&& bcrypt_verify_outcome(password, hash) == Some(true)
}

/// Calls `bcrypt::hash`. It fails on a cost outside 4..=31 (and when the
/// system gives no random salt); a hash it returns is 60 characters long,
/// written as `$2b$`, the cost in two digits, `$`, then the salt and digest,
/// and `bcrypt::verify` accepts the same password for it. The salt is
/// random, so nothing more is said of the hash.
#[verifier::external_body]
pub(crate) fn bcrypt_hash(password: &[u8], cost: u32) -> (res: Result<String, bcrypt::BcryptError>)
    ensures
        !(4 <= cost <= 31) ==> res is Err,
        res matches Ok(h) ==> bcrypt_hash_valid(password@, cost, h@),
{
    bcrypt::hash(password, cost)
}

/// Calls `bcrypt::verify`: a function of the password and the hash alone. A
/// hash that is not 60 characters long is refused.
#[verifier::external_body]
pub(crate) fn bcrypt_verify(password: &[u8], hash: &str) -> (res: Result<bool, bcrypt::BcryptError>)
    ensures
        match res {
            Ok(b) => bcrypt_verify_outcome(password@, hash@) == Some(b),
            Err(_) => bcrypt_verify_outcome(password@, hash@) is None,
        },
        hash@.len() != 60 ==> res is Err,
{
    bcrypt::verify(password, hash)
}

/// The SHA-256 digest of `data`.
pub uninterp spec fn sha256_digest(data: Seq<u8>) -> Seq<u8>;

/// Calls `sha2::Sha256::digest`: 32 bytes, a function of the data alone.
#[verifier::external_body]
pub(crate) fn sha256(data: &[u8]) -> (res: Vec<u8>)
    ensures
        res@ == sha256_digest(data@),
        res@.len() == 32,
{
    sha2::Sha256::digest(data).to_vec()
}

/// A salt made by `SaltString::generate`: the B64 text of 16 random bytes.
/// Its field is private and [`generate_salt`] is its only constructor, so
/// every value of this type is such a salt.
pub struct GeneratedSalt {
    salt: pbkdf2::password_hash::SaltString,
}

/// Calls `SaltString::generate` with the operating system's random number
/// generator. The salt is random: nothing is said of its bytes.
#[verifier::external_body]
pub(crate) fn generate_salt() -> (res: GeneratedSalt) {
    GeneratedSalt {
        salt: pbkdf2::password_hash::SaltString::generate(
            &mut pbkdf2::password_hash::rand_core::OsRng,
        ),
    }
}

/// The message of the error `PasswordHash::new` gives for `hash`, or `None`
/// where it parses.
pub uninterp spec fn phc_parse_failure(hash: Seq<char>) -> Option<Seq<char>>;

/// Calls `PasswordHash::new` and gives the text of its error, if any: a
/// function of the hash alone.
#[verifier::external_body]
pub(crate) fn phc_parse_error(hash: &str) -> (res: Option<String>)
    ensures
        match res {
            Some(m) => phc_parse_failure(hash@) == Some(m@),
            None => phc_parse_failure(hash@) is None,
        },
{
    match pbkdf2::password_hash::PasswordHash::new(hash) {
        Ok(_) => None,
        Err(e) => Some(e.to_string()),
    }
}

/// Whether scrypt accepts `password` for the PHC string `hash`.
pub uninterp spec fn scrypt_phc_verifies(password: Seq<u8>, hash: Seq<char>) -> bool;

/// Whether PBKDF2 accepts `password` for the PHC string `hash`.
pub uninterp spec fn pbkdf2_phc_verifies(password: Seq<u8>, hash: Seq<char>) -> bool;

/// Parses `hash` with `PasswordHash::new` (which the caller has seen
/// succeed) and calls `Scrypt.verify_password` on it: a function of the
/// password and the hash alone.
#[verifier::external_body]
pub(crate) fn scrypt_verify(password: &[u8], hash: &str) -> (res: bool)
    requires
        phc_parse_failure(hash@) is None,
    ensures
        res == scrypt_phc_verifies(password@, hash@),
{
    match pbkdf2::password_hash::PasswordHash::new(hash) {
        Ok(parsed) => scrypt::Scrypt.verify_password(password, &parsed).is_ok(),
        Err(_) => false,
    }
}

/// Parses `hash` with `PasswordHash::new` (which the caller has seen
/// succeed) and calls `Pbkdf2.verify_password` on it: a function of the
/// password and the hash alone.
#[verifier::external_body]
pub(crate) fn pbkdf2_verify(password: &[u8], hash: &str) -> (res: bool)
    requires
        phc_parse_failure(hash@) is None,
    ensures
        res == pbkdf2_phc_verifies(password@, hash@),
{
    match pbkdf2::password_hash::PasswordHash::new(hash) {
        Ok(parsed) => pbkdf2::Pbkdf2.verify_password(password, &parsed).is_ok(),
        Err(_) => false,
    }
}

/// What holds of every PHC string that scrypt hashing returns for
/// `password`: it names scrypt, holds no '.', parses, and verifies.
pub open spec fn scrypt_hash_valid(password: Seq<u8>, hash: Seq<char>) -> bool {
    &&& starts_with(hash, "$scrypt$"@)
    &&& forall|i: int| 0 <= i < hash.len() ==> hash[i] != '.'
    &&& phc_parse_failure(hash) is None
    &&& scrypt_phc_verifies(password, hash)
}

/// What holds of every PHC string that PBKDF2-SHA512 hashing returns for
/// `password`: it names pbkdf2-sha512, parses, and verifies.
pub open spec fn pbkdf2_hash_valid(password: Seq<u8>, hash: Seq<char>) -> bool {
    &&& starts_with(hash, "$pbkdf2-sha512$"@)
    &&& phc_parse_failure(hash) is None
    &&& pbkdf2_phc_verifies(password, hash)
}

/// Calls `Scrypt.hash_password` with the default parameters and formats the
/// PHC string; an error is given as its text. With a generated salt (16
/// bytes, which decode) and the default parameters (32 output bytes) it
/// succeeds. The salt is random, so only what holds of every hash is said.
#[verifier::external_body]
pub(crate) fn scrypt_hash(password: &[u8], salt: &GeneratedSalt) -> (res: Result<String, String>)
    ensures
        res is Ok,
        res matches Ok(h) ==> scrypt_hash_valid(password@, h@),
{
    match scrypt::Scrypt.hash_password(password, &salt.salt) {
        Ok(h) => Ok(h.to_string()),
        Err(e) => Err(e.to_string()),
    }
}

/// Calls `Pbkdf2.hash_password_customized` with the PBKDF2-SHA512 algorithm
/// and the default parameters and formats the PHC string; an error is given
/// as its text. With a generated salt (16 bytes, which decode), a known
/// algorithm, no version and the default parameters (32 output bytes) it
/// succeeds. The salt is random, so only what holds of every hash is said.
#[verifier::external_body]
pub(crate) fn pbkdf2_sha512_hash(password: &[u8], salt: &GeneratedSalt) -> (res: Result<String, String>)
    ensures
        res is Ok,
        res matches Ok(h) ==> pbkdf2_hash_valid(password@, h@),
{
    match pbkdf2::Pbkdf2.hash_password_customized(
        password,
        Some(pbkdf2::Algorithm::Pbkdf2Sha512.ident()),
        None,
        pbkdf2::Params::default(),
        &salt.salt,
    ) {
        Ok(h) => Ok(h.to_string()),
        Err(e) => Err(e.to_string()),
    }
}


/// The bytes that standard base64 without padding decodes `data` to, if it
/// is valid.
pub uninterp spec fn base64_std_nopad_decoded(data: Seq<u8>) -> Option<Seq<u8>>;

/// Calls `STANDARD_NO_PAD.decode`: a function of the data alone.
#[verifier::external_body]
pub(crate) fn base64_std_nopad_decode(data: &[u8]) -> (res: Option<Vec<u8>>)
    ensures
        match res {
            Some(v) => base64_std_nopad_decoded(data@) == Some(v@),
            None => base64_std_nopad_decoded(data@) is None,
        },
{
    base64::engine::general_purpose::STANDARD_NO_PAD.decode(data).ok()
}

/// The first `len` bytes of PBKDF2 with HMAC-SHA512 over `password` and
/// `salt`, with `rounds` rounds.
pub uninterp spec fn pbkdf2_hmac_sha512_bytes(
    password: Seq<u8>,
    salt: Seq<u8>,
    rounds: u32,
    len: nat,
) -> Seq<u8>;

/// Calls `pbkdf2::pbkdf2_hmac::<Sha512>` on a buffer of `len` zero bytes: a
/// function of its arguments alone, `len` bytes long.
#[verifier::external_body]
pub(crate) fn pbkdf2_hmac_sha512(password: &[u8], salt: &[u8], rounds: u32, len: usize) -> (res: Vec<u8>)
    ensures
        res@ == pbkdf2_hmac_sha512_bytes(password@, salt@, rounds, len as nat),
        res@.len() == len,
{
    let mut out = vec![0u8; len];
    pbkdf2::pbkdf2_hmac::<sha2::Sha512>(password, salt, rounds, &mut out);
    out
}

/// Calls `std::str::from_utf8` and copies the text: it succeeds exactly on
/// valid UTF-8, and then holds the characters the bytes encode.
#[verifier::external_body]
pub(crate) fn utf8_decode(bytes: &[u8]) -> (res: Result<String, core::str::Utf8Error>)
    ensures
        res is Ok <==> valid_utf8(bytes@),
        res matches Ok(s) ==> s@ == decode_utf8(bytes@),
{
    match std::str::from_utf8(bytes) {
        Ok(s) => Ok(s.to_string()),
        Err(e) => Err(e),
    }
}

/// Calls `rand::random::<[u8; 16]>`: 16 random bytes, of which nothing more
/// is said.
#[verifier::external_body]
pub(crate) fn random_bytes_16() -> (res: Vec<u8>)
    ensures
        res@.len() == 16,
{
    rand::random::<[u8; 16]>().to_vec()
}

/// Calls `String::push`.
#[verifier::external_body]
pub(crate) fn string_push(s: &mut String, c: char)
    ensures
        final(s)@ == old(s)@.push(c),
{
    s.push(c)
}

} // verus!
