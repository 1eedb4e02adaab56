//! Cryptographic primitives and randomness.
//!
//! Every function of an outside crate is called through a trusted wrapper
//! whose contract names its result; the password-hashing pipeline composed
//! from them is verified.

use vstd::prelude::*;

use magic_crypt::MagicCrypt256;
use magic_crypt::MagicCryptTrait;
use rand::Rng;
use sha2::Digest;

verus! {

use vstd::string::StrSliceExecFns;
use vstd::string::StringSliceAdditionalSpecFns;
use vstd::utf8::decode_utf8;
use vstd::utf8::encode_utf8;
use vstd::utf8::is_ascii_chars;
use vstd::utf8::valid_utf8;

/// The bcrypt work factor used for account password hashes.
pub const BCRYPT_COST: u32 = 10;

/// The characters that random tokens, salts and identifiers are drawn from.
pub open spec fn is_token_char(c: char) -> bool {
    ||| 'a' <= c <= 'z'
    ||| 'A' <= c <= 'Z'
    ||| '0' <= c <= '9'
}

/// An alphanumeric string of exactly `n` characters.
pub open spec fn is_token(s: Seq<char>, n: int) -> bool {
    s.len() == n && (forall|i: int| 0 <= i < s.len() ==> is_token_char(#[trigger] s[i]))
}

pub proof fn lemma_token_is_ascii(s: Seq<char>, n: int)
    requires
        is_token(s, n),
    ensures
        is_ascii_chars(s),
{
    assert forall|i: int| 0 <= i < s.len() implies '\0' <= #[trigger] s[i] <= '\u{7f}' by {
        assert(is_token_char(s[i]));
    }
}

/// The SHA-512/256 digest of a byte sequence.
pub uninterp spec fn sha512_256_of(data: Seq<u8>) -> Seq<u8>;

/// The standard base64 encoding of a byte sequence.
pub uninterp spec fn b64_of(data: Seq<u8>) -> Seq<char>;

/// The bytes a standard base64 string decodes to, or `None` when the string
/// is not valid base64.
pub uninterp spec fn b64_decode_of(s: Seq<char>) -> Option<Seq<u8>>;

/// The formatted bcrypt hash (version `2y`) of a password with the given
/// cost and 16-byte salt.
pub uninterp spec fn bcrypt_of(password: Seq<u8>, cost: u32, salt: Seq<u8>) -> Seq<char>;

/// The base64 ciphertext of a plaintext under an AES-256 cipher keyed from
/// `key`.
pub uninterp spec fn mc_encrypt_of(key: Seq<char>, plain: Seq<char>) -> Seq<char>;

/// The plaintext a base64 ciphertext decrypts to under the cipher keyed from
/// `key`, or `None` when decryption fails.
pub uninterp spec fn mc_decrypt_of(key: Seq<char>, cipher: Seq<char>) -> Option<Seq<char>>;

/// Relies on sha2's `Sha512_256`: the digest is 32 bytes and depends on the
/// input bytes alone.
#[verifier::external_body]
fn sha512_256_digest(data: &Vec<u8>) -> (r: Vec<u8>)
    ensures
        r@ == sha512_256_of(data@),
        r@.len() == 32,
{
    sha2::Sha512_256::digest(data).to_vec()
}

/// Relies on base64's `encode` (standard alphabet, padded): the encoding
/// depends on the input bytes alone, and an empty input encodes to an empty
/// string.
#[verifier::external_body]
fn b64_encode(data: &Vec<u8>) -> (r: String)
    ensures
        r@ == b64_of(data@),
        data@.len() == 0 ==> r@.len() == 0,
{
    base64::encode(data)
}

/// Relies on base64's `decode` (standard alphabet, padded): whether a string
/// decodes, and to which bytes, depends on the string alone, and `decode`
/// inverts `encode`.
#[verifier::external_body]
fn b64_decode(s: &str) -> (r: Option<Vec<u8>>)
    ensures
        match r {
            Some(v) => b64_decode_of(s@) == Some(v@),
            None => b64_decode_of(s@) is None,
        },
{
    match base64::decode(s) {
        Ok(v) => Some(v),
        Err(_) => None,
    }
}

/// Relies on `String::from_utf8`: it succeeds exactly on valid UTF-8 input
/// and returns the string those bytes spell.
#[verifier::external_body]
fn utf8_to_string(bytes: Vec<u8>) -> (r: Option<String>)
    ensures
        match r {
            Some(s) => valid_utf8(bytes@) && s@ == decode_utf8(bytes@),
            None => !valid_utf8(bytes@),
        },
{
    match String::from_utf8(bytes) {
        Ok(s) => Some(s),
        Err(_) => None,
    }
}

/// Relies on bcrypt's `hash_with_salt` and `HashParts::format_for_version`:
/// with a cost between 4 and 31 and a 16-byte salt the hash never fails
/// (truncation is silent), and the formatted `2y` hash depends on the
/// password bytes, cost and salt alone.
#[verifier::external_body]
fn bcrypt_hash(password: &str, cost: u32, salt: &Vec<u8>) -> (r: String)
    requires
        4 <= cost <= 31,
        salt@.len() == 16,
    ensures
        r@ == bcrypt_of(password.spec_bytes(), cost, salt@),
{
    let mut arr = [0u8; 16];
    arr.copy_from_slice(salt);
    let parts = bcrypt::hash_with_salt(password, cost, arr)
        .expect("bcrypt accepts every password at a valid cost");
    parts.format_for_version(bcrypt::Version::TwoY)
}

/// Relies on magic-crypt's `MagicCrypt256` (AES-256, key derived from the
/// pepper, default IV): encryption is deterministic in key and plaintext,
/// and `decrypt_base64_to_string` inverts it.
#[verifier::external_body]
pub(crate) fn mc_encrypt(key: &str, plain: &str) -> (r: String)
    ensures
        r@ == mc_encrypt_of(key@, plain@),
        mc_decrypt_of(key@, r@) == Some(plain@),
{
    let mc = MagicCrypt256::new(key, None::<&str>);
    mc.encrypt_str_to_base64(plain)
}

/// Relies on magic-crypt's `decrypt_base64_to_string`: whether a ciphertext
/// decrypts, and to which plaintext, depends on the key and ciphertext alone.
#[verifier::external_body]
pub(crate) fn mc_decrypt(key: &str, cipher: &str) -> (r: Option<String>)
    ensures
        match r {
            Some(p) => mc_decrypt_of(key@, cipher@) == Some(p@),
            None => mc_decrypt_of(key@, cipher@) is None,
        },
{
    let mc = MagicCrypt256::new(key, None::<&str>);
    match mc.decrypt_base64_to_string(cipher) {
        Ok(p) => Some(p),
        Err(_) => None,
    }
}

/// Relies on rand's `thread_rng` with the `Alphanumeric` distribution: every
/// sampled character is one of the 62 ASCII alphanumeric characters.
#[verifier::external_body]
pub(crate) fn random_alphanumeric(len: usize) -> (r: String)
    ensures
        is_token(r@, len as int),
{
    rand::thread_rng()
        .sample_iter(&rand::distributions::Alphanumeric)
        .take(len)
        .map(char::from)
        .collect()
}

/// The base64 of the fast digest over password, per-account salt and
/// process-wide pepper.
pub open spec fn password_digest_b64(password: Seq<char>, salt: Seq<char>, pepper: Seq<char>) -> Seq<
    char,
> {
    b64_of(sha512_256_of(encode_utf8(password) + encode_utf8(salt) + encode_utf8(pepper)))
}

/// The stored form of an account password: the fast salted, peppered digest,
/// base64-encoded, run through bcrypt with the same per-account salt.
pub open spec fn password_hash_of(password: Seq<char>, salt: Seq<char>, pepper: Seq<char>) -> Seq<
    char,
> {
    bcrypt_of(encode_utf8(password_digest_b64(password, salt, pepper)), BCRYPT_COST, encode_utf8(salt))
}

/// Computes the stored form of an account password. Verification is
/// deterministic: recomputing with the same salt and pepper yields the same
/// string.
pub fn hash_password(password: &str, salt: &str, pepper: &str) -> (r: String)
    requires
        salt@.len() == 16,
        is_ascii_chars(salt@),
    ensures
        r@ == password_hash_of(password@, salt@, pepper@),
{
    let mut data = password.as_bytes_vec();
    let mut salt_bytes = salt.as_bytes_vec();
    let mut pepper_bytes = pepper.as_bytes_vec();
    proof {
        vstd::utf8::is_ascii_chars_encode_utf8(salt@);
    }
    data.append(&mut salt_bytes);
    data.append(&mut pepper_bytes);
    let digest = sha512_256_digest(&data);
    let digest_b64 = b64_encode(&digest);
    let salt_raw = salt.as_bytes_vec();
    bcrypt_hash(digest_b64.as_str(), BCRYPT_COST, &salt_raw)
}

/// Decodes a base64 string to the UTF-8 text it carries.
pub open spec fn decoded_text(s: Seq<char>) -> Option<Seq<char>> {
    match b64_decode_of(s) {
        Some(bytes) => if valid_utf8(bytes) {
            Some(decode_utf8(bytes))
        } else {
            None
        },
        None => None,
    }
}

/// Decodes a base64-encoded UTF-8 string, as the authentication endpoints
/// receive their email and password fields.
pub fn decode_b64_text(s: &str) -> (r: Option<String>)
    ensures
        match r {
            Some(t) => decoded_text(s@) == Some(t@),
            None => decoded_text(s@) is None,
        },
{
    match b64_decode(s) {
        Some(bytes) => utf8_to_string(bytes),
        None => None,
    }
}

} // verus!
