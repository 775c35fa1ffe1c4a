use vstd::prelude::*;
use crate::error::Error;
use crate::text::{bytes_to_hex_lower, spec_hex_lower};
use magic_crypt::MagicCryptTrait;
use md5::Digest;

verus! {

// ---------------------------------------------------------------------------
// Credential encryption
// ---------------------------------------------------------------------------

/// What AES-256 encryption under the process key produces for the given key
/// text and plaintext; the cipher derives its key material from the key text
/// alone, so the result is a function of these two arguments.
pub uninterp spec fn mc_encrypted(key: Seq<char>, data: Seq<char>) -> Seq<char>;

/// What decryption under the given key text returns for a blob: `None` where
/// the blob does not decrypt under that key.
pub uninterp spec fn mc_decrypted(key: Seq<char>, data: Seq<char>) -> Option<Seq<char>>;

/// Relies on magic_crypt::MagicCrypt256::encrypt_str_to_base64: AES-256-CBC
/// over a SHA-256-derived key and a fixed IV, base64-encoded — deterministic
/// in (key, data) — and inverted exactly by `decrypt_base64_to_string`
/// (CBC with Pkcs7 padding round-trips byte for byte).
#[verifier::external_body]
pub fn encrypt_data(data: &str, key: &str) -> (r: String)
    ensures
        r@ == mc_encrypted(key@, data@),
        mc_decrypted(key@, r@) == Some(data@),
{
    let mc = magic_crypt::MagicCrypt256::new(key, None::<&[u8]>);
    mc.encrypt_str_to_base64(data)
}

/// Relies on magic_crypt::MagicCrypt256::decrypt_base64_to_string: returns
/// the decrypted text where the blob decrypts under the key, and an error —
/// never garbage — where base64, padding or UTF-8 checking fails.
#[verifier::external_body]
pub fn decrypt_data(data: &str, key: &str) -> (r: Result<String, Error>)
    ensures
        (match r {
            Ok(p) => mc_decrypted(key@, data@) == Some(p@),
            Err(e) => e is Decrypt && mc_decrypted(key@, data@) is None,
        }),
{
    let mc = magic_crypt::MagicCrypt256::new(key, None::<&[u8]>);
    match mc.decrypt_base64_to_string(data) {
        Ok(s) => Ok(s),
        Err(_) => Err(Error::Decrypt),
    }
}

/// Law: a credential round trip is exact. Decrypting what `encrypt_data`
/// produced, under the key that encrypted it, returns the original text
/// byte for byte; this function performs the round trip and its contract
/// pins the result to the input.
pub fn credential_round_trip(data: &str, key: &str) -> (r: String)
    ensures
        r@ == data@,
{
    let blob = encrypt_data(data, key);
    match decrypt_data(blob.as_str(), key) {
        Ok(p) => p,
        Err(_) => {
            proof {
                assert(false);
            }
            String::new()
        },
    }
}

// ---------------------------------------------------------------------------
// Task-id hashing
// ---------------------------------------------------------------------------

/// The 16-byte MD5 digest of a text's UTF-8 bytes; a function of the text
/// alone.
pub uninterp spec fn md5_digest_of(data: Seq<char>) -> Seq<u8>;

/// Relies on md5::Md5 (the md-5 crate): computes the 16-byte MD5 digest of
/// the input, a pure function of the data.
#[verifier::external_body]
fn md5_digest(data: &str) -> (r: Vec<u8>)
    ensures
        r@ == md5_digest_of(data@),
        r@.len() == 16,
{
    let mut hasher = md5::Md5::new();
    hasher.update(data.as_bytes());
    hasher.finalize().as_slice().to_vec()
}

/// The lower-case hex form of a text's MD5 digest; task ids are made of this.
pub open spec fn spec_md5_hex(data: Seq<char>) -> Seq<char> {
    spec_hex_lower(md5_digest_of(data))
}

/// The hex-rendered MD5 digest of `data`: 32 lower-case hex digits.
pub fn md5_hash(data: &str) -> (r: String)
    ensures
        r@ == spec_md5_hex(data@),
        r@.len() == 32,
{
    let digest = md5_digest(data);
    let r = bytes_to_hex_lower(&digest);
    proof {
        lemma_hex_lower_len(digest@);
    }
    r
}

proof fn lemma_hex_lower_len(bytes: Seq<u8>)
    ensures
        spec_hex_lower(bytes).len() == 2 * bytes.len(),
    decreases bytes.len(),
{
    if bytes.len() > 0 {
        lemma_hex_lower_len(bytes.drop_first());
    }
}

} // verus!
