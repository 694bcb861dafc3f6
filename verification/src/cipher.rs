use vstd::prelude::*;
use magic_crypt::MagicCryptTrait;

verus! {

/// The base64 ciphertext that the AES-256 cipher produces for a plaintext
/// under a key. The cipher derives its key schedule and IV from the key
/// string alone, with no randomness, so the result is a function of the two
/// arguments.
pub uninterp spec fn cipher_of(data: Seq<char>, key: Seq<char>) -> Seq<char>;

/// The plaintext that AES-256 decryption recovers from base64 text under a
/// key, or `None` when the text is not well-formed ciphertext for that key.
pub uninterp spec fn plain_of(data: Seq<char>, key: Seq<char>) -> Option<Seq<char>>;

/// A character of the standard base64 alphabet, padding included.
pub open spec fn base64_char(c: char) -> bool {
    ('A' <= c && c <= 'Z') || ('a' <= c && c <= 'z') || ('0' <= c && c <= '9') || c == '+'
        || c == '/' || c == '='
}

/// Every character of the text lies in the base64 alphabet.
pub open spec fn base64_text(s: Seq<char>) -> bool {
    forall|i: int| 0 <= i < s.len() ==> base64_char(s[i])
}

/// The fixed text returned in place of a plaintext when decryption fails.
pub open spec fn sentinel() -> Seq<char> {
    "[ACCESS DENIED]"@
}

/// Relies on magic_crypt's `MagicCrypt256::new` and `encrypt_str_to_base64`:
/// AES-256-CBC keyed by the SHA-256 of the key string with a fixed IV, PKCS7
/// padding, standard base64 framing. It is deterministic in its two
/// arguments, and decrypting its result under the same key recovers the
/// plaintext.
#[verifier::external_body]
fn mc_encrypt(data: &str, key: &str) -> (r: String)
    ensures
        r@ == cipher_of(data@, key@),
        plain_of(r@, key@) == Some(data@),
{
    let mc = magic_crypt::MagicCrypt256::new(key, None::<&[u8]>);
    mc.encrypt_str_to_base64(data)
}

/// Relies on magic_crypt's `MagicCrypt256::new` and
/// `decrypt_base64_to_string`: it decodes standard base64, rejecting any
/// character outside that alphabet, then strips PKCS7 padding and checks
/// UTF-8; every failure comes back as an error.
#[verifier::external_body]
fn mc_decrypt(data: &str, key: &str) -> (r: Option<String>)
    ensures
        r is Some <==> plain_of(data@, key@) is Some,
        (r matches Some(p) ==> plain_of(data@, key@) == Some(p@)),
        !base64_text(data@) ==> r is None,
{
    let mc = magic_crypt::MagicCrypt256::new(key, None::<&[u8]>);
    match mc.decrypt_base64_to_string(data) {
        Ok(s) => Some(s),
        Err(_) => None,
    }
}

/// Encrypt text under a key: base64 ciphertext, the same on every call with
/// the same arguments, and decryptable under the same key.
pub fn encrypt(data: String, key: String) -> (r: String)
    ensures
        r@ == cipher_of(data@, key@),
        plain_of(r@, key@) == Some(data@),
{
    mc_encrypt(data.as_str(), key.as_str())
}

/// Decrypt base64 ciphertext under a key. On any failure — text outside the
/// base64 alphabet, a wrong key, mangled ciphertext — the fixed sentinel
/// text is returned instead.
pub fn decrypt(data: String, key: String) -> (r: String)
    ensures
        (plain_of(data@, key@) matches Some(p) ==> r@ == p),
        plain_of(data@, key@) is None ==> r@ == sentinel(),
        !base64_text(data@) ==> r@ == sentinel(),
{
    match mc_decrypt(data.as_str(), key.as_str()) {
        Some(p) => p,
        None => "[ACCESS DENIED]".to_owned(),
    }
}

/// Round trip: decrypting an encryption under the key it was made with
/// returns the plaintext unchanged, for every plaintext and every key.
pub fn round_trip(data: String, key: String) -> (r: String)
    ensures
        r@ == data@,
{
    let c = encrypt(data, key.clone());
    decrypt(c, key)
}

/// Determinism: two encryptions of the same plaintext under the same key
/// yield the same ciphertext.
pub fn encrypt_twice_agrees(data: String, key: String) -> (r: (String, String))
    ensures
        r.0@ == r.1@,
{
    let c1 = encrypt(data.clone(), key.clone());
    let c2 = encrypt(data, key);
    (c1, c2)
}

} // verus!
