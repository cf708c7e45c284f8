//! Content cipher: authenticated encryption of document bodies.
//!
//! A per-document key is 32 random bytes, stored as base64 text. A sealed
//! blob is the base64 text of a fresh 12-byte random nonce followed by the
//! AES-256-GCM ciphertext (tag appended) of the UTF-8 bytes of the
//! plaintext. Decryption of the exact blob with the exact key reproduces the
//! plaintext; a malformed blob, a failed authentication and invalid text are
//! told apart by the error kind.

use aes_gcm::aead::{Aead, KeyInit};
use aes_gcm::{Aes256Gcm, Nonce};
use base64::engine::general_purpose;
use base64::Engine;
use rand::rngs::OsRng;
use rand::Rng;
use rand::RngCore;
use vstd::prelude::*;
use vstd::slice::slice_subrange;

verus! {

/// Which step of the cipher failed.
#[derive(Clone, Copy, Debug, PartialEq, Eq, Structural)]
pub enum CryptoErrorKind {
    /// The key is not the base64 text of a 32-byte key.
    KeyDecode,
    /// The plaintext is too long for the cipher.
    Encrypt,
    /// The blob is malformed: not base64 text, or too short to hold a nonce.
    Integrity,
    /// Authentication failed: wrong key, wrong nonce or tampered data.
    Authentication,
    /// The recovered bytes are not valid text.
    Encoding,
}

/// Failure of an encryption or decryption.
#[derive(Clone, Copy, Debug, PartialEq, Eq, Structural)]
pub struct CryptoError {
    pub kind: CryptoErrorKind,
}

/// Greatest plaintext byte length AES-GCM accepts.
pub const MAX_PLAINTEXT_LEN: u64 = 68719476704;

/// The base64 text of a byte string, as the standard padded engine writes it.
pub uninterp spec fn b64_of(b: Seq<u8>) -> Seq<char>;

/// The UTF-8 bytes of a text.
pub uninterp spec fn utf8_of(s: Seq<char>) -> Seq<u8>;

/// The AES-256-GCM ciphertext, tag appended, of a plaintext under a key and
/// a nonce.
pub uninterp spec fn aead_seal(key: Seq<u8>, nonce: Seq<u8>, pt: Seq<u8>) -> Seq<u8>;

/// What AES-256-GCM decryption yields for a ciphertext under a key and a
/// nonce: the sealed plaintext where the tag authenticates, nothing
/// otherwise.
pub uninterp spec fn aead_open(key: Seq<u8>, nonce: Seq<u8>, ct: Seq<u8>) -> Option<Seq<u8>>;

/// Relies on base64's `general_purpose::STANDARD.encode`: the canonical
/// padded encoding, which no other byte string shares.
#[verifier::external_body]
fn b64_encode(b: &[u8]) -> (r: String)
    ensures
        r@ == b64_of(b@),
        forall|c: Seq<u8>| b64_of(c) == r@ ==> c == b@,
{
    general_purpose::STANDARD.encode(b)
}

/// Relies on base64's `general_purpose::STANDARD.decode`: it accepts exactly
/// the canonical padded encodings and inverts the encoding on them.
#[verifier::external_body]
fn b64_decode(s: &str) -> (r: Result<Vec<u8>, ()>)
    ensures
        match r {
            Ok(v) => b64_of(v@) == s@ && (forall|c: Seq<u8>| b64_of(c) == s@ ==> c == v@),
            Err(_) => forall|c: Seq<u8>| b64_of(c) != s@,
        },
{
    general_purpose::STANDARD.decode(s).map_err(|_| ())
}

/// Relies on `str::as_bytes`: the UTF-8 encoding of the text, at most four
/// bytes a character, which no other text shares.
#[verifier::external_body]
fn utf8_bytes(s: &str) -> (r: Vec<u8>)
    ensures
        r@ == utf8_of(s@),
        r@.len() <= 4 * s@.len(),
        forall|t: Seq<char>| utf8_of(t) == r@ ==> t == s@,
{
    s.as_bytes().to_vec()
}

/// Relies on `String::from_utf8`: it succeeds exactly on UTF-8 byte strings
/// and inverts the encoding.
#[verifier::external_body]
fn utf8_to_string(v: Vec<u8>) -> (r: Result<String, ()>)
    ensures
        match r {
            Ok(s) => utf8_of(s@) == v@ && (forall|t: Seq<char>| utf8_of(t) == v@ ==> t == s@),
            Err(_) => forall|t: Seq<char>| utf8_of(t) != v@,
        },
{
    String::from_utf8(v).map_err(|_| ())
}

/// Relies on rand's `OsRng.fill_bytes` for 32 fresh key bytes.
#[verifier::external_body]
fn fresh_key_bytes() -> (r: Vec<u8>)
    ensures
        r@.len() == 32,
{
    let mut bytes = vec![0u8; 32];
    OsRng.fill_bytes(&mut bytes);
    bytes
}

/// Relies on rand's `thread_rng().gen` for 12 fresh nonce bytes.
#[verifier::external_body]
fn fresh_nonce_bytes() -> (r: Vec<u8>)
    ensures
        r@.len() == 12,
{
    let nonce_bytes: [u8; 12] = rand::thread_rng().gen();
    nonce_bytes.to_vec()
}

/// Relies on `Aes256Gcm` (`KeyInit::new_from_slice`, `Aead::encrypt`): the
/// ciphertext is the GCM ciphertext with the 16-byte tag appended, and
/// decrypting it under the same key and nonce authenticates and yields the
/// plaintext back.
#[verifier::external_body]
fn aes_gcm_seal(key: &[u8], nonce: &[u8], pt: &[u8]) -> (r: Vec<u8>)
    requires
        key@.len() == 32,
        nonce@.len() == 12,
        pt@.len() <= MAX_PLAINTEXT_LEN,
    ensures
        r@ == aead_seal(key@, nonce@, pt@),
        r@.len() == pt@.len() + 16,
        aead_open(key@, nonce@, r@) == Some(pt@),
{
    let cipher = Aes256Gcm::new_from_slice(key).unwrap();
    let nonce = Nonce::try_from(nonce).unwrap();
    cipher.encrypt(&nonce, pt).unwrap()
}

/// Relies on `Aes256Gcm` (`KeyInit::new_from_slice`, `Aead::decrypt`): it
/// returns the sealed plaintext where the tag authenticates, an error
/// otherwise.
#[verifier::external_body]
fn aes_gcm_open(key: &[u8], nonce: &[u8], ct: &[u8]) -> (r: Result<Vec<u8>, ()>)
    requires
        key@.len() == 32,
        nonce@.len() == 12,
    ensures
        match r {
            Ok(pt) => aead_open(key@, nonce@, ct@) == Some(pt@),
            Err(_) => aead_open(key@, nonce@, ct@) is None,
        },
{
    let cipher = Aes256Gcm::new_from_slice(key).unwrap();
    let nonce = Nonce::try_from(nonce).unwrap();
    cipher.decrypt(&nonce, ct).map_err(|_| ())
}

/// A key is the base64 text of exactly 32 bytes.
pub open spec fn valid_key(key: Seq<char>) -> bool {
    exists|k: Seq<u8>| k.len() == 32 && b64_of(k) == key
}

/// The 32 bytes a valid key encodes.
pub open spec fn key_bytes_of(key: Seq<char>) -> Seq<u8> {
    choose|k: Seq<u8>| k.len() == 32 && b64_of(k) == key
}

/// What decrypting a blob under a valid key yields: the plaintext where the
/// blob is the canonical base64 text of a nonce followed by an authentic
/// ciphertext of UTF-8 bytes, and the failed step otherwise.
pub open spec fn spec_decrypt(blob: Seq<char>, key: Seq<char>) -> Result<Seq<char>, CryptoErrorKind> {
    if forall|d: Seq<u8>| b64_of(d) != blob {
        Err(CryptoErrorKind::Integrity)
    } else {
        let d = choose|d: Seq<u8>| b64_of(d) == blob;
        if d.len() < 12 {
            Err(CryptoErrorKind::Integrity)
        } else {
            match aead_open(key_bytes_of(key), d.subrange(0, 12), d.subrange(12, d.len() as int)) {
                Option::None => Err(CryptoErrorKind::Authentication),
                Option::Some(pt) => if exists|t: Seq<char>| utf8_of(t) == pt {
                    Ok(choose|t: Seq<char>| utf8_of(t) == pt)
                } else {
                    Err(CryptoErrorKind::Encoding)
                },
            }
        }
    }
}

/// Produces a fresh random symmetric key, encoded for storage as text.
pub fn generate_key() -> (r: String)
    ensures
        valid_key(r@),
{
    let kb = fresh_key_bytes();
    let r = b64_encode(kb.as_slice());
    proof {
        assert(kb@.len() == 32 && b64_of(kb@) == r@);
    }
    r
}

/// Whether a key is the base64 text of exactly 32 bytes.
pub fn is_valid_key(key: &str) -> (b: bool)
    ensures
        b == valid_key(key@),
{
    match b64_decode(key) {
        Ok(kb) => {
            if kb.len() == 32 {
                proof {
                    assert(kb@.len() == 32 && b64_of(kb@) == key@);
                }
                true
            } else {
                proof {
                    if valid_key(key@) {
                        let k = key_bytes_of(key@);
                        assert(k.len() == 32 && b64_of(k) == key@);
                        assert(k == kb@);
                    }
                }
                false
            }
        },
        Err(_) => {
            proof {
                if valid_key(key@) {
                    let k = key_bytes_of(key@);
                    assert(k.len() == 32 && b64_of(k) == key@);
                }
            }
            false
        },
    }
}

/// Seals a plaintext under a valid key: a fresh nonce is drawn, so two calls
/// need not produce the same blob, but every blob produced decrypts under
/// the same key back to the exact plaintext, and sealing is owed success for
/// every plaintext the cipher accepts.
pub fn encrypt_content(content: &str, key: &str) -> (r: Result<String, CryptoError>)
    requires
        valid_key(key@),
    ensures
        match r {
            Ok(blob) => spec_decrypt(blob@, key@) == Ok::<Seq<char>, CryptoErrorKind>(content@),
            Err(e) => e.kind == CryptoErrorKind::Encrypt && utf8_of(content@).len()
                > MAX_PLAINTEXT_LEN,
        },
        r is Ok <==> utf8_of(content@).len() <= MAX_PLAINTEXT_LEN,
{
    let key_bytes = match b64_decode(key) {
        Ok(kb) => kb,
        Err(_) => {
            proof {
                let k = key_bytes_of(key@);
                assert(k.len() == 32 && b64_of(k) == key@);
            }
            return Err(CryptoError { kind: CryptoErrorKind::KeyDecode });
        },
    };
    proof {
        let k = key_bytes_of(key@);
        assert(k.len() == 32 && b64_of(k) == key@);
        assert(k == key_bytes@);
    }
    let pt = utf8_bytes(content);
    if (pt.len() as u64) > MAX_PLAINTEXT_LEN {
        return Err(CryptoError { kind: CryptoErrorKind::Encrypt });
    }
    let mut data = fresh_nonce_bytes();
    let ghost nonce = data@;
    let sealed = aes_gcm_seal(key_bytes.as_slice(), data.as_slice(), pt.as_slice());
    data.extend_from_slice(sealed.as_slice());
    let blob = b64_encode(data.as_slice());
    proof {
        let d = choose|d: Seq<u8>| b64_of(d) == blob@;
        assert(b64_of(data@) == blob@);
        assert(b64_of(d) == blob@);
        assert(d == data@);
        assert(d.subrange(0, 12) =~= nonce);
        assert(d.subrange(12, d.len() as int) =~= sealed@);
        assert(aead_open(key_bytes_of(key@), d.subrange(0, 12), d.subrange(12, d.len() as int))
            == Some(pt@));
        let t = choose|t: Seq<char>| utf8_of(t) == pt@;
        assert(utf8_of(content@) == pt@);
        assert(t == content@);
    }
    Ok(blob)
}

/// Opens a sealed blob under a valid key: the result is exactly what
/// `spec_decrypt` says the blob holds, so decrypting what `encrypt_content`
/// sealed under the same key reproduces the plaintext, and a malformed,
/// inauthentic or non-text blob fails with the matching error kind.
pub fn decrypt_content(encrypted_content: &str, key: &str) -> (r: Result<String, CryptoError>)
    requires
        valid_key(key@),
    ensures
        match r {
            Ok(s) => spec_decrypt(encrypted_content@, key@) == Ok::<Seq<char>, CryptoErrorKind>(s@),
            Err(e) => spec_decrypt(encrypted_content@, key@) == Err::<Seq<char>, CryptoErrorKind>(
                e.kind,
            ),
        },
{
    let key_bytes = match b64_decode(key) {
        Ok(kb) => kb,
        Err(_) => {
            proof {
                let k = key_bytes_of(key@);
                assert(k.len() == 32 && b64_of(k) == key@);
            }
            return Err(CryptoError { kind: CryptoErrorKind::KeyDecode });
        },
    };
    proof {
        let k = key_bytes_of(key@);
        assert(k.len() == 32 && b64_of(k) == key@);
        assert(k == key_bytes@);
    }
    let data = match b64_decode(encrypted_content) {
        Ok(d) => d,
        Err(_) => {
            return Err(CryptoError { kind: CryptoErrorKind::Integrity });
        },
    };
    proof {
        let d = choose|d: Seq<u8>| b64_of(d) == encrypted_content@;
        assert(b64_of(data@) == encrypted_content@);
        assert(b64_of(d) == encrypted_content@);
        assert(d == data@);
    }
    if data.len() < 12 {
        return Err(CryptoError { kind: CryptoErrorKind::Integrity });
    }
    let nonce = slice_subrange(data.as_slice(), 0, 12);
    let ciphertext = slice_subrange(data.as_slice(), 12, data.len());
    let pt = match aes_gcm_open(key_bytes.as_slice(), nonce, ciphertext) {
        Ok(pt) => pt,
        Err(_) => {
            return Err(CryptoError { kind: CryptoErrorKind::Authentication });
        },
    };
    match utf8_to_string(pt) {
        Ok(s) => {
            proof {
                let t = choose|t: Seq<char>| utf8_of(t) == pt@;
                assert(utf8_of(s@) == pt@);
                assert(t == s@);
            }
            Ok(s)
        },
        Err(_) => Err(CryptoError { kind: CryptoErrorKind::Encoding }),
    }
}

/// Seals a plaintext after checking the key, instead of demanding a valid
/// one: an ill-formed key is answered with the key error.
pub fn try_encrypt_content(content: &str, key: &str) -> (r: Result<String, CryptoError>)
    ensures
        match r {
            Ok(blob) => valid_key(key@) && spec_decrypt(blob@, key@) == Ok::<
                Seq<char>,
                CryptoErrorKind,
            >(content@),
            Err(e) => (e.kind == CryptoErrorKind::KeyDecode && !valid_key(key@)) || (e.kind
                == CryptoErrorKind::Encrypt && utf8_of(content@).len() > MAX_PLAINTEXT_LEN),
        },
        valid_key(key@) && utf8_of(content@).len() <= MAX_PLAINTEXT_LEN ==> r is Ok,
{
    if !is_valid_key(key) {
        return Err(CryptoError { kind: CryptoErrorKind::KeyDecode });
    }
    encrypt_content(content, key)
}

/// Opens a sealed blob after checking the key, instead of demanding a valid
/// one: an ill-formed key is answered with the key error.
pub fn try_decrypt_content(encrypted_content: &str, key: &str) -> (r: Result<String, CryptoError>)
    ensures
        match r {
            Ok(s) => valid_key(key@) && spec_decrypt(encrypted_content@, key@) == Ok::<
                Seq<char>,
                CryptoErrorKind,
            >(s@),
            Err(e) => (e.kind == CryptoErrorKind::KeyDecode && !valid_key(key@)) || (valid_key(key@)
                && spec_decrypt(encrypted_content@, key@) == Err::<Seq<char>, CryptoErrorKind>(
                e.kind,
            )),
        },
{
    if !is_valid_key(key) {
        return Err(CryptoError { kind: CryptoErrorKind::KeyDecode });
    }
    decrypt_content(encrypted_content, key)
}

} // verus!
