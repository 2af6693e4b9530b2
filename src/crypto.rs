//! AES-128-CBC with PKCS#7 padding, HKDF-SHA256 key derivation, and the
//! operating system's random source.

use crate::error::Error;
use aes::cipher::block_padding::Pkcs7;
use aes::cipher::{BlockDecryptMut, BlockEncryptMut, KeyIvInit};
use rand::RngCore;
use vstd::prelude::*;

verus! {

/// Length in bytes of an AES-128 key, of a CBC initialisation vector and of a
/// cipher block.
pub const BLOCK_LEN: usize = 16;

/// The ciphertext that AES-128-CBC with PKCS#7 padding makes of `plaintext`.
pub uninterp spec fn aes128_cbc_encrypt(key: Seq<u8>, iv: Seq<u8>, plaintext: Seq<u8>) -> Seq<u8>;

/// The plaintext that AES-128-CBC decryption and PKCS#7 unpadding recover from
/// `ciphertext`, or `None` where the padding does not check out.
pub uninterp spec fn aes128_cbc_decrypt(key: Seq<u8>, iv: Seq<u8>, ciphertext: Seq<u8>) -> Option<
    Seq<u8>,
>;

/// The 16 bytes of output keying material that HKDF-SHA256 derives from
/// `ikm` with an empty salt and empty info.
pub uninterp spec fn hkdf_sha256_key(ikm: Seq<u8>) -> Seq<u8>;

pub open spec fn bytes_of(v: Option<Vec<u8>>) -> Option<Seq<u8>> {
    match v {
        Some(b) => Some(b@),
        None => None,
    }
}

/// What decrypting `ciphertext` under `key` and `iv` gives: nothing for a key
/// or IV of the wrong length or for bad padding.
pub open spec fn cbc_plaintext(key: Seq<u8>, iv: Seq<u8>, ciphertext: Seq<u8>) -> Option<Seq<u8>> {
    if key.len() == BLOCK_LEN && iv.len() == BLOCK_LEN {
        aes128_cbc_decrypt(key, iv, ciphertext)
    } else {
        None
    }
}

/// The length of a PKCS#7-padded message: padding always adds 1 to 16 bytes.
pub open spec fn padded_len(n: nat) -> nat {
    (n / 16 + 1) * 16
}

/// Relies on cbc's `Encryptor::<Aes128>::new_from_slices`, which refuses a key
/// or IV that is not 16 bytes long, and `encrypt_padded_vec_mut::<Pkcs7>`:
/// PKCS#7 padding to whole blocks, then AES-128-CBC, which the matching
/// decryption undoes.
#[verifier::external_body]
fn cbc_encrypt(data: &[u8], key: &[u8], iv: &[u8]) -> (r: Option<Vec<u8>>)
    ensures
        (r is Some) == (key@.len() == BLOCK_LEN && iv@.len() == BLOCK_LEN),
        r is Some ==> r->Some_0@ == aes128_cbc_encrypt(key@, iv@, data@),
        r is Some ==> r->Some_0@.len() == padded_len(data@.len()),
        r is Some ==> aes128_cbc_decrypt(key@, iv@, r->Some_0@) == Some(data@),
{
    match cbc::Encryptor::<aes::Aes128>::new_from_slices(key, iv) {
        Ok(cipher) => Some(cipher.encrypt_padded_vec_mut::<Pkcs7>(data)),
        Err(_) => None,
    }
}

/// Relies on cbc's `Decryptor::<Aes128>::new_from_slices`, which refuses a key
/// or IV that is not 16 bytes long, and `decrypt_padded_vec_mut::<Pkcs7>`,
/// which fails on input that is empty or not a whole number of blocks, and on
/// malformed padding.
#[verifier::external_body]
fn cbc_decrypt(data: &[u8], key: &[u8], iv: &[u8]) -> (r: Option<Vec<u8>>)
    ensures
        bytes_of(r) == cbc_plaintext(key@, iv@, data@),
        data@.len() == 0 || data@.len() % 16 != 0 ==> r is None,
{
    match cbc::Decryptor::<aes::Aes128>::new_from_slices(key, iv) {
        Ok(cipher) => cipher.decrypt_padded_vec_mut::<Pkcs7>(data).ok(),
        Err(_) => None,
    }
}

/// Relies on hkdf's `Hkdf::<Sha256>::new` with no salt and `expand` with empty
/// info into 16 bytes; `expand` fails only for more than 255 * 32 bytes.
#[verifier::external_body]
pub(crate) fn hkdf(ikm: &[u8]) -> (okm: Vec<u8>)
    ensures
        okm@ == hkdf_sha256_key(ikm@),
        okm@.len() == BLOCK_LEN,
{
    let mut okm = [0u8; 16];
    hkdf::Hkdf::<sha2::Sha256>::new(None, ikm).expand(&[], &mut okm).expect(
        "16 bytes is a valid HKDF-SHA256 output length",
    );
    okm.to_vec()
}

/// Relies on rand's `OsRng` (`RngCore::try_fill_bytes`): `len` bytes from the
/// operating system's random source, or nothing where that source fails.
#[verifier::external_body]
pub(crate) fn random_bytes(len: usize) -> (r: Option<Vec<u8>>)
    ensures
        r is Some ==> r->Some_0@.len() == len,
{
    let mut buf = vec![0u8; len];
    match rand::rngs::OsRng.try_fill_bytes(&mut buf) {
        Ok(()) => Some(buf),
        Err(_) => None,
    }
}

/// Encrypts `data` with AES-128-CBC under `key` and `iv`, after PKCS#7
/// padding; an empty message still gives one full block.
pub fn encrypt(data: &[u8], key: &[u8], iv: &[u8]) -> (r: Result<Vec<u8>, Error>)
    ensures
        r is Ok <==> key@.len() == BLOCK_LEN && iv@.len() == BLOCK_LEN,
        r matches Ok(c) ==> c@ == aes128_cbc_encrypt(key@, iv@, data@),
        r matches Ok(c) ==> c@.len() == padded_len(data@.len()),
        r matches Ok(c) ==> cbc_plaintext(key@, iv@, c@) == Some(data@),
        r matches Err(e) ==> e is Crypto,
{
    match cbc_encrypt(data, key, iv) {
        Some(c) => Ok(c),
        None => Err(Error::Crypto("invalid key or IV length")),
    }
}

/// Decrypts AES-128-CBC `encrypted_data` under `key` and `iv` and removes the
/// PKCS#7 padding. Fails on a key or IV of the wrong length, on data that is
/// empty or not a whole number of blocks, and on malformed padding.
pub fn decrypt(encrypted_data: &[u8], key: &[u8], iv: &[u8]) -> (r: Result<Vec<u8>, Error>)
    ensures
        r matches Ok(p) ==> cbc_plaintext(key@, iv@, encrypted_data@) == Some(p@),
        r matches Err(e) ==> cbc_plaintext(key@, iv@, encrypted_data@) is None && e is Crypto,
        encrypted_data@.len() == 0 || encrypted_data@.len() % 16 != 0 ==> r is Err,
{
    match cbc_decrypt(encrypted_data, key, iv) {
        Some(p) => Ok(p),
        None => Err(Error::Crypto("message decryption failed")),
    }
}

} // verus!
