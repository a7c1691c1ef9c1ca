use vstd::prelude::*;
use crate::bytes::{concat, copy_range};
use crate::error::MangoError;
use crate::meta::EncryptionType;

verus! {

/// The longest plaintext that AES-GCM accepts, in bytes.
pub const PLAIN_MAX: u64 = 0x10_0000_0000;

/// The length of an AES-GCM nonce, in bytes.
pub const NONCE_LEN: usize = 12;

/// The SHA-256 digest of the UTF-8 bytes of a credential.
pub uninterp spec fn sha256_of(s: Seq<char>) -> Seq<u8>;

/// What AES-128-GCM gives for a key, a nonce and a plaintext: ciphertext and tag.
pub uninterp spec fn aes128_seal(key: Seq<u8>, nonce: Seq<u8>, plain: Seq<u8>) -> Seq<u8>;

/// What AES-128-GCM decryption gives, or `None` where the tag does not match.
pub uninterp spec fn aes128_open(key: Seq<u8>, nonce: Seq<u8>, sealed: Seq<u8>) -> Option<Seq<u8>>;

/// What AES-256-GCM gives for a key, a nonce and a plaintext: ciphertext and tag.
pub uninterp spec fn aes256_seal(key: Seq<u8>, nonce: Seq<u8>, plain: Seq<u8>) -> Seq<u8>;

/// What AES-256-GCM decryption gives, or `None` where the tag does not match.
pub uninterp spec fn aes256_open(key: Seq<u8>, nonce: Seq<u8>, sealed: Seq<u8>) -> Option<Seq<u8>>;

/// Relies on `sha2::Sha256::digest`: a 32-byte digest of the credential's bytes.
#[verifier::external_body]
fn sha256(s: &str) -> (r: Vec<u8>)
    ensures
        r@ == sha256_of(s@),
        r@.len() == 32,
{
    <sha2::Sha256 as sha2::Digest>::digest(s.as_bytes()).to_vec()
}

/// Relies on `aes_gcm::AeadCore::generate_nonce` with the system's random
/// source: twelve bytes, of which nothing else is known.
#[verifier::external_body]
fn random_nonce() -> (r: Vec<u8>)
    ensures
        r@.len() == NONCE_LEN,
{
    <aes_gcm::Aes128Gcm as aes_gcm::AeadCore>::generate_nonce(&mut aes_gcm::aead::OsRng).to_vec()
}

/// Relies on `aes_gcm::aead::Aead::encrypt` for `Aes128Gcm`: it accepts a
/// 16-byte key, a 12-byte nonce and a plaintext of at most `PLAIN_MAX` bytes,
/// and `decrypt` under the same key and nonce gives the plaintext back.
#[verifier::external_body]
fn aes128_gcm_seal(key: &Vec<u8>, nonce: &Vec<u8>, plain: &Vec<u8>) -> (r: Vec<u8>)
    requires
        key@.len() == 16,
        nonce@.len() == NONCE_LEN,
        plain@.len() <= PLAIN_MAX,
    ensures
        r@ == aes128_seal(key@, nonce@, plain@),
        aes128_open(key@, nonce@, r@) == Some(plain@),
{
    let cipher = <aes_gcm::Aes128Gcm as aes_gcm::KeyInit>::new_from_slice(key).expect("key size");
    let n = aes_gcm::Nonce::<aes_gcm::aead::consts::U12>::from_slice(nonce);
    aes_gcm::aead::Aead::encrypt(&cipher, n, plain.as_slice()).expect("plaintext size")
}

/// Relies on `aes_gcm::aead::Aead::decrypt` for `Aes128Gcm`: the plaintext,
/// or a failure where the authentication tag does not match.
#[verifier::external_body]
fn aes128_gcm_open(key: &Vec<u8>, nonce: &Vec<u8>, sealed: &Vec<u8>) -> (r: Option<Vec<u8>>)
    requires
        key@.len() == 16,
        nonce@.len() == NONCE_LEN,
    ensures
        match r {
            Some(v) => aes128_open(key@, nonce@, sealed@) == Some(v@),
            None => aes128_open(key@, nonce@, sealed@) is None,
        },
{
    let cipher = <aes_gcm::Aes128Gcm as aes_gcm::KeyInit>::new_from_slice(key).expect("key size");
    let n = aes_gcm::Nonce::<aes_gcm::aead::consts::U12>::from_slice(nonce);
    aes_gcm::aead::Aead::decrypt(&cipher, n, sealed.as_slice()).ok()
}

/// Relies on `aes_gcm::aead::Aead::encrypt` for `Aes256Gcm`: it accepts a
/// 32-byte key, a 12-byte nonce and a plaintext of at most `PLAIN_MAX` bytes,
/// and `decrypt` under the same key and nonce gives the plaintext back.
#[verifier::external_body]
fn aes256_gcm_seal(key: &Vec<u8>, nonce: &Vec<u8>, plain: &Vec<u8>) -> (r: Vec<u8>)
    requires
        key@.len() == 32,
        nonce@.len() == NONCE_LEN,
        plain@.len() <= PLAIN_MAX,
    ensures
        r@ == aes256_seal(key@, nonce@, plain@),
        aes256_open(key@, nonce@, r@) == Some(plain@),
{
    let cipher = <aes_gcm::Aes256Gcm as aes_gcm::KeyInit>::new_from_slice(key).expect("key size");
    let n = aes_gcm::Nonce::<aes_gcm::aead::consts::U12>::from_slice(nonce);
    aes_gcm::aead::Aead::encrypt(&cipher, n, plain.as_slice()).expect("plaintext size")
}

/// Relies on `aes_gcm::aead::Aead::decrypt` for `Aes256Gcm`: the plaintext,
/// or a failure where the authentication tag does not match.
#[verifier::external_body]
fn aes256_gcm_open(key: &Vec<u8>, nonce: &Vec<u8>, sealed: &Vec<u8>) -> (r: Option<Vec<u8>>)
    requires
        key@.len() == 32,
        nonce@.len() == NONCE_LEN,
    ensures
        match r {
            Some(v) => aes256_open(key@, nonce@, sealed@) == Some(v@),
            None => aes256_open(key@, nonce@, sealed@) is None,
        },
{
    let cipher = <aes_gcm::Aes256Gcm as aes_gcm::KeyInit>::new_from_slice(key).expect("key size");
    let n = aes_gcm::Nonce::<aes_gcm::aead::consts::U12>::from_slice(nonce);
    aes_gcm::aead::Aead::decrypt(&cipher, n, sealed.as_slice()).ok()
}

/// The key that a credential yields for a variant: the SHA-256 digest of the
/// credential, cut to the variant's key size.
pub open spec fn derived_key(t: EncryptionType, credential: Seq<char>) -> Seq<u8> {
    match t {
        EncryptionType::AES128 => sha256_of(credential).subrange(0, 16),
        EncryptionType::AES256 => sha256_of(credential),
    }
}

/// Sealed bytes under a variant.
pub open spec fn sealed(t: EncryptionType, key: Seq<u8>, nonce: Seq<u8>, p: Seq<u8>) -> Seq<u8> {
    match t {
        EncryptionType::AES128 => aes128_seal(key, nonce, p),
        EncryptionType::AES256 => aes256_seal(key, nonce, p),
    }
}

/// Opened bytes under a variant, or `None` where the tag does not match.
pub open spec fn opened(t: EncryptionType, key: Seq<u8>, nonce: Seq<u8>, c: Seq<u8>) -> Option<
    Seq<u8>,
> {
    match t {
        EncryptionType::AES128 => aes128_open(key, nonce, c),
        EncryptionType::AES256 => aes256_open(key, nonce, c),
    }
}

/// The encrypted form of `p`: the nonce, then the sealed bytes.
pub open spec fn encrypted(t: EncryptionType, credential: Seq<char>, nonce: Seq<u8>, p: Seq<u8>) -> Seq<u8> {
    nonce + sealed(t, derived_key(t, credential), nonce, p)
}

/// What decrypting `c` gives, or `None` where it is too short or does not
/// authenticate under the credential.
pub open spec fn decrypted(t: EncryptionType, credential: Seq<char>, c: Seq<u8>) -> Option<Seq<u8>> {
    if c.len() < NONCE_LEN {
        None
    } else {
        opened(
            t,
            derived_key(t, credential),
            c.subrange(0, NONCE_LEN as int),
            c.subrange(NONCE_LEN as int, c.len() as int),
        )
    }
}

fn key_for(t: EncryptionType, credential: &String) -> (r: Vec<u8>)
    ensures
        r@ == derived_key(t, credential@),
        r@.len() == match t {
            EncryptionType::AES128 => 16int,
            EncryptionType::AES256 => 32int,
        },
{
    let digest = sha256(credential.as_str());
    match t {
        EncryptionType::AES128 => copy_range(&digest, 0, 16),
        EncryptionType::AES256 => {
            let r = copy_range(&digest, 0, 32);
            proof {
                assert(digest@.subrange(0, 32) =~= digest@);
            }
            r
        },
    }
}

/// Encrypts bytes under a variant with a caller-chosen nonce. Fails only where
/// the payload is longer than the cipher accepts. `decrypt` with the same
/// variant and credential gives the bytes back.
pub fn encrypt_with_nonce(
    t: EncryptionType,
    payload: &Vec<u8>,
    credential: &String,
    nonce: &Vec<u8>,
) -> (r: Result<Vec<u8>, MangoError>)
    requires
        nonce@.len() == NONCE_LEN,
    ensures
        payload@.len() <= PLAIN_MAX ==> (r is Ok && r->Ok_0@ == encrypted(
            t,
            credential@,
            nonce@,
            payload@,
        ) && decrypted(t, credential@, r->Ok_0@) == Some(payload@)),
        payload@.len() > PLAIN_MAX ==> r == Err::<Vec<u8>, MangoError>(MangoError::PayloadTooLarge),
{
    if payload.len() as u64 > PLAIN_MAX {
        return Err(MangoError::PayloadTooLarge);
    }
    let key = key_for(t, credential);
    let s = match t {
        EncryptionType::AES128 => aes128_gcm_seal(&key, nonce, payload),
        EncryptionType::AES256 => aes256_gcm_seal(&key, nonce, payload),
    };
    let out = concat(nonce, &s);
    proof {
        assert(out@.subrange(0, NONCE_LEN as int) =~= nonce@);
        assert(out@.subrange(NONCE_LEN as int, out@.len() as int) =~= s@);
    }
    Ok(out)
}

/// Encrypts bytes under a variant with a fresh random nonce. `decrypt` with
/// the same variant and credential gives the bytes back.
pub fn encrypt(t: EncryptionType, payload: &Vec<u8>, credential: &String) -> (r: Result<
    Vec<u8>,
    MangoError,
>)
    ensures
        payload@.len() <= PLAIN_MAX ==> (r is Ok && (exists|n: Seq<u8>|
            n.len() == NONCE_LEN && r->Ok_0@ == #[trigger] encrypted(t, credential@, n, payload@))
            && decrypted(t, credential@, r->Ok_0@) == Some(payload@)),
        payload@.len() > PLAIN_MAX ==> r == Err::<Vec<u8>, MangoError>(MangoError::PayloadTooLarge),
{
    let nonce = random_nonce();
    encrypt_with_nonce(t, payload, credential, &nonce)
}

/// Decrypts bytes under a variant; `DecryptionFailed` where they do not
/// authenticate under the credential.
pub fn decrypt(t: EncryptionType, payload: &Vec<u8>, credential: &String) -> (r: Result<
    Vec<u8>,
    MangoError,
>)
    ensures
        match decrypted(t, credential@, payload@) {
            Some(p) => r is Ok && r->Ok_0@ == p,
            None => r == Err::<Vec<u8>, MangoError>(MangoError::DecryptionFailed),
        },
{
    if payload.len() < NONCE_LEN {
        return Err(MangoError::DecryptionFailed);
    }
    let key = key_for(t, credential);
    let nonce = copy_range(payload, 0, NONCE_LEN);
    let body = copy_range(payload, NONCE_LEN, payload.len());
    let d = match t {
        EncryptionType::AES128 => aes128_gcm_open(&key, &nonce, &body),
        EncryptionType::AES256 => aes256_gcm_open(&key, &nonce, &body),
    };
    match d {
        Some(v) => Ok(v),
        None => Err(MangoError::DecryptionFailed),
    }
}

} // verus!
