use vstd::prelude::*;

use crate::bytes::append_bytes;
use crate::errors::CryptoError;
use crate::rng::random_bytes;

verus! {

/// The length, in bytes, of the nonce that prefixes every sealed blob.
pub const NONCE_LEN: usize = 12;

/// The largest plaintext, in bytes, that the library seals: one 32-byte block
/// short of AES-GCM's 2^36-byte limit, so that every admitted seal stays
/// clear of the counter edge of the underlying CTR keystream.
pub const MAX_PLAINTEXT_LEN: u64 = 0xF_FFFF_FFE0;

/// The largest tagless ciphertext body, in bytes, that AES-256-GCM opening
/// accepts: 2^36 + 16.
pub const GCM_C_MAX: u64 = 0x10_0000_0010;

/// The AES-256-GCM sealing function: the ciphertext together with its 16-byte
/// authentication tag, as a function of key, nonce and plaintext. Its values
/// are pinned only through the trusted wrappers below; verified code reasons
/// about it by name.
pub uninterp spec fn aes_gcm_seal(key: Seq<u8>, nonce: Seq<u8>, plaintext: Seq<u8>) -> Seq<u8>;

/// `sealed` is a well-formed blob that opens to `pt` under `key`: it carries
/// a 12-byte nonce prefix, and the rest of it is exactly the seal of `pt`
/// under that key and nonce.
pub open spec fn opens_to(sealed: Seq<u8>, key: Seq<u8>, pt: Seq<u8>) -> bool {
    &&& sealed.len() >= NONCE_LEN
    &&& sealed.subrange(NONCE_LEN as int, sealed.len() as int)
        == aes_gcm_seal(key, sealed.subrange(0, NONCE_LEN as int), pt)
}

/// Relies on aes_gcm::Aes256Gcm (aes_gcm::KeyInit::new_from_slice and
/// aes_gcm::aead::Aead::encrypt): building the cipher from a 32-byte key
/// always succeeds, and sealing errs only above GCM's 2^36-byte plaintext
/// limit, so within the library's cap it always succeeds and returns the
/// ciphertext with its 16-byte tag appended, a function of key, nonce and
/// plaintext alone.
#[verifier::external_body]
fn aead_seal(key: &[u8], nonce: &[u8], plaintext: &[u8]) -> (r: Option<Vec<u8>>)
    requires
        key@.len() == 32,
        nonce@.len() == NONCE_LEN,
        plaintext@.len() <= MAX_PLAINTEXT_LEN,
    ensures
        r matches Some(c) ==> c@ == aes_gcm_seal(key@, nonce@, plaintext@),
        r matches Some(c) ==> c@.len() == plaintext@.len() + 16,
        r is Some,
{
    let cipher = match <aes_gcm::Aes256Gcm as aes_gcm::KeyInit>::new_from_slice(key) {
        Ok(c) => c,
        Err(_) => return None,
    };
    let nonce = aes_gcm::Nonce::from_slice(nonce);
    aes_gcm::aead::Aead::encrypt(&cipher, nonce, plaintext).ok()
}

/// Relies on aes_gcm::Aes256Gcm (aes_gcm::KeyInit::new_from_slice and
/// aes_gcm::aead::Aead::decrypt): opening verifies the authentication tag and
/// inverts sealing. It succeeds on every ciphertext that sealing under the
/// same key and nonce produces, and a success returns the one plaintext whose
/// seal is the given ciphertext, 16 bytes shorter than it and within the
/// 2^36 + 16-byte bound that the source places on the tagless body; on
/// anything else it fails, returning nothing.
#[verifier::external_body]
fn aead_open(key: &[u8], nonce: &[u8], ciphertext: &[u8]) -> (r: Option<Vec<u8>>)
    requires
        key@.len() == 32,
        nonce@.len() == NONCE_LEN,
    ensures
        r matches Some(p) ==> ciphertext@ == aes_gcm_seal(key@, nonce@, p@),
        r matches Some(p) ==> p@.len() + 16 == ciphertext@.len() && p@.len() <= GCM_C_MAX,
        forall|p: Seq<u8>|
            p.len() <= MAX_PLAINTEXT_LEN && ciphertext@ == aes_gcm_seal(key@, nonce@, p)
                ==> r is Some && r->Some_0@ == p,
{
    let cipher = match <aes_gcm::Aes256Gcm as aes_gcm::KeyInit>::new_from_slice(key) {
        Ok(c) => c,
        Err(_) => return None,
    };
    let nonce = aes_gcm::Nonce::from_slice(nonce);
    aes_gcm::aead::Aead::decrypt(&cipher, nonce, ciphertext).ok()
}

/// A blob assembled from a 12-byte nonce and the seal of a plaintext opens
/// back to that plaintext: splitting off the nonce prefix recovers exactly
/// the seal. Together with the contract of `decrypt`, this is the encryption
/// round trip, for every key, nonce and plaintext.
pub proof fn lemma_seal_opens(key: Seq<u8>, nonce: Seq<u8>, pt: Seq<u8>)
    requires
        nonce.len() == NONCE_LEN,
    ensures
        opens_to(nonce + aes_gcm_seal(key, nonce, pt), key, pt),
{
    let sealed = nonce + aes_gcm_seal(key, nonce, pt);
    assert(sealed.subrange(0, NONCE_LEN as int) =~= nonce);
    assert(sealed.subrange(NONCE_LEN as int, sealed.len() as int)
        =~= aes_gcm_seal(key, nonce, pt));
}

/// Under one key, a sealed blob is determined by its nonce and its plaintext:
/// two blobs that carry the same nonce prefix and open to the same plaintext
/// are byte-for-byte equal. So a blob whose sealed part was altered in any
/// way can never open to the original plaintext — together with the contract
/// of `decrypt`, tampering is either rejected outright or yields a plaintext
/// other than the original, never a silent acceptance.
pub proof fn lemma_blob_determined_by_plaintext(
    s1: Seq<u8>,
    s2: Seq<u8>,
    key: Seq<u8>,
    pt: Seq<u8>,
)
    requires
        opens_to(s1, key, pt),
        opens_to(s2, key, pt),
        s1.subrange(0, NONCE_LEN as int) == s2.subrange(0, NONCE_LEN as int),
    ensures
        s1 == s2,
{
    let n = NONCE_LEN as int;
    assert(aes_gcm_seal(key, s1.subrange(0, n), pt) == aes_gcm_seal(key, s2.subrange(0, n), pt));
    assert(s1.subrange(n, s1.len() as int) == s2.subrange(n, s2.len() as int));
    assert(s1.len() - n == s2.len() - n) by {
        assert(s1.subrange(n, s1.len() as int).len() == s2.subrange(n, s2.len() as int).len());
    }
    assert forall|i: int| 0 <= i < s1.len() implies s1[i] == s2[i] by {
        if i < n {
            assert(s1.subrange(0, n)[i] == s2.subrange(0, n)[i]);
        } else {
            assert(s1.subrange(n, s1.len() as int)[i - n] == s2.subrange(n, s2.len() as int)[i
                - n]);
        }
    }
    assert(s1 =~= s2);
}

/// Seals `plaintext` under a 32-byte `key`: draws a fresh random 12-byte
/// nonce and returns the nonce followed by the AES-256-GCM ciphertext and
/// tag — a blob that opens back to `plaintext` under the same key. Fails with
/// `InvalidKeyLength` on any other key length, and with `InvalidInputLength`
/// on a plaintext too large to seal.
pub fn encrypt(plaintext: &Vec<u8>, key: &Vec<u8>) -> (r: Result<Vec<u8>, CryptoError>)
    ensures
        key@.len() != 32 ==> r == Err::<Vec<u8>, CryptoError>(CryptoError::InvalidKeyLength),
        key@.len() == 32 && plaintext@.len() <= MAX_PLAINTEXT_LEN ==> r is Ok,
        r matches Ok(c) ==> key@.len() == 32 && opens_to(c@, key@, plaintext@),
        r matches Ok(c) ==> c@.len() == plaintext@.len() + 28 && plaintext@.len()
            <= MAX_PLAINTEXT_LEN,
        key@.len() == 32 && r is Err ==> r == Err::<Vec<u8>, CryptoError>(
            CryptoError::InvalidInputLength,
        ) && plaintext@.len() > MAX_PLAINTEXT_LEN,
{
    if key.len() != 32 {
        return Err(CryptoError::InvalidKeyLength);
    }
    if plaintext.len() as u64 > MAX_PLAINTEXT_LEN {
        return Err(CryptoError::InvalidInputLength);
    }
    let nonce: Vec<u8> = random_bytes(NONCE_LEN);
    match aead_seal(key.as_slice(), nonce.as_slice(), plaintext.as_slice()) {
        Some(ct) => {
            let ghost nonce_view = nonce@;
            let mut out: Vec<u8> = nonce;
            append_bytes(&mut out, ct.as_slice());
            proof {
                lemma_seal_opens(key@, nonce_view, plaintext@);
            }
            Ok(out)
        },
        None => Err(CryptoError::InvalidInputLength),
    }
}

/// Opens a sealed blob under a 32-byte `key`: splits the 12-byte nonce prefix
/// from the ciphertext and verifies and removes the tag. Every blob that
/// opens to some plaintext within the sealing size cap yields exactly that
/// plaintext; any other blob of
/// valid shape fails with `AuthenticationFailure`, never with partial output.
/// A key of any other length fails with `InvalidKeyLength`, and a blob
/// shorter than the nonce prefix with `InvalidInputLength`.
pub fn decrypt(sealed: &Vec<u8>, key: &Vec<u8>) -> (r: Result<Vec<u8>, CryptoError>)
    ensures
        key@.len() != 32 ==> r == Err::<Vec<u8>, CryptoError>(CryptoError::InvalidKeyLength),
        key@.len() == 32 && sealed@.len() < NONCE_LEN ==> r == Err::<Vec<u8>, CryptoError>(
            CryptoError::InvalidInputLength,
        ),
        r matches Ok(p) ==> key@.len() == 32 && opens_to(sealed@, key@, p@),
        r matches Ok(p) ==> p@.len() + 28 == sealed@.len(),
        forall|p: Seq<u8>|
            key@.len() == 32 && p.len() <= MAX_PLAINTEXT_LEN && opens_to(sealed@, key@, p)
                ==> r is Ok && r->Ok_0@ == p,
        key@.len() == 32 && sealed@.len() >= NONCE_LEN && r is Err ==> r == Err::<
            Vec<u8>,
            CryptoError,
        >(CryptoError::AuthenticationFailure),
{
    if key.len() != 32 {
        return Err(CryptoError::InvalidKeyLength);
    }
    if sealed.len() < NONCE_LEN {
        return Err(CryptoError::InvalidInputLength);
    }
    let nonce: &[u8] = vstd::slice::slice_subrange(sealed.as_slice(), 0, NONCE_LEN);
    let ct: &[u8] = vstd::slice::slice_subrange(sealed.as_slice(), NONCE_LEN, sealed.len());
    match aead_open(key.as_slice(), nonce, ct) {
        Some(pt) => Ok(pt),
        None => Err(CryptoError::AuthenticationFailure),
    }
}

} // verus!
