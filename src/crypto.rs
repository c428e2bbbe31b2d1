use vstd::prelude::*;
use vstd::utf8::encode_utf8;

use ring::aead::{Aad, LessSafeKey, Nonce, UnboundKey, AES_256_GCM};
use ring::rand::{SecureRandom, SystemRandom};

use crate::error::Error;

verus! {

/// Length of the nonce that leads every sealed payload.
pub const NONCE_LEN: usize = 12;

/// Length of the authentication tag that ends every sealed payload.
pub const TAG_LEN: usize = 16;

/// The shortest buffer that can be a sealed payload: a nonce and a tag.
pub const MIN_SEALED_LEN: usize = 28;

/// The longest plaintext that AES-256-GCM seals under one nonce: its 32-bit
/// block counter leaves room for 2^32 - 2 blocks of 16 bytes.
pub const MAX_SEAL_LEN: u64 = 68719476704;

/// Iteration count of the key derivation.
pub const PBKDF2_ITERATIONS: u32 = 100000;

/// The longest passphrase, in bytes, that the key derivation takes. SHA-256
/// accepts less than 2^61 bytes; no machine holds a string near this bound.
pub const MAX_PASSPHRASE_LEN: u64 = 0x1000_0000_0000_0000;

/// The first 32 bytes of PBKDF2 with HMAC-SHA-256 as its pseudorandom function.
pub uninterp spec fn pbkdf2_hmac_sha256(iterations: u32, salt: Seq<u8>, secret: Seq<u8>) -> Seq<u8>;

/// AES-256-GCM encryption with empty associated data: the ciphertext followed
/// by the 16-byte authentication tag.
pub uninterp spec fn aes_256_gcm_seal(key: Seq<u8>, nonce: Seq<u8>, plaintext: Seq<u8>) -> Seq<u8>;

/// The fixed salt of the key derivation.
pub open spec fn key_salt() -> Seq<u8> {
    seq![0u8, 1u8, 2u8, 3u8, 4u8, 5u8, 6u8, 7u8, 8u8, 9u8]
}

/// The key that a passphrase yields: PBKDF2-HMAC-SHA-256 over its UTF-8 bytes,
/// with the fixed salt and iteration count.
pub open spec fn derived_key(pass: Seq<char>) -> Seq<u8> {
    pbkdf2_hmac_sha256(PBKDF2_ITERATIONS, key_salt(), encode_utf8(pass))
}

/// `sealed` is the nonce it starts with, followed by the AES-256-GCM sealing of
/// `plaintext` under `key` and that nonce.
pub open spec fn opens_to(key: Seq<u8>, sealed: Seq<u8>, plaintext: Seq<u8>) -> bool {
    &&& sealed.len() >= MIN_SEALED_LEN
    &&& aes_256_gcm_seal(key, sealed.take(NONCE_LEN as int), plaintext) == sealed.skip(
        NONCE_LEN as int,
    )
}

/// `a` and `b` have the same length and the same bytes before their last 16,
/// the tag: they carry the same ciphertext, whatever their tags.
pub open spec fn same_ciphertext(a: Seq<u8>, b: Seq<u8>) -> bool {
    &&& a.len() == b.len()
    &&& a.len() >= TAG_LEN
    &&& a.take(a.len() - TAG_LEN) == b.take(b.len() - TAG_LEN)
}

/// What sealing `plaintext` under `key` may return: a payload of exactly 28
/// more bytes that opens to it, or a failure of the random source or the cipher.
pub open spec fn seal_outcome(key: Seq<u8>, plaintext: Seq<u8>, r: Result<Seq<u8>, Error>) -> bool {
    match r {
        Ok(sealed) => opens_to(key, sealed, plaintext) && sealed.len() == plaintext.len()
            + MIN_SEALED_LEN,
        Err(e) => e == Error::EntropyFailure || e == Error::CryptoError,
    }
}

/// What opening `sealed` under `key` returns: `MalformedInput` for a buffer
/// shorter than a nonce and a tag; otherwise the plaintext it opens to, 28
/// bytes shorter than the buffer, and `AuthenticationFailure` when it opens to
/// none, in particular when it carries the ciphertext of a sealing under its
/// nonce but not that sealing's tag.
pub open spec fn open_outcome(key: Seq<u8>, sealed: Seq<u8>, r: Result<Seq<u8>, Error>) -> bool {
    if sealed.len() < MIN_SEALED_LEN {
        r == Err::<Seq<u8>, Error>(Error::MalformedInput)
    } else {
        &&& forall|p: Seq<u8>| #[trigger] opens_to(key, sealed, p) ==> r == Ok::<Seq<u8>, Error>(p)
        &&& forall|p: Seq<u8>|
            {
                let other = #[trigger] aes_256_gcm_seal(key, sealed.take(NONCE_LEN as int), p);
                same_ciphertext(other, sealed.skip(NONCE_LEN as int)) && other != sealed.skip(
                    NONCE_LEN as int,
                ) ==> r is Err
            }
        &&& match r {
            Ok(p) => opens_to(key, sealed, p) && p.len() + MIN_SEALED_LEN == sealed.len(),
            Err(e) => e == Error::AuthenticationFailure,
        }
    }
}

/// The view of a byte-buffer result.
pub open spec fn bytes_view(r: Result<Vec<u8>, Error>) -> Result<Seq<u8>, Error> {
    match r {
        Ok(v) => Ok(v@),
        Err(e) => Err(e),
    }
}

#[verifier::external_type_specification]
#[verifier::external_body]
pub struct ExUnspecified(ring::error::Unspecified);

/// Relies on ring::pbkdf2::derive with PBKDF2_HMAC_SHA256, which fills the
/// 32-byte output and panics only on a zero iteration count or on inputs too
/// large for SHA-256.
#[verifier::external_body]
fn pbkdf2_derive(iterations: u32, salt: &[u8], secret: &[u8]) -> (r: [u8; 32])
    requires
        iterations > 0,
        salt@.len() <= MAX_PASSPHRASE_LEN,
        secret@.len() <= MAX_PASSPHRASE_LEN,
    ensures
        r@ == pbkdf2_hmac_sha256(iterations, salt@, secret@),
{
    let mut out = [0u8; 32];
    let iterations = std::num::NonZeroU32::new(iterations).unwrap();
    ring::pbkdf2::derive(ring::pbkdf2::PBKDF2_HMAC_SHA256, iterations, salt, secret, &mut out);
    out
}

/// Relies on ring::rand::SystemRandom::fill: on success every byte of the
/// buffer of the given length comes from the system's secure random source.
#[verifier::external_body]
fn random_bytes(len: usize) -> (r: Result<Vec<u8>, ring::error::Unspecified>)
    ensures
        r is Ok ==> r->Ok_0@.len() == len,
{
    let mut buf = std::vec![0u8; len];
    SystemRandom::new().fill(&mut buf)?;
    Ok(buf)
}

/// Relies on ring::aead::LessSafeKey::seal_in_place_append_tag with
/// AES_256_GCM and empty associated data: on success the buffer holds the
/// ciphertext, as long as the plaintext, followed by the 16-byte tag. It fails
/// only on a plaintext longer than the cipher's limit.
#[verifier::external_body]
fn seal_in_place(key: &[u8; 32], nonce: &[u8], plaintext: &[u8]) -> (r: Result<
    Vec<u8>,
    ring::error::Unspecified,
>)
    requires
        nonce@.len() == NONCE_LEN,
    ensures
        r is Ok ==> r->Ok_0@ == aes_256_gcm_seal(key@, nonce@, plaintext@),
        r is Ok ==> r->Ok_0@.len() == plaintext@.len() + TAG_LEN,
        plaintext@.len() <= MAX_SEAL_LEN ==> r is Ok,
{
    let nonce = Nonce::try_assume_unique_for_key(nonce)?;
    let key = LessSafeKey::new(UnboundKey::new(&AES_256_GCM, key)?);
    let mut in_out = plaintext.to_vec();
    key.seal_in_place_append_tag(nonce, Aad::empty(), &mut in_out)?;
    Ok(in_out)
}

/// Relies on ring::aead::LessSafeKey::open_in_place with AES_256_GCM and empty
/// associated data: it succeeds exactly when the tag at the end verifies, that
/// is when the buffer is the sealing of some plaintext under this key and
/// nonce, and then returns that plaintext, 16 bytes shorter than the buffer.
/// The tag it checks is computed from the key, the nonce and the ciphertext
/// alone, so a buffer with the ciphertext of a sealing and another tag fails.
#[verifier::external_body]
fn open_in_place(key: &[u8; 32], nonce: &[u8], sealed: Vec<u8>) -> (r: Result<
    Vec<u8>,
    ring::error::Unspecified,
>)
    requires
        nonce@.len() == NONCE_LEN,
    ensures
        r is Ok ==> aes_256_gcm_seal(key@, nonce@, r->Ok_0@) == sealed@,
        r is Ok ==> r->Ok_0@.len() + TAG_LEN == sealed@.len(),
        forall|p: Seq<u8>|
            #![trigger aes_256_gcm_seal(key@, nonce@, p)]
            same_ciphertext(aes_256_gcm_seal(key@, nonce@, p), sealed@) && aes_256_gcm_seal(
                key@,
                nonce@,
                p,
            ) != sealed@ ==> r is Err,
        forall|p: Seq<u8>| #[trigger]
            aes_256_gcm_seal(key@, nonce@, p) == sealed@ ==> r is Ok && r->Ok_0@ == p,
{
    let nonce = Nonce::try_assume_unique_for_key(nonce)?;
    let key = LessSafeKey::new(UnboundKey::new(&AES_256_GCM, key)?);
    let mut in_out = sealed;
    let plaintext = key.open_in_place(nonce, Aad::empty(), &mut in_out)?;
    Ok(plaintext.to_vec())
}

/// Derives the 32-byte key of a passphrase. The same passphrase always yields
/// the same key, so a secret sealed earlier stays openable.
pub fn derive_key_from_pass(pass: String) -> (r: Result<[u8; 32], Error>)
    requires
        encode_utf8(pass@).len() <= MAX_PASSPHRASE_LEN,
    ensures
        r is Ok,
        r->Ok_0@ == derived_key(pass@),
{
    let salt: [u8; 10] = [0u8, 1u8, 2u8, 3u8, 4u8, 5u8, 6u8, 7u8, 8u8, 9u8];
    let key = pbkdf2_derive(PBKDF2_ITERATIONS, salt.as_slice(), pass.as_str().as_bytes());
    Ok(key)
}

/// Something that seals and opens byte payloads.
pub trait Engine {
    /// Seals a plaintext into `nonce || ciphertext || tag`.
    fn encrypt_bytes(&self, bytes: &[u8]) -> Result<Vec<u8>, Error>;

    /// Opens a payload that `encrypt_bytes` produced.
    fn decrypt_bytes(&self, bytes: &[u8]) -> Result<Vec<u8>, Error>;
}

/// An AES-256-GCM engine holding one key derived from a passphrase; the key
/// never changes for the engine's lifetime.
pub struct Aes256GcmEngine {
    key: [u8; 32],
}

impl Aes256GcmEngine {
    /// The engine's 32-byte key.
    pub closed spec fn key(&self) -> Seq<u8> {
        self.key@
    }

    /// Builds an engine whose key is derived from `pass`.
    pub fn new(pass: String) -> (r: Result<Aes256GcmEngine, Error>)
        requires
            encode_utf8(pass@).len() <= MAX_PASSPHRASE_LEN,
        ensures
            r is Ok,
            r->Ok_0.key() == derived_key(pass@),
    {
        let key = derive_key_from_pass(pass)?;
        Ok(Aes256GcmEngine { key })
    }

    /// Seals `payload` under a given 12-byte nonce: the nonce, then the
    /// ciphertext and tag. It fails with `CryptoError` only on a payload
    /// longer than the cipher's limit.
    pub fn seal_with_nonce(&self, nonce: &[u8], payload: &[u8]) -> (r: Result<Vec<u8>, Error>)
        requires
            nonce@.len() == NONCE_LEN,
        ensures
            payload@.len() <= MAX_SEAL_LEN ==> r is Ok,
            r is Ok ==> r->Ok_0@ == nonce@ + aes_256_gcm_seal(self.key(), nonce@, payload@),
            r is Ok ==> r->Ok_0@.len() == payload@.len() + MIN_SEALED_LEN,
            r is Err ==> r == Err::<Vec<u8>, Error>(Error::CryptoError),
    {
        let mut sealed = match seal_in_place(&self.key, nonce, payload) {
            Ok(s) => s,
            Err(_) => {
                return Err(Error::CryptoError);
            },
        };
        let ghost tail = sealed@;
        let mut data: Vec<u8> = Vec::new();
        let mut i: usize = 0;
        while i < nonce.len()
            invariant
                i <= nonce@.len(),
                data@ == nonce@.take(i as int),
            decreases nonce@.len() - i,
        {
            data.push(nonce[i]);
            i = i + 1;
            assert(data@ =~= nonce@.take(i as int));
        }
        assert(data@ =~= nonce@);
        data.append(&mut sealed);
        assert(data@ =~= nonce@ + tail);
        Ok(data)
    }

    /// Seals `payload`: a fresh random nonce, then the ciphertext and tag.
    /// Within the cipher's limit it fails only when the random source does,
    /// with `EntropyFailure`.
    pub fn encrypt_bytes(&self, payload: &[u8]) -> (r: Result<Vec<u8>, Error>)
        ensures
            seal_outcome(self.key(), payload@, bytes_view(r)),
            payload@.len() <= MAX_SEAL_LEN && r is Err ==> r == Err::<Vec<u8>, Error>(
                Error::EntropyFailure,
            ),
    {
        let nonce = match random_bytes(NONCE_LEN) {
            Ok(n) => n,
            Err(_) => {
                return Err(Error::EntropyFailure);
            },
        };
        let r = self.seal_with_nonce(nonce.as_slice(), payload);
        if let Ok(data) = &r {
            assert(data@.take(NONCE_LEN as int) =~= nonce@);
            assert(data@.skip(NONCE_LEN as int) =~= aes_256_gcm_seal(self.key(), nonce@, payload@));
        }
        r
    }

    /// Opens a sealed payload: checks its length, splits off the nonce and
    /// verifies and decrypts the rest.
    pub fn decrypt_bytes(&self, bytes: &[u8]) -> (r: Result<Vec<u8>, Error>)
        ensures
            open_outcome(self.key(), bytes@, bytes_view(r)),
    {
        if bytes.len() < MIN_SEALED_LEN {
            return Err(Error::MalformedInput);
        }
        let mut nonce: Vec<u8> = Vec::new();
        let mut i: usize = 0;
        while i < NONCE_LEN
            invariant
                i <= NONCE_LEN,
                NONCE_LEN <= bytes@.len(),
                nonce@ == bytes@.take(i as int),
            decreases NONCE_LEN - i,
        {
            nonce.push(bytes[i]);
            i = i + 1;
            assert(nonce@ =~= bytes@.take(i as int));
        }
        let mut rest: Vec<u8> = Vec::new();
        while i < bytes.len()
            invariant
                NONCE_LEN <= i <= bytes@.len(),
                rest@ == bytes@.subrange(NONCE_LEN as int, i as int),
            decreases bytes@.len() - i,
        {
            rest.push(bytes[i]);
            i = i + 1;
            assert(rest@ =~= bytes@.subrange(NONCE_LEN as int, i as int));
        }
        assert(rest@ =~= bytes@.skip(NONCE_LEN as int));
        match open_in_place(&self.key, nonce.as_slice(), rest) {
            Ok(p) => Ok(p),
            Err(_) => Err(Error::AuthenticationFailure),
        }
    }
}

impl Engine for Aes256GcmEngine {
    fn encrypt_bytes(&self, bytes: &[u8]) -> Result<Vec<u8>, Error> {
        Aes256GcmEngine::encrypt_bytes(self, bytes)
    }

    fn decrypt_bytes(&self, bytes: &[u8]) -> Result<Vec<u8>, Error> {
        Aes256GcmEngine::decrypt_bytes(self, bytes)
    }
}

/// Round trip: whatever sealing a plaintext under a key returns, opening it
/// under the same key gives back exactly that plaintext.
pub proof fn lemma_open_inverts_seal(
    key: Seq<u8>,
    plaintext: Seq<u8>,
    sealed: Seq<u8>,
    opened: Result<Seq<u8>, Error>,
)
    requires
        seal_outcome(key, plaintext, Ok(sealed)),
        open_outcome(key, sealed, opened),
    ensures
        opened == Ok::<Seq<u8>, Error>(plaintext),
{
}

/// Altered tags: a sealed payload whose tag, and nothing else, was changed
/// fails to open with `AuthenticationFailure`.
pub proof fn lemma_altered_tag_is_rejected(
    key: Seq<u8>,
    plaintext: Seq<u8>,
    sealed: Seq<u8>,
    altered: Seq<u8>,
    opened: Result<Seq<u8>, Error>,
)
    requires
        seal_outcome(key, plaintext, Ok(sealed)),
        altered.len() == sealed.len(),
        altered.take(sealed.len() - TAG_LEN) == sealed.take(sealed.len() - TAG_LEN),
        altered != sealed,
        open_outcome(key, altered, opened),
    ensures
        opened == Err::<Seq<u8>, Error>(Error::AuthenticationFailure),
{
    let n = sealed.len() - TAG_LEN;
    assert(altered.take(NONCE_LEN as int) =~= sealed.take(NONCE_LEN as int)) by {
        assert(altered.take(n).take(NONCE_LEN as int) == altered.take(NONCE_LEN as int));
        assert(sealed.take(n).take(NONCE_LEN as int) == sealed.take(NONCE_LEN as int));
    }
    let a = altered.skip(NONCE_LEN as int);
    let s = sealed.skip(NONCE_LEN as int);
    assert(a.take(a.len() - TAG_LEN) =~= s.take(s.len() - TAG_LEN)) by {
        assert forall|k: int| 0 <= k < a.len() - TAG_LEN implies a[k] == s[k] by {
            assert(altered.take(n)[k + NONCE_LEN] == sealed.take(n)[k + NONCE_LEN]);
        }
    }
    assert(a != s) by {
        if a == s {
            assert(altered =~= sealed) by {
                assert forall|k: int| 0 <= k < altered.len() implies altered[k] == sealed[k] by {
                    if k < NONCE_LEN {
                        assert(altered.take(NONCE_LEN as int)[k] == sealed.take(
                            NONCE_LEN as int,
                        )[k]);
                    } else {
                        assert(a[k - NONCE_LEN] == s[k - NONCE_LEN]);
                    }
                }
            }
        }
    }
    assert(same_ciphertext(aes_256_gcm_seal(key, altered.take(NONCE_LEN as int), plaintext), a));
}

/// Short buffers: opening anything shorter than a nonce and a tag fails with
/// `MalformedInput`, whatever the key.
pub proof fn lemma_short_input_is_malformed(
    key: Seq<u8>,
    sealed: Seq<u8>,
    opened: Result<Seq<u8>, Error>,
)
    requires
        sealed.len() < MIN_SEALED_LEN,
        open_outcome(key, sealed, opened),
    ensures
        opened == Err::<Seq<u8>, Error>(Error::MalformedInput),
{
}

/// Determinism: two engines built from the same passphrase hold bit-identical
/// 32-byte keys.
pub proof fn lemma_derivation_is_deterministic(
    pass: Seq<char>,
    first: Aes256GcmEngine,
    second: Aes256GcmEngine,
)
    requires
        first.key() == derived_key(pass),
        second.key() == derived_key(pass),
    ensures
        first.key() == second.key(),
        first.key().len() == 32,
{
}

} // verus!
