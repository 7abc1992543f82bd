use vstd::prelude::*;
use crate::cas::error::{CoreError, CoreResult};
use crate::text::{decimal_seq, u64_to_decimal};
use aes_gcm::aead::{Aead, KeyInit};
use rand::RngCore;

verus! {

pub const NONCE_LEN: usize = 12;

/// Largest plaintext AES-GCM accepts, in bytes (2^36).
pub const AES_GCM_MAX_PLAINTEXT: u64 = 68719476736;

/// AES-256-GCM tag length in bytes.
pub const AES_GCM_TAG_LEN: usize = 16;

/// The AES-256-GCM ciphertext (with its 16-byte tag appended) of `plaintext` under `key` and
/// `nonce`, with no associated data.
pub uninterp spec fn aes_gcm_seal(key: Seq<u8>, nonce: Seq<u8>, plaintext: Seq<u8>) -> Seq<u8>;

/// AES-256-GCM decryption of `ciphertext` (tag appended) under `key` and `nonce`: the
/// plaintext, or `None` when the tag does not authenticate it.
pub uninterp spec fn aes_gcm_open(key: Seq<u8>, nonce: Seq<u8>, ciphertext: Seq<u8>) -> Option<
    Seq<u8>,
>;

#[verifier::external_type_specification]
#[verifier::external_body]
pub struct ExAeadError(aes_gcm::Error);

/// Trusted: `Aes256Gcm::encrypt` (aes-gcm 0.10). It fails only when the plaintext exceeds
/// `P_MAX` (2^36 bytes); otherwise it returns the ciphertext, as long as the plaintext, with
/// the 16-byte tag appended, and (AEAD correctness) decrypting it under the same key and nonce
/// gives the plaintext back.
#[verifier::external_body]
fn aes256gcm_encrypt(key: &[u8; 32], nonce: &[u8; 12], plaintext: &[u8]) -> (r: Result<
    Vec<u8>,
    aes_gcm::Error,
>)
    ensures
        r is Ok <==> plaintext@.len() <= AES_GCM_MAX_PLAINTEXT,
        r matches Ok(c) ==> {
            &&& c@ == aes_gcm_seal(key@, nonce@, plaintext@)
            &&& c@.len() == plaintext@.len() + AES_GCM_TAG_LEN
            &&& aes_gcm_open(key@, nonce@, c@) == Some(plaintext@)
        },
{
    aes_gcm::Aes256Gcm::new(key.into()).encrypt(aes_gcm::Nonce::from_slice(nonce), plaintext)
}

/// Trusted: `Aes256Gcm::decrypt` (aes-gcm 0.10), which returns the plaintext exactly when the
/// tag authenticates the ciphertext under the key and nonce; in particular (AEAD correctness)
/// the sealing of a plaintext within `P_MAX` opens back to that plaintext. `Nonce::from_slice`
/// needs a 12-byte nonce.
#[verifier::external_body]
fn aes256gcm_decrypt(key: &[u8; 32], nonce: &[u8], ciphertext: &[u8]) -> (r: Result<
    Vec<u8>,
    aes_gcm::Error,
>)
    requires
        nonce@.len() == 12,
    ensures
        match r {
            Ok(p) => aes_gcm_open(key@, nonce@, ciphertext@) == Some(p@),
            Err(_) => aes_gcm_open(key@, nonce@, ciphertext@) is None,
        },
        r is Err ==> forall|p: Seq<u8>|
            p.len() <= AES_GCM_MAX_PLAINTEXT ==> ciphertext@ != #[trigger] aes_gcm_seal(
                key@,
                nonce@,
                p,
            ),
        r matches Ok(q) ==> forall|p: Seq<u8>|
            p.len() <= AES_GCM_MAX_PLAINTEXT && ciphertext@ == #[trigger] aes_gcm_seal(
                key@,
                nonce@,
                p,
            ) ==> q@ == p,
{
    aes_gcm::Aes256Gcm::new(key.into()).decrypt(aes_gcm::Nonce::from_slice(nonce), ciphertext)
}

/// Trusted: `ThreadRng::fill_bytes` (rand 0.8) overwrites `dest` with random bytes; nothing is
/// known of them but their number.
#[verifier::external_body]
fn fill_random(dest: &mut [u8])
    ensures
        final(dest)@.len() == old(dest)@.len(),
{
    rand::thread_rng().fill_bytes(dest)
}

/// A 256-bit AES-GCM key.
#[derive(Clone)]
pub struct EncryptionKey([u8; 32]);

impl View for EncryptionKey {
    type V = Seq<u8>;

    closed spec fn view(&self) -> Seq<u8> {
        self.0@
    }
}

/// The message `EncryptionKey::from_bytes` gives for a key of the wrong length.
pub open spec fn key_length_error_text(len: nat) -> Seq<char> {
    "expected 32 bytes, got "@ + decimal_seq(len)
}

impl EncryptionKey {
    /// The key whose bytes are `bytes`; it must hold exactly 32 bytes.
    pub fn from_bytes(bytes: &[u8]) -> (r: CoreResult<Self>)
        ensures
            r is Ok <==> bytes@.len() == 32,
            r matches Ok(k) ==> k@ == bytes@,
            r matches Err(e) ==> e == CoreError::InvalidKey(e->InvalidKey_0)
                && e->InvalidKey_0@ == key_length_error_text(bytes@.len()),
    {
        if bytes.len() != 32 {
            let msg = String::from_str("expected 32 bytes, got ").concat(
                u64_to_decimal(bytes.len() as u64).as_str(),
            );
            return Err(CoreError::InvalidKey(msg));
        }
        let mut key = [0u8; 32];
        let mut i: usize = 0;
        while i < 32
            invariant
                bytes@.len() == 32,
                i <= 32,
                forall|j: int| 0 <= j < i ==> key@[j] == bytes@[j],
            decreases 32 - i,
        {
            key[i] = bytes[i];
            i += 1;
        }
        assert(key@ =~= bytes@);
        Ok(EncryptionKey(key))
    }

    /// A fresh random key.
    pub fn generate() -> (r: Self)
        ensures
            r@.len() == 32,
    {
        let mut key = [0u8; 32];
        fill_random(&mut key);
        EncryptionKey(key)
    }

    fn as_slice(&self) -> (r: &[u8; 32])
        ensures
            r@ == self@,
    {
        &self.0
    }

    /// The key in standard, padded base64 (44 characters).
    pub fn to_base64(&self) -> (r: String)
        ensures
            r@ == crate::cas::crypto::base64_encode_seq(self@),
    {
        base64_encode(self.0.as_slice())
    }
}

/// Standard base64 alphabet.
pub open spec fn base64_char(v: int) -> char {
    if v < 26 {
        ((65 + v) as u32) as char
    } else if v < 52 {
        ((97 + v - 26) as u32) as char
    } else if v < 62 {
        ((48 + v - 52) as u32) as char
    } else if v == 62 {
        '+'
    } else {
        '/'
    }
}

/// Standard base64 with `=` padding: every three bytes become four characters.
pub open spec fn base64_encode_seq(b: Seq<u8>) -> Seq<char>
    decreases b.len(),
{
    if b.len() == 0 {
        Seq::empty()
    } else {
        let x0 = b[0] as int;
        if b.len() == 1 {
            seq![base64_char(x0 / 4), base64_char((x0 % 4) * 16), '=', '=']
        } else {
            let x1 = b[1] as int;
            if b.len() == 2 {
                seq![
                    base64_char(x0 / 4),
                    base64_char((x0 % 4) * 16 + x1 / 16),
                    base64_char((x1 % 16) * 4),
                    '=',
                ]
            } else {
                let x2 = b[2] as int;
                seq![
                    base64_char(x0 / 4),
                    base64_char((x0 % 4) * 16 + x1 / 16),
                    base64_char((x1 % 16) * 4 + x2 / 64),
                    base64_char(x2 % 64),
                ] + base64_encode_seq(b.skip(3))
            }
        }
    }
}

fn base64_char_exec(v: u8) -> (c: char)
    requires
        v < 64,
    ensures
        c == base64_char(v as int),
{
    if v < 26 {
        (65u8 + v) as char
    } else if v < 52 {
        (97u8 + v - 26) as char
    } else if v < 62 {
        (48u8 + v - 52) as char
    } else if v == 62 {
        '+'
    } else {
        '/'
    }
}

/// Standard, padded base64 of `b`.
pub fn base64_encode(b: &[u8]) -> (r: String)
    ensures
        r@ == base64_encode_seq(b@),
{
    let n = b.len();
    let mut out = String::new();
    let mut i: usize = 0;
    assert(b@.skip(0) =~= b@);
    assert(out@ + base64_encode_seq(b@) =~= base64_encode_seq(b@));
    while i < n
        invariant
            n == b@.len(),
            i <= n,
            base64_encode_seq(b@) == out@ + base64_encode_seq(b@.skip(i as int)),
        decreases n - i,
    {
        let ghost rest = b@.skip(i as int);
        let b0 = b[i];
        out.push(base64_char_exec(b0 / 4));
        if n - i == 1 {
            out.push(base64_char_exec((b0 % 4) * 16));
            out.push('=');
            out.push('=');
            assert(b@.skip(i + 1).len() == 0);
            i = i + 1;
        } else if n - i == 2 {
            let b1 = b[i + 1];
            out.push(base64_char_exec((b0 % 4) * 16 + b1 / 16));
            out.push(base64_char_exec((b1 % 16) * 4));
            out.push('=');
            assert(b@.skip(i + 2).len() == 0);
            i = i + 2;
        } else {
            let b1 = b[i + 1];
            let b2 = b[i + 2];
            out.push(base64_char_exec((b0 % 4) * 16 + b1 / 16));
            out.push(base64_char_exec((b1 % 16) * 4 + b2 / 64));
            out.push(base64_char_exec(b2 % 64));
            assert(rest.skip(3) =~= b@.skip(i + 3));
            i = i + 3;
        }
        proof {
            let e = base64_encode_seq(b@.skip(i as int));
            assert(e.len() == 0 ==> e =~= Seq::<char>::empty());
        }
    }
    assert(b@.skip(n as int) =~= Seq::<u8>::empty());
    assert(out@ =~= base64_encode_seq(b@));
    out
}

/// A nonce followed by AES-256-GCM ciphertext and tag.
#[derive(Clone, Debug, PartialEq, Eq)]
pub struct Ciphertext {
    pub blob: Vec<u8>,
}

/// What decrypting `blob` under `key` yields: `None` for a blob shorter than the nonce or one
/// the tag does not authenticate.
pub open spec fn open_blob(key: Seq<u8>, blob: Seq<u8>) -> Option<Seq<u8>> {
    if blob.len() < NONCE_LEN {
        None
    } else {
        aes_gcm_open(key, blob.take(NONCE_LEN as int), blob.skip(NONCE_LEN as int))
    }
}

/// `blob` is a nonce followed by the sealing of `plaintext` under `key` and that nonce.
pub open spec fn sealed_blob(key: Seq<u8>, plaintext: Seq<u8>, blob: Seq<u8>) -> bool {
    &&& blob.len() == NONCE_LEN + plaintext.len() + AES_GCM_TAG_LEN
    &&& blob.skip(NONCE_LEN as int) == aes_gcm_seal(key, blob.take(NONCE_LEN as int), plaintext)
}

impl Ciphertext {
    /// Split into nonce and ciphertext-with-tag.
    pub fn parts(&self) -> (r: CoreResult<(&[u8], &[u8])>)
        ensures
            r is Ok <==> self.blob@.len() >= NONCE_LEN,
            r matches Ok((n, c)) ==> n@ == self.blob@.take(NONCE_LEN as int) && c@
                == self.blob@.skip(NONCE_LEN as int),
            r matches Err(e) ==> e == CoreError::Crypto(e->Crypto_0) && e->Crypto_0@
                == "ciphertext shorter than nonce"@,
    {
        if self.blob.len() < NONCE_LEN {
            return Err(CoreError::Crypto(String::from_str("ciphertext shorter than nonce")));
        }
        let n = self.blob.len();
        let s = self.blob.as_slice();
        Ok((&s[0..NONCE_LEN], &s[NONCE_LEN..n]))
    }
}

/// Encrypt under a fresh random nonce; the blob is `nonce || ciphertext || tag`.
pub fn encrypt(key: &EncryptionKey, plaintext: &[u8]) -> (r: CoreResult<Ciphertext>)
    ensures
        r is Ok <==> plaintext@.len() <= AES_GCM_MAX_PLAINTEXT,
        r matches Ok(c) ==> sealed_blob(key@, plaintext@, c.blob@) && open_blob(key@, c.blob@)
            == Some(plaintext@),
        r matches Err(e) ==> e == CoreError::Crypto(e->Crypto_0) && e->Crypto_0@
            == "aead::Error"@,
{
    let mut nonce = [0u8; 12];
    fill_random(&mut nonce);
    let ct = match aes256gcm_encrypt(key.as_slice(), &nonce, plaintext) {
        Ok(c) => c,
        Err(_) => {
            return Err(CoreError::Crypto(String::from_str("aead::Error")));
        },
    };
    let mut blob: Vec<u8> = Vec::new();
    let mut i: usize = 0;
    while i < NONCE_LEN
        invariant
            i <= NONCE_LEN,
            blob@ == nonce@.take(i as int),
            nonce@.len() == NONCE_LEN,
        decreases NONCE_LEN - i,
    {
        blob.push(nonce[i]);
        assert(nonce@.take(i + 1) =~= nonce@.take(i as int).push(nonce@[i as int]));
        i += 1;
    }
    let mut ct = ct;
    let ghost ct_view = ct@;
    blob.append(&mut ct);
    proof {
        assert(nonce@.take(NONCE_LEN as int) =~= nonce@);
        assert(blob@.take(NONCE_LEN as int) =~= nonce@);
        assert(blob@.skip(NONCE_LEN as int) =~= ct_view);
    }
    Ok(Ciphertext { blob })
}

/// Decrypt a blob made by `encrypt`.
pub fn decrypt(key: &EncryptionKey, ciphertext: &Ciphertext) -> (r: CoreResult<Vec<u8>>)
    ensures
        r is Ok <==> open_blob(key@, ciphertext.blob@) is Some,
        r matches Ok(p) ==> open_blob(key@, ciphertext.blob@) == Some(p@),
        forall|p: Seq<u8>|
            p.len() <= AES_GCM_MAX_PLAINTEXT && #[trigger] sealed_blob(key@, p, ciphertext.blob@) ==> (
            r matches Ok(q) && q@ == p),
        r matches Err(e) ==> e == CoreError::Crypto(e->Crypto_0) && e->Crypto_0@ == (if ciphertext.blob@.len()
            < NONCE_LEN {
            "ciphertext shorter than nonce"@
        } else {
            "aead::Error"@
        }),
{
    let (nonce, ct) = match ciphertext.parts() {
        Ok(p) => p,
        Err(e) => {
            return Err(e);
        },
    };
    match aes256gcm_decrypt(key.as_slice(), nonce, ct) {
        Ok(p) => Ok(p),
        Err(_) => Err(CoreError::Crypto(String::from_str("aead::Error"))),
    }
}

/// A key's base64 form is 44 characters long and never empty.
pub proof fn lemma_key_base64_len(b: Seq<u8>)
    requires
        b.len() == 32,
    ensures
        base64_encode_seq(b).len() == 44,
{
    lemma_base64_len(b);
}

/// Base64 turns every started group of three bytes into four characters.
pub proof fn lemma_base64_len(b: Seq<u8>)
    ensures
        base64_encode_seq(b).len() == 4 * ((b.len() + 2) / 3),
    decreases b.len(),
{
    if b.len() >= 3 {
        lemma_base64_len(b.skip(3));
    }
}

} // verus!
