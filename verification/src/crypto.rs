//! Passphrase encryption of exported data: AES-256-GCM under an Argon2id key derived
//! from the passphrase and a random salt; salt, nonce and ciphertext travel as base64.
use vstd::prelude::*;

use aes_gcm::aead::{Aead, AeadCore, KeyInit};
use base64::Engine as _;
use rand::RngCore;

use crate::error::DaemonError;
use crate::text::{concat, has_prefix, owned};

verus! {

/// An encrypted export: base64 salt, base64 nonce and base64 ciphertext.
#[derive(Debug, Clone)]
pub struct EncryptedBlob {
    pub salt: String,
    pub nonce: String,
    pub ciphertext: String,
}

// ── base64 (standard alphabet, with padding) ────────────────────────────────

/// The symbol of a 6-bit value in the standard base64 alphabet.
pub open spec fn b64_symbol(v: int) -> char {
    if v < 26 {
        (65 + v) as char
    } else if v < 52 {
        (97 + (v - 26)) as char
    } else if v < 62 {
        (48 + (v - 52)) as char
    } else if v == 62 {
        '+'
    } else {
        '/'
    }
}

/// Standard base64 with `=` padding: every 3 bytes give 4 symbols.
pub open spec fn base64_encoded(s: Seq<u8>) -> Seq<char>
    decreases s.len(),
{
    if s.len() == 0 {
        Seq::empty()
    } else if s.len() == 1 {
        seq![b64_symbol((s[0] as int) / 4), b64_symbol(((s[0] as int) % 4) * 16), '=', '=']
    } else if s.len() == 2 {
        seq![
            b64_symbol((s[0] as int) / 4),
            b64_symbol(((s[0] as int) % 4) * 16 + (s[1] as int) / 16),
            b64_symbol(((s[1] as int) % 16) * 4),
            '=',
        ]
    } else {
        seq![
            b64_symbol((s[0] as int) / 4),
            b64_symbol(((s[0] as int) % 4) * 16 + (s[1] as int) / 16),
            b64_symbol(((s[1] as int) % 16) * 4 + (s[2] as int) / 64),
            b64_symbol((s[2] as int) % 64),
        ] + base64_encoded(s.subrange(3, s.len() as int))
    }
}

/// Distinct 6-bit values have distinct symbols, none of them the padding `=`.
proof fn lemma_b64_symbol(v: int, w: int)
    requires
        0 <= v < 64,
        0 <= w < 64,
    ensures
        b64_symbol(v) != '=',
        b64_symbol(v) == b64_symbol(w) ==> v == w,
{
}

/// Three bytes are fixed by their four symbols.
proof fn lemma_b64_group(a: u8, b: u8, c: u8, x: u8, y: u8, z: u8)
    requires
        (a as int) / 4 == (x as int) / 4,
        ((a as int) % 4) * 16 + (b as int) / 16 == ((x as int) % 4) * 16 + (y as int) / 16,
        ((b as int) % 16) * 4 + (c as int) / 64 == ((y as int) % 16) * 4 + (z as int) / 64,
        (c as int) % 64 == (z as int) % 64,
    ensures
        a == x && b == y && c == z,
{
    assert(a == x && b == y && c == z) by (nonlinear_arith)
        requires
            (a as int) / 4 == (x as int) / 4,
            ((a as int) % 4) * 16 + (b as int) / 16 == ((x as int) % 4) * 16 + (y as int) / 16,
            ((b as int) % 16) * 4 + (c as int) / 64 == ((y as int) % 16) * 4 + (z as int) / 64,
            (c as int) % 64 == (z as int) % 64,
            0 <= a < 256, 0 <= b < 256, 0 <= c < 256, 0 <= x < 256, 0 <= y < 256, 0 <= z < 256,
    ;
}

proof fn lemma_b64_partial(a: u8, b: u8, x: u8, y: u8)
    requires
        (a as int) / 4 == (x as int) / 4,
        ((a as int) % 4) * 16 + (b as int) / 16 == ((x as int) % 4) * 16 + (y as int) / 16,
        ((b as int) % 16) * 4 == ((y as int) % 16) * 4,
    ensures
        a == x && b == y,
{
    assert(a == x && b == y) by (nonlinear_arith)
        requires
            (a as int) / 4 == (x as int) / 4,
            ((a as int) % 4) * 16 + (b as int) / 16 == ((x as int) % 4) * 16 + (y as int) / 16,
            ((b as int) % 16) * 4 == ((y as int) % 16) * 4,
            0 <= a < 256, 0 <= b < 256, 0 <= x < 256, 0 <= y < 256,
    ;
}

proof fn lemma_b64_single(a: u8, x: u8)
    requires
        (a as int) / 4 == (x as int) / 4,
        ((a as int) % 4) * 16 == ((x as int) % 4) * 16,
    ensures
        a == x,
{
}

/// The encoding is empty only for no bytes, and four symbols long only for one to three.
proof fn lemma_b64_len(s: Seq<u8>)
    ensures
        (s.len() == 0) <==> (base64_encoded(s).len() == 0),
        s.len() > 0 ==> base64_encoded(s).len() >= 4,
        s.len() > 3 ==> base64_encoded(s).len() > 4,
    decreases s.len(),
{
    if s.len() > 3 {
        lemma_b64_len(s.subrange(3, s.len() as int));
    }
}

/// Different bytes have different encodings.
pub proof fn lemma_base64_injective(a: Seq<u8>, b: Seq<u8>)
    requires
        base64_encoded(a) == base64_encoded(b),
    ensures
        a == b,
    decreases a.len(),
{
    let e = base64_encoded(a);
    lemma_b64_len(a);
    lemma_b64_len(b);
    if a.len() == 0 {
        assert(b.len() == 0);
        assert(a =~= b);
        return;
    }
    // the first four symbols are those of the first group
    let a0 = a[0] as int;
    let b0 = b[0] as int;
    lemma_b64_symbol(a0 / 4, b0 / 4);
    if a.len() >= 3 {
        lemma_b64_symbol((a[2] as int) % 64, 0);
    }
    if b.len() >= 3 {
        lemma_b64_symbol((b[2] as int) % 64, 0);
    }
    if a.len() >= 2 {
        lemma_b64_symbol(((a[1] as int) % 16) * 4 + (if a.len() >= 3 { (a[2] as int) / 64 } else { 0 }), 0);
    }
    if b.len() >= 2 {
        lemma_b64_symbol(((b[1] as int) % 16) * 4 + (if b.len() >= 3 { (b[2] as int) / 64 } else { 0 }), 0);
    }
    if a.len() == 1 {
        assert(b.len() == 1);
        lemma_b64_symbol((a0 % 4) * 16, (b0 % 4) * 16);
        lemma_b64_single(a[0], b[0]);
        assert(a =~= b);
    } else if a.len() == 2 {
        assert(b.len() == 2);
        let a1 = a[1] as int;
        let b1 = b[1] as int;
        lemma_b64_symbol((a0 % 4) * 16 + a1 / 16, (b0 % 4) * 16 + b1 / 16);
        lemma_b64_symbol((a1 % 16) * 4, (b1 % 16) * 4);
        lemma_b64_partial(a[0], a[1], b[0], b[1]);
        assert(a =~= b);
    } else {
        assert(b.len() >= 3);
        let a1 = a[1] as int;
        let b1 = b[1] as int;
        let a2 = a[2] as int;
        let b2 = b[2] as int;
        lemma_b64_symbol((a0 % 4) * 16 + a1 / 16, (b0 % 4) * 16 + b1 / 16);
        lemma_b64_symbol((a1 % 16) * 4 + a2 / 64, (b1 % 16) * 4 + b2 / 64);
        lemma_b64_symbol(a2 % 64, b2 % 64);
        let g = seq![
            b64_symbol(a0 / 4),
            b64_symbol((a0 % 4) * 16 + a1 / 16),
            b64_symbol((a1 % 16) * 4 + a2 / 64),
            b64_symbol(a2 % 64),
        ];
        let h = seq![
            b64_symbol(b0 / 4),
            b64_symbol((b0 % 4) * 16 + b1 / 16),
            b64_symbol((b1 % 16) * 4 + b2 / 64),
            b64_symbol(b2 % 64),
        ];
        assert(e == g + base64_encoded(a.subrange(3, a.len() as int)));
        assert(e == h + base64_encoded(b.subrange(3, b.len() as int)));
        assert(e[0] == g[0] && e[0] == h[0]);
        assert(e[1] == g[1] && e[1] == h[1]);
        assert(e[2] == g[2] && e[2] == h[2]);
        assert(e[3] == g[3] && e[3] == h[3]);
        lemma_b64_group(a[0], a[1], a[2], b[0], b[1], b[2]);
        let ra = a.subrange(3, a.len() as int);
        let rb = b.subrange(3, b.len() as int);
        assert(base64_encoded(ra) =~= e.subrange(4, e.len() as int));
        assert(base64_encoded(rb) =~= e.subrange(4, e.len() as int));
        lemma_base64_injective(ra, rb);
        assert(a =~= seq![a[0], a[1], a[2]] + ra);
        assert(b =~= seq![b[0], b[1], b[2]] + rb);
    }
}

/// Decoding the encoding of some bytes gives them back.
pub proof fn lemma_base64_round_trip(b: Seq<u8>)
    ensures
        base64_decoded(base64_encoded(b)) == Some(b),
{
    let s = base64_encoded(b);
    assert(exists|x: Seq<u8>| #[trigger] base64_encoded(x) == s);
    let c = choose|x: Seq<u8>| #[trigger] base64_encoded(x) == s;
    lemma_base64_injective(c, b);
}

/// What base64's `STANDARD.decode` gives for the text `s`: the bytes whose canonical
/// padded encoding is `s`, and `None` when `s` is no such encoding.
pub open spec fn base64_decoded(s: Seq<char>) -> Option<Seq<u8>> {
    if exists|b: Seq<u8>| #[trigger] base64_encoded(b) == s {
        Some(choose|b: Seq<u8>| #[trigger] base64_encoded(b) == s)
    } else {
        None
    }
}

/// Calls base64's `STANDARD.encode`: the standard alphabet with padding.
#[verifier::external_body]
fn b64_encode(bytes: &[u8]) -> (r: String)
    ensures
        r@ == base64_encoded(bytes@),
{
    base64::engine::general_purpose::STANDARD.encode(bytes)
}

/// Calls base64's `STANDARD.decode` on the text; `None` when the text is rejected.
#[verifier::external_body]
fn b64_decode(text: &str) -> (r: Option<Vec<u8>>)
    ensures
        match r {
            Some(v) => base64_decoded(text@) == Some(v@),
            None => base64_decoded(text@) is None,
        },
{
    base64::engine::general_purpose::STANDARD.decode(text).ok()
}

// ── Argon2id key derivation ──────────────────────────────────────────────────

/// What `Argon2::default().hash_password_into` writes into a 32-byte key for the
/// passphrase's UTF-8 bytes and the salt (`None` when it returns an error).
pub uninterp spec fn argon2id_key(passphrase: Seq<char>, salt: Seq<u8>) -> Option<Seq<u8>>;

/// Calls argon2's `Argon2::default().hash_password_into` with a 32-byte output.
/// On success the key is that output; on failure the error's display text is returned,
/// of which nothing is stated.
#[verifier::external_body]
fn argon2_hash_into(passphrase: &str, salt: &[u8]) -> (r: Result<Vec<u8>, String>)
    ensures
        match r {
            Ok(k) => argon2id_key(passphrase@, salt@) == Some(k@) && k@.len() == 32,
            Err(_) => argon2id_key(passphrase@, salt@) is None,
        },
{
    let mut key = [0u8; 32];
    match argon2::Argon2::default().hash_password_into(passphrase.as_bytes(), salt, &mut key) {
        Ok(()) => Ok(key.to_vec()),
        Err(e) => Err(e.to_string()),
    }
}

// ── AES-256-GCM ──────────────────────────────────────────────────────────────

/// What AES-256-GCM encryption gives for key, nonce and plaintext (`None` on error).
pub uninterp spec fn aes_gcm_seal(key: Seq<u8>, nonce: Seq<u8>, plaintext: Seq<u8>) -> Option<
    Seq<u8>,
>;

/// What AES-256-GCM decryption gives for key, nonce and ciphertext (`None` when the
/// ciphertext does not authenticate under that key and nonce).
pub uninterp spec fn aes_gcm_open(key: Seq<u8>, nonce: Seq<u8>, ciphertext: Seq<u8>) -> Option<
    Seq<u8>,
>;

/// Calls aes-gcm's `Aes256Gcm::encrypt`. The ciphertext it produces is the encrypted
/// plaintext followed by the 16-byte tag, and decrypts, under the same key and nonce, to
/// the plaintext.
#[verifier::external_body]
fn aes_seal(key: &[u8], nonce: &[u8], plaintext: &[u8]) -> (r: Option<Vec<u8>>)
    requires
        key@.len() == 32,
        nonce@.len() == 12,
    ensures
        match r {
            Some(c) => aes_gcm_seal(key@, nonce@, plaintext@) == Some(c@) && aes_gcm_open(
                key@,
                nonce@,
                c@,
            ) == Some(plaintext@) && c@.len() == plaintext@.len() + 16,
            None => aes_gcm_seal(key@, nonce@, plaintext@) is None,
        },
{
    let cipher = aes_gcm::Aes256Gcm::new(aes_gcm::Key::<aes_gcm::Aes256Gcm>::from_slice(key));
    cipher.encrypt(aes_gcm::Nonce::from_slice(nonce), plaintext).ok()
}

/// Calls aes-gcm's `Aes256Gcm::decrypt`.
#[verifier::external_body]
fn aes_open(key: &[u8], nonce: &[u8], ciphertext: &[u8]) -> (r: Option<Vec<u8>>)
    requires
        key@.len() == 32,
        nonce@.len() == 12,
    ensures
        match r {
            Some(p) => aes_gcm_open(key@, nonce@, ciphertext@) == Some(p@),
            None => aes_gcm_open(key@, nonce@, ciphertext@) is None,
        },
{
    let cipher = aes_gcm::Aes256Gcm::new(aes_gcm::Key::<aes_gcm::Aes256Gcm>::from_slice(key));
    cipher.decrypt(aes_gcm::Nonce::from_slice(nonce), ciphertext).ok()
}

// ── Randomness ───────────────────────────────────────────────────────────────

/// Fills `n` bytes from rand's `OsRng` with `try_fill_bytes`; `None` when the operating
/// system's random source reports an error. Only the length of the bytes is stated.
#[verifier::external_body]
fn random_bytes(n: usize) -> (r: Option<Vec<u8>>)
    ensures
        r matches Some(v) ==> v@.len() == n,
{
    let mut buf = vec![0u8; n];
    match rand::rngs::OsRng.try_fill_bytes(&mut buf) {
        Ok(()) => Some(buf),
        Err(_) => None,
    }
}

// ── Encryption and decryption ────────────────────────────────────────────────

/// Derives the 32-byte key for `passphrase` and `salt`.
pub fn derive_key(passphrase: &str, salt: &[u8]) -> (r: Result<Vec<u8>, DaemonError>)
    ensures
        match r {
            Ok(k) => argon2id_key(passphrase@, salt@) == Some(k@) && k@.len() == 32,
            Err(e) => argon2id_key(passphrase@, salt@) is None && e is Internal && has_prefix(
                e->Internal_0@,
                "key derivation: "@,
            ),
        },
{
    match argon2_hash_into(passphrase, salt) {
        Ok(k) => Ok(k),
        Err(text) => {
            let m = concat("key derivation: ", text.as_str());
            assert(m@.subrange(0, "key derivation: "@.len() as int) =~= "key derivation: "@);
            Err(DaemonError::Internal(m))
        },
    }
}

/// The blob that encryption gives for the salt and nonce it drew, or `None` when the key
/// derivation or the encryption fails.
pub open spec fn sealed_blob(passphrase: Seq<char>, plaintext: Seq<u8>, salt: Seq<u8>, nonce: Seq<u8>) -> Option<
    (Seq<char>, Seq<char>, Seq<char>),
> {
    match argon2id_key(passphrase, salt) {
        None => None,
        Some(k) => match aes_gcm_seal(k, nonce, plaintext) {
            None => None,
            Some(c) => Some((base64_encoded(salt), base64_encoded(nonce), base64_encoded(c))),
        },
    }
}

/// The text is the base64 of `n` bytes.
pub open spec fn ciphertext_of_len(text: Seq<char>, n: nat) -> bool {
    exists|c: Seq<u8>| c.len() == n && #[trigger] base64_encoded(c) == text
}

pub open spec fn blob_view(b: EncryptedBlob) -> (Seq<char>, Seq<char>, Seq<char>) {
    (b.salt@, b.nonce@, b.ciphertext@)
}

/// Encrypts `plaintext` under `passphrase` with the given salt and nonce.
pub fn encrypt_with(passphrase: &str, plaintext: &[u8], salt: &[u8], nonce: &[u8]) -> (r: Result<
    EncryptedBlob,
    DaemonError,
>)
    requires
        nonce@.len() == 12,
    ensures
        match r {
            Ok(b) => sealed_blob(passphrase@, plaintext@, salt@, nonce@) == Some(blob_view(b))
                && decryption_outcome(passphrase@, blob_view(b)) == DecryptOutcome::Plain(
                plaintext@,
            ) && ciphertext_of_len(b.ciphertext@, plaintext@.len() + 16),
            Err(e) => sealed_blob(passphrase@, plaintext@, salt@, nonce@) is None && e is Internal,
        },
{
    let key = derive_key(passphrase, salt)?;
    match aes_seal(key.as_slice(), nonce, plaintext) {
        Some(ct) => {
            let blob = EncryptedBlob {
                salt: b64_encode(salt),
                nonce: b64_encode(nonce),
                ciphertext: b64_encode(ct.as_slice()),
            };
            assert(base64_encoded(ct@) == blob.ciphertext@);
            proof {
                lemma_base64_round_trip(salt@);
                lemma_base64_round_trip(nonce@);
                lemma_base64_round_trip(ct@);
            }
            Ok(blob)
        },
        None => Err(DaemonError::Internal(owned("encryption: aead::Error"))),
    }
}

/// The message of the error `encrypt` returns when no random salt or nonce can be drawn.
pub open spec fn random_source_error() -> Seq<char> {
    "random source unavailable"@
}

/// Encrypts `plaintext` with AES-256-GCM under a key derived by Argon2id from `passphrase`
/// and a fresh random 16-byte salt, with a fresh random 12-byte nonce. A blob it returns
/// decrypts, under the same passphrase, to the plaintext. When the operating system's random
/// source fails, the error says so.
pub fn encrypt(passphrase: &str, plaintext: &[u8]) -> (r: Result<EncryptedBlob, DaemonError>)
    ensures
        match r {
            Ok(b) => decryption_outcome(passphrase@, blob_view(b)) == DecryptOutcome::Plain(
                plaintext@,
            ) && ciphertext_of_len(b.ciphertext@, plaintext@.len() + 16) && exists|salt: Seq<u8>, nonce: Seq<u8>|
                salt.len() == 16 && nonce.len() == 12 && sealed_blob(
                    passphrase@,
                    plaintext@,
                    salt,
                    nonce,
                ) == Some(blob_view(b)),
            Err(e) => e is Internal && (e->Internal_0@ == random_source_error()
                || exists|salt: Seq<u8>, nonce: Seq<u8>|
                salt.len() == 16 && nonce.len() == 12 && sealed_blob(
                    passphrase@,
                    plaintext@,
                    salt,
                    nonce,
                ) is None),
        },
{
    let salt = match random_bytes(16) {
        Some(s) => s,
        None => return Err(DaemonError::Internal(owned("random source unavailable"))),
    };
    let nonce = match random_bytes(12) {
        Some(n) => n,
        None => return Err(DaemonError::Internal(owned("random source unavailable"))),
    };
    encrypt_with(passphrase, plaintext, salt.as_slice(), nonce.as_slice())
}

/// How decryption of a blob ends.
pub enum DecryptOutcome {
    Plain(Seq<u8>),
    BadSaltEncoding,
    BadNonceEncoding,
    BadCiphertextEncoding,
    BadNonceLength,
    KeyDerivationFailed,
    AuthenticationFailed,
}

/// The outcome of decrypting the blob `(salt, nonce, ciphertext)` under `passphrase`.
pub open spec fn decryption_outcome(passphrase: Seq<char>, blob: (Seq<char>, Seq<char>, Seq<char>)) -> DecryptOutcome {
    match (base64_decoded(blob.0), base64_decoded(blob.1), base64_decoded(blob.2)) {
        (None, _, _) => DecryptOutcome::BadSaltEncoding,
        (Some(_), None, _) => DecryptOutcome::BadNonceEncoding,
        (Some(_), Some(_), None) => DecryptOutcome::BadCiphertextEncoding,
        (Some(salt), Some(nonce), Some(ct)) => if nonce.len() != 12 {
            DecryptOutcome::BadNonceLength
        } else {
            match argon2id_key(passphrase, salt) {
                None => DecryptOutcome::KeyDerivationFailed,
                Some(k) => match aes_gcm_open(k, nonce, ct) {
                    None => DecryptOutcome::AuthenticationFailed,
                    Some(p) => DecryptOutcome::Plain(p),
                },
            }
        },
    }
}

/// The message of the error that decryption returns for a failed outcome.
pub open spec fn decryption_error_text(o: DecryptOutcome) -> Seq<char> {
    match o {
        DecryptOutcome::BadSaltEncoding => "invalid salt encoding"@,
        DecryptOutcome::BadNonceEncoding => "invalid nonce encoding"@,
        DecryptOutcome::BadCiphertextEncoding => "invalid ciphertext encoding"@,
        DecryptOutcome::BadNonceLength => "invalid nonce length"@,
        DecryptOutcome::AuthenticationFailed => "decryption failed: wrong passphrase or corrupted data"@,
        _ => "key derivation: "@,
    }
}

/// Decrypts a blob made by `encrypt`. Each failure gives `DaemonError::Internal` with the
/// message of `decryption_error_text` (for a failed key derivation, a message that starts
/// with "key derivation: ").
pub fn decrypt(passphrase: &str, blob: &EncryptedBlob) -> (r: Result<Vec<u8>, DaemonError>)
    ensures
        match decryption_outcome(passphrase@, blob_view(*blob)) {
            DecryptOutcome::Plain(p) => r is Ok && r->Ok_0@ == p,
            DecryptOutcome::KeyDerivationFailed => r is Err && r->Err_0 is Internal && has_prefix(
                r->Err_0->Internal_0@,
                "key derivation: "@,
            ),
            o => r is Err && r->Err_0 is Internal && r->Err_0->Internal_0@ == decryption_error_text(o),
        },
{
    let salt = match b64_decode(blob.salt.as_str()) {
        Some(s) => s,
        None => return Err(DaemonError::Internal(owned("invalid salt encoding"))),
    };
    let nonce = match b64_decode(blob.nonce.as_str()) {
        Some(n) => n,
        None => return Err(DaemonError::Internal(owned("invalid nonce encoding"))),
    };
    let ciphertext = match b64_decode(blob.ciphertext.as_str()) {
        Some(c) => c,
        None => return Err(DaemonError::Internal(owned("invalid ciphertext encoding"))),
    };
    if nonce.len() != 12 {
        return Err(DaemonError::Internal(owned("invalid nonce length")));
    }
    let key = derive_key(passphrase, salt.as_slice())?;
    match aes_open(key.as_slice(), nonce.as_slice(), ciphertext.as_slice()) {
        Some(p) => Ok(p),
        None => Err(
            DaemonError::Internal(owned("decryption failed: wrong passphrase or corrupted data")),
        ),
    }
}

} // verus!
