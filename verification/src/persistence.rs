//! Encrypted, authenticated storage of the lock snapshot.
//!
//! The snapshot's serialized bytes are sealed with AES-256-GCM under a random
//! 12-byte nonce, and a SHA-256 tag over key, version, nonce and ciphertext
//! detects tampering before anything is decrypted.

use vstd::prelude::*;
use vstd::string::StringExecFns;
use aes_gcm::aead::{Aead, KeyInit};
use rand::RngCore;
use sha2::Digest;
use crate::domain::LockState;
use crate::error::LockError;
use crate::text::{decimal, digit_char, u128_to_decimal};
use crate::time::TimeValidator;

verus! {

/// Largest plaintext, in bytes, that AES-GCM encrypts.
pub const MAX_PLAINTEXT_LEN: u64 = 68719476736;

/// Version of the stored format.
pub const SNAPSHOT_VERSION: u32 = 1;

#[verifier::external_type_specification]
#[verifier::external_body]
pub struct ExAeadError(aes_gcm::aead::Error);

/// The ciphertext (with its 16-byte tag) that AES-256-GCM produces for `plaintext`
/// under `key` and `nonce`, with no associated data.
pub uninterp spec fn aes_gcm_seal(key: Seq<u8>, nonce: Seq<u8>, plaintext: Seq<u8>) -> Seq<u8>;

/// What AES-256-GCM decryption of `ciphertext` under `key` and `nonce` yields:
/// the plaintext, or `None` when the tag does not authenticate.
pub uninterp spec fn aes_gcm_open(key: Seq<u8>, nonce: Seq<u8>, ciphertext: Seq<u8>) -> Option<Seq<u8>>;

/// The SHA-256 digest of `data`.
pub uninterp spec fn sha256_digest(data: Seq<u8>) -> Seq<u8>;

/// Calls `Aes256Gcm::encrypt` (key and nonce as given). It fails only for a
/// plaintext longer than `MAX_PLAINTEXT_LEN`; on success the result is named
/// [`aes_gcm_seal`].
#[verifier::external_body]
fn aes256_gcm_encrypt(key: &[u8], nonce: &[u8], plaintext: &[u8]) -> (r: Result<Vec<u8>, aes_gcm::aead::Error>)
    requires
        key@.len() == 32,
        nonce@.len() == 12,
    ensures
        r is Ok <==> plaintext@.len() <= MAX_PLAINTEXT_LEN,
        r matches Ok(c) ==> c@ == aes_gcm_seal(key@, nonce@, plaintext@),
{
    let cipher = aes_gcm::Aes256Gcm::new(aes_gcm::Key::<aes_gcm::Aes256Gcm>::from_slice(key));
    cipher.encrypt(aes_gcm::Nonce::from_slice(nonce), plaintext)
}

/// `out` gives back the plaintext whenever `ciphertext` is the sealing of one
/// under `key` and `nonce`.
pub open spec fn recovers_sealed(
    key: Seq<u8>,
    nonce: Seq<u8>,
    ciphertext: Seq<u8>,
    out: Result<Vec<u8>, aes_gcm::aead::Error>,
) -> bool {
    forall|p: Seq<u8>|
        p.len() <= MAX_PLAINTEXT_LEN && #[trigger] aes_gcm_seal(key, nonce, p) == ciphertext ==> (out matches Ok(
            q,
        ) && q@ == p)
}

/// Calls `Aes256Gcm::decrypt`. The result is named [`aes_gcm_open`]; a ciphertext
/// that encryption produced for a plaintext under the same key and nonce decrypts
/// to that plaintext.
#[verifier::external_body]
fn aes256_gcm_decrypt(key: &[u8], nonce: &[u8], ciphertext: &[u8]) -> (r: Result<Vec<u8>, aes_gcm::aead::Error>)
    requires
        key@.len() == 32,
        nonce@.len() == 12,
    ensures
        r matches Ok(p) ==> aes_gcm_open(key@, nonce@, ciphertext@) == Some(p@),
        r is Err ==> aes_gcm_open(key@, nonce@, ciphertext@) is None,
        recovers_sealed(key@, nonce@, ciphertext@, r),
{
    let cipher = aes_gcm::Aes256Gcm::new(aes_gcm::Key::<aes_gcm::Aes256Gcm>::from_slice(key));
    cipher.decrypt(aes_gcm::Nonce::from_slice(nonce), ciphertext)
}

/// Calls `Display::fmt` of `aead::Error`, which writes `aead::Error`.
#[verifier::external_body]
fn aead_error_text(e: &aes_gcm::aead::Error) -> (s: String)
    ensures
        s@ == "aead::Error"@,
{
    e.to_string()
}

/// Calls `Sha256::digest`: the 32-byte digest, named [`sha256_digest`].
#[verifier::external_body]
fn sha256(data: &[u8]) -> (d: Vec<u8>)
    ensures
        d@ == sha256_digest(data@),
        d@.len() == 32,
{
    sha2::Sha256::digest(data).to_vec()
}

#[verifier::external_type_specification]
#[verifier::external_body]
pub struct ExRandError(rand::Error);

/// Calls `RngCore::try_fill_bytes` on `rand::rngs::OsRng`, the operating
/// system's random source, to fill 12 bytes. It fails when that source fails;
/// of the bytes only their number is stated.
#[verifier::external_body]
fn random_nonce() -> (r: Result<Vec<u8>, rand::Error>)
    ensures
        r matches Ok(n) ==> n@.len() == 12,
{
    let mut nonce = [0u8; 12];
    rand::rngs::OsRng.try_fill_bytes(&mut nonce)?;
    Ok(nonce.to_vec())
}

/// Lowercase hexadecimal digit for `n` (`0 <= n < 16`).
pub open spec fn hex_digit(n: int) -> char {
    if n < 10 {
        digit_char(n)
    } else {
        ((97 + n - 10) as u32) as char
    }
}

/// Lowercase hexadecimal text of `bytes`, two digits per byte, high nibble first.
pub open spec fn hex_lower(bytes: Seq<u8>) -> Seq<char>
    decreases bytes.len(),
{
    if bytes.len() == 0 {
        Seq::empty()
    } else {
        hex_lower(bytes.drop_last()) + seq![hex_digit(bytes.last() as int / 16), hex_digit(bytes.last() as int % 16)]
    }
}

/// Calls `hex::encode`, which renders bytes as [`hex_lower`].
#[verifier::external_body]
fn hex_encode(bytes: &[u8]) -> (s: String)
    ensures
        s@ == hex_lower(bytes@),
{
    hex::encode(bytes)
}

/// Little-endian bytes of a `u32`.
pub open spec fn le_bytes(v: u32) -> Seq<u8> {
    seq![
        (v % 256) as u8,
        ((v / 256) % 256) as u8,
        ((v / 65536) % 256) as u8,
        ((v / 16777216) % 256) as u8,
    ]
}

/// The bytes the integrity tag covers: key, version (little-endian), nonce, ciphertext.
pub open spec fn tag_input(key: Seq<u8>, version: u32, nonce: Seq<u8>, ciphertext: Seq<u8>) -> Seq<u8> {
    key + le_bytes(version) + nonce + ciphertext
}

/// The integrity tag over a stored snapshot.
pub open spec fn integrity_tag(key: Seq<u8>, version: u32, nonce: Seq<u8>, ciphertext: Seq<u8>) -> Seq<u8> {
    sha256_digest(tag_input(key, version, nonce, ciphertext))
}

/// A fresh vector holding the bytes of `src`.
fn copy_bytes(src: &[u8]) -> (v: Vec<u8>)
    ensures
        v@ == src@,
{
    let mut v: Vec<u8> = Vec::new();
    let mut i: usize = 0;
    while i < src.len()
        invariant
            i <= src@.len(),
            v@ == src@.take(i as int),
        decreases src.len() - i,
    {
        v.push(src[i]);
        i = i + 1;
        assert(v@ =~= src@.take(i as int));
    }
    assert(src@.take(src@.len() as int) =~= src@);
    v
}

/// Appends the bytes of `src` to `dst`.
fn append_bytes(dst: &mut Vec<u8>, src: &[u8])
    ensures
        final(dst)@ == old(dst)@ + src@,
{
    let mut i: usize = 0;
    while i < src.len()
        invariant
            i <= src@.len(),
            dst@ == old(dst)@ + src@.take(i as int),
        decreases src.len() - i,
    {
        dst.push(src[i]);
        i = i + 1;
        assert(dst@ =~= old(dst)@ + src@.take(i as int));
    }
    assert(src@.take(src@.len() as int) =~= src@);
}

/// Whether `a` and `b` hold the same bytes.
fn bytes_equal(a: &[u8], b: &[u8]) -> (r: bool)
    ensures
        r == (a@ == b@),
{
    if a.len() != b.len() {
        return false;
    }
    let mut i: usize = 0;
    while i < a.len()
        invariant
            a@.len() == b@.len(),
            i <= a@.len(),
            forall|j: int| 0 <= j < i ==> a@[j] == b@[j],
        decreases a.len() - i,
    {
        if a[i] != b[i] {
            return false;
        }
        i = i + 1;
    }
    assert(a@ =~= b@);
    true
}

/// The serialized form of the locked state before encryption: the lock and the
/// time validator with its full anchor history.
#[derive(Debug)]
pub struct LockStateSnapshot {
    /// The lock (rule, start time, end time).
    pub lock_state: LockState,
    /// The time validator with its anchor history.
    pub time_validator: TimeValidator,
}

impl Clone for LockStateSnapshot {
    fn clone(&self) -> (r: Self)
        ensures
            r.lock_state@ == self.lock_state@,
            r.time_validator@ == self.time_validator@,
    {
        LockStateSnapshot { lock_state: self.lock_state.clone(), time_validator: self.time_validator.clone() }
    }
}

/// Abstract value of a stored snapshot.
pub struct SnapshotView {
    pub version: u32,
    pub nonce: Seq<u8>,
    pub ciphertext: Seq<u8>,
    pub hmac: Seq<u8>,
}

/// What is stored: format version, nonce, ciphertext and integrity tag.
#[derive(Debug)]
pub struct EncryptedSnapshot {
    /// Version for future compatibility.
    pub version: u32,
    /// Random nonce, unique per encryption.
    pub nonce: Vec<u8>,
    /// Encrypted snapshot data.
    pub ciphertext: Vec<u8>,
    /// Integrity tag (SHA-256 over key, version, nonce, ciphertext).
    pub hmac: Vec<u8>,
}

impl View for EncryptedSnapshot {
    type V = SnapshotView;

    open spec fn view(&self) -> SnapshotView {
        SnapshotView { version: self.version, nonce: self.nonce@, ciphertext: self.ciphertext@, hmac: self.hmac@ }
    }
}

impl Clone for EncryptedSnapshot {
    fn clone(&self) -> (r: Self)
        ensures
            r@ == self@,
    {
        EncryptedSnapshot {
            version: self.version,
            nonce: copy_bytes(self.nonce.as_slice()),
            ciphertext: copy_bytes(self.ciphertext.as_slice()),
            hmac: copy_bytes(self.hmac.as_slice()),
        }
    }
}

/// `snap` holds `plaintext` sealed under `key`: current version, a 12-byte nonce,
/// the AES-GCM ciphertext and the integrity tag over them.
pub open spec fn sealed(key: Seq<u8>, snap: SnapshotView, plaintext: Seq<u8>) -> bool {
    &&& snap.version == SNAPSHOT_VERSION
    &&& snap.nonce.len() == 12
    &&& plaintext.len() <= MAX_PLAINTEXT_LEN
    &&& snap.ciphertext == aes_gcm_seal(key, snap.nonce, plaintext)
    &&& snap.hmac == integrity_tag(key, snap.version, snap.nonce, snap.ciphertext)
    &&& snap.hmac.len() == 32
}

/// A snapshot the store can hold: none, or one with a 12-byte nonce.
pub open spec fn storable(snapshot: Option<EncryptedSnapshot>) -> bool {
    match snapshot {
        Some(s) => s.nonce@.len() == 12,
        None => true,
    }
}

/// Abstract value of a lock store.
pub struct StoreView {
    pub key: Seq<u8>,
    pub data: Option<SnapshotView>,
}

/// What `load` returns for a store:
/// - nothing stored: `FileIoError`;
/// - tag mismatch: `IntegrityCheckFailed` with both tags in hex;
/// - otherwise the decryption, or `DecryptionFailed` when it does not authenticate;
///   a snapshot sealed from a plaintext gives back that plaintext.
pub open spec fn load_outcome(store: StoreView, r: Result<Vec<u8>, LockError>) -> bool {
    match store.data {
        None => r matches Err(LockError::FileIoError { reason }) && reason@ == "No snapshot data available"@,
        Some(s) => {
            let expected = integrity_tag(store.key, s.version, s.nonce, s.ciphertext);
            if expected != s.hmac {
                r matches Err(LockError::IntegrityCheckFailed { expected_hmac, computed_hmac })
                    && expected_hmac@ == hex_lower(expected) && computed_hmac@ == hex_lower(s.hmac)
            } else {
                &&& match aes_gcm_open(store.key, s.nonce, s.ciphertext) {
                    Some(p) => r matches Ok(v) && v@ == p,
                    None => r matches Err(LockError::DecryptionFailed { reason })
                        && reason@ == "Decryption failed: "@ + "aead::Error"@,
                }
                &&& forall|p: Seq<u8>| #[trigger] sealed(store.key, s, p) ==> (r matches Ok(v) && v@ == p)
            }
        },
    }
}

/// Encrypted, authenticated storage for the lock snapshot.
#[derive(Debug)]
pub struct EncryptedLockStore {
    /// AES-256 key (32 bytes).
    key: Vec<u8>,
    /// The stored snapshot, if any.
    data: Option<EncryptedSnapshot>,
}

impl View for EncryptedLockStore {
    type V = StoreView;

    closed spec fn view(&self) -> StoreView {
        StoreView {
            key: self.key@,
            data: match &self.data {
                Some(s) => Some(s@),
                None => None,
            },
        }
    }
}

impl Clone for EncryptedLockStore {
    fn clone(&self) -> (r: Self)
        ensures
            r@ == self@,
    {
        proof {
            use_type_invariant(self);
        }
        let data = match &self.data {
            Some(s) => Some(s.clone()),
            None => None,
        };
        EncryptedLockStore { key: copy_bytes(self.key.as_slice()), data }
    }
}

impl EncryptedLockStore {
    #[verifier::type_invariant]
    pub open spec fn inv(self) -> bool {
        &&& self@.key.len() == 32
        &&& (self@.data matches Some(s) ==> s.nonce.len() == 12)
    }

    /// Creates an empty store with encryption key `key`.
    ///
    /// Fails with `InvalidEncryptionKey` unless the key is 32 bytes long.
    pub fn new(key: Vec<u8>) -> (r: Result<Self, LockError>)
        ensures
            key@.len() == 32 ==> (r matches Ok(s) && s@.key == key@ && s@.data is None),
            key@.len() != 32 ==> (r matches Err(LockError::InvalidEncryptionKey { reason })
                && reason@ == "Key must be 32 bytes (256 bits), got "@ + decimal(key@.len())),
    {
        if key.len() != 32 {
            let mut reason = String::from_str("Key must be 32 bytes (256 bits), got ");
            reason.append(u128_to_decimal(key.len() as u128).as_str());
            return Err(LockError::InvalidEncryptionKey { reason });
        }
        Ok(EncryptedLockStore { key, data: None })
    }

    /// Computes the integrity tag over version, nonce and ciphertext under this store's key.
    fn compute_hmac(&self, version: u32, nonce: &[u8], ciphertext: &[u8]) -> (tag: Vec<u8>)
        ensures
            tag@ == integrity_tag(self@.key, version, nonce@, ciphertext@),
            tag@.len() == 32,
    {
        let mut input = copy_bytes(self.key.as_slice());
        let le: [u8; 4] = [
            (version % 256) as u8,
            ((version / 256) % 256) as u8,
            ((version / 65536) % 256) as u8,
            ((version / 16777216) % 256) as u8,
        ];
        append_bytes(&mut input, &le);
        assert(le@ =~= le_bytes(version));
        append_bytes(&mut input, nonce);
        append_bytes(&mut input, ciphertext);
        sha256(input.as_slice())
    }

    /// Seals `snapshot_json` (the serialized snapshot) under `nonce` and stores
    /// it, replacing what was stored.
    ///
    /// Fails with `EncryptionFailed` (and changes nothing) exactly when the
    /// bytes are too long to encrypt.
    pub fn persist_with_nonce(&mut self, snapshot_json: &[u8], nonce: Vec<u8>) -> (r: Result<(), LockError>)
        requires
            nonce@.len() == 12,
        ensures
            final(self)@.key == old(self)@.key,
            r is Ok <==> snapshot_json@.len() <= MAX_PLAINTEXT_LEN,
            r is Ok ==> (final(self)@.data matches Some(s) && s.nonce == nonce@ && sealed(
                final(self)@.key,
                s,
                snapshot_json@,
            )),
            r is Err ==> final(self)@ == old(self)@,
            r matches Err(e) ==> (e matches LockError::EncryptionFailed { reason }
                && reason@ == "Encryption failed: "@ + "aead::Error"@),
    {
        proof {
            use_type_invariant(&*self);
        }
        let ciphertext = match aes256_gcm_encrypt(self.key.as_slice(), nonce.as_slice(), snapshot_json) {
            Ok(c) => c,
            Err(e) => {
                let mut reason = String::from_str("Encryption failed: ");
                reason.append(aead_error_text(&e).as_str());
                return Err(LockError::EncryptionFailed { reason });
            },
        };
        let hmac = self.compute_hmac(SNAPSHOT_VERSION, nonce.as_slice(), ciphertext.as_slice());
        self.data = Some(EncryptedSnapshot { version: SNAPSHOT_VERSION, nonce, ciphertext, hmac });
        Ok(())
    }

    /// Seals `snapshot_json` (the serialized snapshot) under a fresh random nonce
    /// from the operating system and stores it, replacing what was stored.
    ///
    /// Fails with `EncryptionFailed` (and changes nothing) when no nonce can be
    /// had ("Failed to generate nonce"), or else when the bytes are too long to
    /// encrypt (see [`EncryptedLockStore::persist_with_nonce`]).
    pub fn persist(&mut self, snapshot_json: &[u8]) -> (r: Result<(), LockError>)
        ensures
            final(self)@.key == old(self)@.key,
            r is Ok ==> snapshot_json@.len() <= MAX_PLAINTEXT_LEN,
            r is Ok ==> (final(self)@.data matches Some(s) && sealed(final(self)@.key, s, snapshot_json@)),
            snapshot_json@.len() > MAX_PLAINTEXT_LEN ==> r is Err,
            r is Err ==> final(self)@ == old(self)@,
            r matches Err(e) ==> (e matches LockError::EncryptionFailed { reason } && (reason@
                == "Failed to generate nonce"@ || (snapshot_json@.len() > MAX_PLAINTEXT_LEN && reason@
                == "Encryption failed: "@ + "aead::Error"@))),
    {
        let nonce = match random_nonce() {
            Ok(n) => n,
            Err(_) => {
                return Err(LockError::EncryptionFailed { reason: String::from_str("Failed to generate nonce") });
            },
        };
        self.persist_with_nonce(snapshot_json, nonce)
    }

    /// Checks the stored snapshot's integrity tag and decrypts it, giving back
    /// the serialized snapshot bytes (see [`load_outcome`]).
    pub fn load(&self) -> (r: Result<Vec<u8>, LockError>)
        ensures
            load_outcome(self@, r),
    {
        proof {
            use_type_invariant(self);
        }
        let encrypted = match &self.data {
            Some(s) => s,
            None => {
                return Err(LockError::FileIoError { reason: String::from_str("No snapshot data available") });
            },
        };
        let expected_hmac = self.compute_hmac(
            encrypted.version,
            encrypted.nonce.as_slice(),
            encrypted.ciphertext.as_slice(),
        );
        if !bytes_equal(expected_hmac.as_slice(), encrypted.hmac.as_slice()) {
            return Err(
                LockError::IntegrityCheckFailed {
                    expected_hmac: hex_encode(expected_hmac.as_slice()),
                    computed_hmac: hex_encode(encrypted.hmac.as_slice()),
                },
            );
        }
        match aes256_gcm_decrypt(self.key.as_slice(), encrypted.nonce.as_slice(), encrypted.ciphertext.as_slice()) {
            Ok(plaintext) => Ok(plaintext),
            Err(e) => {
                let mut reason = String::from_str("Decryption failed: ");
                reason.append(aead_error_text(&e).as_str());
                Err(LockError::DecryptionFailed { reason })
            },
        }
    }

    /// The stored snapshot, if any.
    pub fn stored_snapshot(&self) -> (s: Option<&EncryptedSnapshot>)
        ensures
            s matches Some(v) ==> self@.data == Some(v@),
            s is None <==> self@.data is None,
    {
        match &self.data {
            Some(v) => Some(v),
            None => None,
        }
    }

    /// Replaces the stored snapshot (as read back from disk).
    ///
    /// Fails with `LoadedStateInvalid` (and changes nothing) when the nonce is not 12 bytes.
    pub fn restore_snapshot(&mut self, snapshot: Option<EncryptedSnapshot>) -> (r: Result<(), LockError>)
        ensures
            final(self)@.key == old(self)@.key,
            !storable(snapshot) ==> final(self)@ == old(self)@,
            !storable(snapshot) ==> (r matches Err(LockError::LoadedStateInvalid { reason })
                && reason@ == "Nonce must be 12 bytes"@),
            storable(snapshot) ==> r is Ok,
            storable(snapshot) ==> final(self)@.data == match snapshot {
                Some(s) => Some(s@),
                None => None::<SnapshotView>,
            },
    {
        proof {
            use_type_invariant(&*self);
        }
        if let Some(s) = &snapshot {
            if s.nonce.len() != 12 {
                return Err(LockError::LoadedStateInvalid { reason: String::from_str("Nonce must be 12 bytes") });
            }
        }
        self.data = snapshot;
        Ok(())
    }

    /// Checks that a deserialized snapshot is consistent: its time validator has
    /// a reference anchor and a non-empty history.
    pub fn validate_snapshot(&self, snapshot: &LockStateSnapshot) -> (r: Result<(), LockError>)
        ensures
            snapshot.time_validator@.reference is None ==> (r matches Err(LockError::LoadedStateInvalid { reason })
                && reason@ == "Time validator has no reference anchor"@),
            snapshot.time_validator@.reference is Some && snapshot.time_validator@.history.len() == 0
                ==> (r matches Err(LockError::LoadedStateInvalid { reason })
                && reason@ == "Time validator history is empty"@),
            snapshot.time_validator@.reference is Some && snapshot.time_validator@.history.len() > 0
                ==> r is Ok,
    {
        let validator = &snapshot.time_validator;
        if validator.reference_anchor().is_none() {
            return Err(
                LockError::LoadedStateInvalid { reason: String::from_str("Time validator has no reference anchor") },
            );
        }
        if validator.history().len() == 0 {
            return Err(LockError::LoadedStateInvalid { reason: String::from_str("Time validator history is empty") });
        }
        Ok(())
    }
}


/// What a load gives back of a persist: a store holding a snapshot sealed from
/// some bytes under its key loads exactly those bytes.
pub proof fn law_load_returns_persisted(key: Seq<u8>, snap: SnapshotView, bytes: Seq<u8>, r: Result<Vec<u8>, LockError>)
    requires
        sealed(key, snap, bytes),
        load_outcome(StoreView { key, data: Some(snap) }, r),
    ensures
        r matches Ok(v) && v@ == bytes,
{
}

/// A snapshot whose stored tag does not match its contents under the store's
/// key is refused before anything is decrypted.
pub proof fn law_tampering_is_refused(store: StoreView, snap: SnapshotView, r: Result<Vec<u8>, LockError>)
    requires
        store.data == Some(snap),
        snap.hmac != integrity_tag(store.key, snap.version, snap.nonce, snap.ciphertext),
        load_outcome(store, r),
    ensures
        r matches Err(LockError::IntegrityCheckFailed { .. }),
{
}

} // verus!
