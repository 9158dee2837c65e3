//! Cryptographic envelope: per-job key agreement, authenticated encryption
//! and signing.
//!
//! The outside primitives (X25519, XChaCha20-Poly1305, Ed25519) are called
//! through trusted wrappers; what each returns is given a name, and the
//! envelope logic around the calls is verified against those names.

use crate::error::Error;
use chacha20poly1305::aead::Aead;
use chacha20poly1305::KeyInit;
use ed25519_dalek::Signer;
use ed25519_dalek::Verifier;
use rand::Rng;
use vstd::prelude::*;

verus! {

pub const X25519_PRIVATE_KEY_SIZE: usize = 32;

pub const X25519_PUBLIC_KEY_SIZE: usize = 32;

pub const XCHACHA20_POLY1305_NONCE_SIZE: usize = 24;

pub const XCHACHA20_POLY1305_KEY_SIZE: usize = 32;

pub const ED25519_PUBLIC_KEY_SIZE: usize = 32;

pub const ED25519_PRIVATE_KEY_SIZE: usize = 32;

pub const ED25519_SIGNATURE_SIZE: usize = 64;

/// The longest plaintext XChaCha20-Poly1305 seals: the cipher's 32-bit block
/// counter yields 2^32 - 1 keystream blocks of 64 bytes for the message
/// (block zero keys the authenticator), and sealing anything shorter
/// succeeds.
pub const XCHACHA20_POLY1305_MAX_PLAINTEXT_SIZE: u64 = 0xFFFF_FFFF * 64;

// all keys are 256-bit values
pub type SharedKey = [u8; 32];

pub type PublicKey = [u8; 32];

pub type PrivateKey = [u8; 32];

/// The X25519 public key derived from a private scalar.
pub uninterp spec fn x25519_public_of(private_key: Seq<u8>) -> Seq<u8>;

/// The X25519 shared secret: the peer's public point multiplied by the
/// clamped local scalar.  The Montgomery ladder is total, so this is a pure
/// function of the local private scalar and the peer's public key bytes,
/// whatever those bytes are.
pub uninterp spec fn x25519_shared(private_key: Seq<u8>, peer_public_key: Seq<u8>) -> Seq<u8>;

/// The XChaCha20-Poly1305 sealing of a plaintext under a key and nonce:
/// ciphertext with the authentication tag appended.
pub uninterp spec fn xchacha_seal(key: Seq<u8>, nonce: Seq<u8>, plaintext: Seq<u8>) -> Seq<u8>;

/// The Ed25519 verification key derived from a secret seed.
pub uninterp spec fn ed25519_public_of(private_key: Seq<u8>) -> Seq<u8>;

/// The Ed25519 signature of a message under a secret seed; Ed25519 signing is
/// deterministic (RFC 8032).
pub uninterp spec fn ed25519_signature(private_key: Seq<u8>, message: Seq<u8>) -> Seq<u8>;

/// Whether Ed25519 verification accepts `signature` on `message` under
/// `public_key`.
pub uninterp spec fn ed25519_verifies(
    public_key: Seq<u8>,
    message: Seq<u8>,
    signature: Seq<u8>,
) -> bool;

/// Relies on `x25519_dalek::PublicKey::from(&StaticSecret)`: the public key is
/// computed from the clamped private scalar alone.
#[verifier::external_body]
pub(crate) fn public_from_private(private_key: &PrivateKey) -> (r: PublicKey)
    ensures
        r@ == x25519_public_of(private_key@),
{
    let secret = x25519_dalek::StaticSecret::from(*private_key);
    x25519_dalek::PublicKey::from(&secret).to_bytes()
}

/// Relies on `x25519_dalek::StaticSecret::diffie_hellman`: the shared secret
/// is the peer's public point multiplied by the clamped local scalar — a
/// deterministic function of the two arguments.  When the peer's key was
/// derived from a scalar `b`, the secret is the x-coordinate of the product
/// of both clamped scalars with the base point, so each side derives the
/// same value from the other's public key.
#[verifier::external_body]
pub fn get_shared_key(private_key: PrivateKey, public_key: PublicKey) -> (r: SharedKey)
    ensures
        r@ == x25519_shared(private_key@, public_key@),
        forall|b: Seq<u8>|
            public_key@ == x25519_public_of(b) ==> r@ == x25519_shared(
                b,
                x25519_public_of(private_key@),
            ),
{
    let own_secret = x25519_dalek::StaticSecret::from(private_key);
    let their_public = x25519_dalek::PublicKey::from(public_key);
    own_secret.diffie_hellman(&their_public).to_bytes()
}

/// Key-agreement symmetry: for any two private keys, the shared key one side
/// derives from the other's public key equals the shared key the other side
/// derives in turn.  Returns both, proved equal.
pub fn agree_pair(a_private: &PrivateKey, b_private: &PrivateKey) -> (r: (SharedKey, SharedKey))
    ensures
        r.0@ == r.1@,
        r.0@ == x25519_shared(a_private@, x25519_public_of(b_private@)),
        r.1@ == x25519_shared(b_private@, x25519_public_of(a_private@)),
{
    let a_public = public_from_private(a_private);
    let b_public = public_from_private(b_private);
    let k_a = get_shared_key(*a_private, b_public);
    let k_b = get_shared_key(*b_private, a_public);
    (k_a, k_b)
}

/// Relies on `rand::rngs::OsRng`: fresh random bytes from the operating
/// system; nothing is promised of the value.
#[verifier::external_body]
fn random_nonce() -> (r: [u8; 24])
{
    let mut n = [0u8; 24];
    rand::rngs::OsRng.fill(&mut n);
    n
}

/// Relies on `rand::rngs::OsRng`: fresh random bytes from the operating
/// system; nothing is promised of the value.
#[verifier::external_body]
fn random_key() -> (r: [u8; 32])
{
    let mut k = [0u8; 32];
    rand::rngs::OsRng.fill(&mut k);
    k
}

/// Relies on `chacha20poly1305::XChaCha20Poly1305::encrypt`: the ciphertext
/// is a deterministic function of key, nonce and plaintext, with the 16-byte
/// Poly1305 tag appended.
#[verifier::external_body]
fn aead_seal(key: &SharedKey, nonce: &[u8; 24], plaintext: &[u8]) -> (r: Result<Vec<u8>, Error>)
    ensures
        r matches Ok(ct) ==> ct@ == xchacha_seal(key@, nonce@, plaintext@) && ct@.len()
            == plaintext@.len() + 16,
        plaintext@.len() < XCHACHA20_POLY1305_MAX_PLAINTEXT_SIZE ==> r is Ok,
        r matches Err(e) ==> e.is_encryption(),
{
    let cipher = chacha20poly1305::XChaCha20Poly1305::new(chacha20poly1305::Key::from_slice(key));
    match cipher.encrypt(chacha20poly1305::XNonce::from_slice(nonce), plaintext) {
        Ok(ct) => Ok(ct),
        Err(_) => Err(Error::EncryptionError(format!("encryption failed"))),
    }
}

/// Relies on `chacha20poly1305::XChaCha20Poly1305::decrypt`: under a fixed
/// key and nonce the cipher is a bijection on the message body and the tag is
/// a function of it, so decryption succeeds exactly on sealed inputs and
/// inverts sealing; anything else fails authentication.
#[verifier::external_body]
fn aead_open(key: &SharedKey, nonce: &[u8; 24], ciphertext: &[u8]) -> (r: Result<Vec<u8>, Error>)
    ensures
        r matches Ok(p) ==> ciphertext@ == xchacha_seal(key@, nonce@, p@) && (forall|pt: Seq<u8>|
            ciphertext@ == xchacha_seal(key@, nonce@, pt) ==> pt == p@),
        r matches Err(e) ==> e.is_encryption() && (forall|pt: Seq<u8>|
            ciphertext@ != xchacha_seal(key@, nonce@, pt)),
{
    let cipher = chacha20poly1305::XChaCha20Poly1305::new(chacha20poly1305::Key::from_slice(key));
    match cipher.decrypt(chacha20poly1305::XNonce::from_slice(nonce), ciphertext) {
        Ok(pt) => Ok(pt),
        Err(_) => Err(Error::EncryptionError(format!("authentication failed"))),
    }
}

/// Relies on `ed25519_dalek::SigningKey` and the `Signer` impl: RFC 8032
/// signing, deterministic in the seed and message.
#[verifier::external_body]
pub(crate) fn sign_bytes(private_key: &[u8; 32], message: &[u8]) -> (r: [u8; 64])
    ensures
        r@ == ed25519_signature(private_key@, message@),
{
    let key = ed25519_dalek::SigningKey::from_bytes(private_key);
    key.sign(message).to_bytes()
}

/// Relies on `ed25519_dalek::VerifyingKey::verify`: deterministic in key,
/// message and signature, and accepts every signature genuinely produced with
/// the matching signing key.  An undecodable public key verifies nothing.
#[verifier::external_body]
pub(crate) fn verify_bytes(public_key: &[u8; 32], message: &[u8], signature: &[u8; 64]) -> (r:
    bool)
    ensures
        r == ed25519_verifies(public_key@, message@, signature@),
        forall|p: Seq<u8>|
            public_key@ == ed25519_public_of(p) && signature@ == ed25519_signature(p, message@)
                ==> r,
{
    match ed25519_dalek::VerifyingKey::from_bytes(public_key) {
        Ok(vk) => vk.verify(message, &ed25519_dalek::Signature::from_bytes(signature)).is_ok(),
        Err(_) => false,
    }
}

/// Relies on `ed25519_dalek::SigningKey::verifying_key`: the verification key
/// is derived from the seed alone.
#[verifier::external_body]
pub(crate) fn ed25519_public_from_private(private_key: &[u8; 32]) -> (r: [u8; 32])
    ensures
        r@ == ed25519_public_of(private_key@),
{
    ed25519_dalek::SigningKey::from_bytes(private_key).verifying_key().to_bytes()
}

pub trait Encrypt<A> {
    fn encrypt() -> Result<Encrypted, Error>;
}

pub trait Decrypt<A> {
    fn decrypt() -> Result<Vec<u8>, Error>;
}

/// The ghost value of an `Encrypted`.
pub struct EncryptedView {
    pub nonce: Seq<u8>,
    pub ciphertext: Seq<u8>,
}

/// A sealed box: random nonce plus authenticated ciphertext.
#[derive(Clone)]
pub struct Encrypted {
    nonce: [u8; 24],
    ciphertext: Vec<u8>,
}

impl View for Encrypted {
    type V = EncryptedView;

    closed spec fn view(&self) -> EncryptedView {
        EncryptedView { nonce: self.nonce@, ciphertext: self.ciphertext@ }
    }
}

impl Encrypted {
    /// Assemble a box from its parts (as read off the wire).
    pub fn assemble(nonce: [u8; 24], ciphertext: Vec<u8>) -> (r: Encrypted)
        ensures
            r@.nonce == nonce@,
            r@.ciphertext == ciphertext@,
    {
        Encrypted { nonce, ciphertext }
    }

    pub fn nonce(&self) -> (r: &[u8; 24])
        ensures
            r@ == self@.nonce,
    {
        &self.nonce
    }

    pub fn ciphertext(&self) -> (r: &Vec<u8>)
        ensures
            r@ == self@.ciphertext,
    {
        &self.ciphertext
    }

    /// Seal `data` under `shared_key` with a fresh random nonce.
    pub fn from_byte_array(shared_key: SharedKey, data: &[u8]) -> (r: Result<Encrypted, Error>)
        ensures
            r matches Ok(enc) ==> enc@.ciphertext == xchacha_seal(shared_key@, enc@.nonce, data@)
                && enc@.ciphertext.len() == data@.len() + 16,
            data@.len() < XCHACHA20_POLY1305_MAX_PLAINTEXT_SIZE ==> r is Ok,
            r matches Err(e) ==> e.is_encryption(),
    {
        let raw_nonce = random_nonce();
        let ciphertext = match aead_seal(&shared_key, &raw_nonce, data) {
            Ok(ct) => ct,
            Err(e) => {
                return Err(e);
            },
        };
        Ok(Encrypted { nonce: raw_nonce, ciphertext })
    }

    /// Open the box under `shared_key`.  Succeeds exactly on what was sealed
    /// under this key and nonce, and then returns that plaintext; anything
    /// else fails authentication.
    pub fn decrypt(&self, shared_key: SharedKey) -> (r: Result<Vec<u8>, Error>)
        ensures
            forall|pt: Seq<u8>|
                self@.ciphertext == xchacha_seal(shared_key@, self@.nonce, pt) ==> (
                r matches Ok(p) && p@ == pt),
            r matches Ok(p) ==> self@.ciphertext == xchacha_seal(shared_key@, self@.nonce, p@),
            r matches Err(e) ==> e.is_encryption(),
    {
        aead_open(&shared_key, &self.nonce, self.ciphertext.as_slice())
    }
}

/// Envelope round-trip: sealing then opening under one key gives the data
/// back unchanged, and the box in between really is the sealing of the data;
/// opening never returns corrupted plaintext.
pub fn seal_open(shared_key: SharedKey, data: &[u8]) -> (r: Result<(Encrypted, Vec<u8>), Error>)
    ensures
        r matches Ok(p) ==> p.0@.ciphertext == xchacha_seal(shared_key@, p.0@.nonce, data@)
            && p.1@ == data@,
        data@.len() < XCHACHA20_POLY1305_MAX_PLAINTEXT_SIZE ==> r is Ok,
        r matches Err(e) ==> e.is_encryption(),
{
    let enc = match Encrypted::from_byte_array(shared_key, data) {
        Ok(enc) => enc,
        Err(e) => {
            return Err(e);
        },
    };
    let opened = match enc.decrypt(shared_key) {
        Ok(p) => p,
        Err(e) => {
            return Err(e);
        },
    };
    Ok((enc, opened))
}

/// An ephemeral key-agreement context: a fresh public key and the shared key
/// it yields against a peer's long-term public key.
#[derive(Clone)]
pub struct CryptoContext {
    pub public_key: PublicKey,
    pub shared_key: SharedKey,
}

impl CryptoContext {
    /// Generate a fresh ephemeral keypair and agree with `server_public_key`.
    /// The context's public key is genuinely derived from some private scalar,
    /// and the shared key is the agreement of that scalar with the peer's.
    pub fn new(server_public_key: PublicKey) -> (r: CryptoContext)
        ensures
            exists|p: Seq<u8>|
                r.public_key@ == x25519_public_of(p) && r.shared_key@ == x25519_shared(
                    p,
                    server_public_key@,
                ),
    {
        let raw_private_key = random_key();
        let public_key = public_from_private(&raw_private_key);
        let shared_key = get_shared_key(raw_private_key, server_public_key);
        proof {
            assert(public_key@ == x25519_public_of(raw_private_key@));
        }
        CryptoContext { public_key, shared_key }
    }
}

/// The byte string an envelope signature covers: the sender's ephemeral
/// public key followed by the ciphertext.
pub open spec fn envelope_message(ephemeral_public_key: Seq<u8>, ciphertext: Seq<u8>) -> Seq<u8> {
    ephemeral_public_key + ciphertext
}

/// Sign an envelope (ephemeral public key + ciphertext) with an identity key.
pub fn sign_envelope(signing_key: &[u8; 32], ephemeral_public_key: &PublicKey, enc: &Encrypted) -> (
    r: [u8; 64])
    ensures
        r@ == ed25519_signature(
            signing_key@,
            envelope_message(ephemeral_public_key@, enc@.ciphertext),
        ),
{
    let mut message: Vec<u8> = Vec::new();
    message.extend_from_slice(ephemeral_public_key.as_slice());
    message.extend_from_slice(enc.ciphertext().as_slice());
    proof {
        assert(message@ =~= envelope_message(ephemeral_public_key@, enc@.ciphertext));
    }
    sign_bytes(signing_key, message.as_slice())
}

/// A sealed, signed job envelope: the sender's fresh key-agreement public
/// key, the sealed box, and the sender's signature over both.
#[derive(Clone)]
pub struct SealedEnvelope {
    pub ephemeral_public_key: PublicKey,
    pub encrypted: Encrypted,
    pub signature: [u8; 64],
}

/// Server side of a job dispatch: seal `payload` to the agent's long-term
/// prekey under a fresh ephemeral key, and sign the envelope (ephemeral
/// public key + ciphertext) with the server's identity key.
pub fn wrap_job(
    server_signing_key: &[u8; 32],
    agent_prekey: &PublicKey,
    payload: &[u8],
) -> (r: Result<SealedEnvelope, Error>)
    ensures
        r matches Ok(env) ==> env.signature@ == ed25519_signature(
            server_signing_key@,
            envelope_message(env.ephemeral_public_key@, env.encrypted@.ciphertext),
        ) && (exists|p: Seq<u8>|
            env.ephemeral_public_key@ == x25519_public_of(p) && env.encrypted@.ciphertext
                == xchacha_seal(
                x25519_shared(p, agent_prekey@),
                env.encrypted@.nonce,
                payload@,
            )),
        payload@.len() < XCHACHA20_POLY1305_MAX_PLAINTEXT_SIZE ==> r is Ok,
        r matches Err(e) ==> e.is_encryption(),
{
    let raw_private_key = random_key();
    let ephemeral_public_key = public_from_private(&raw_private_key);
    let shared_key = get_shared_key(raw_private_key, *agent_prekey);
    let encrypted = match Encrypted::from_byte_array(shared_key, payload) {
        Ok(enc) => enc,
        Err(e) => {
            return Err(e);
        },
    };
    let signature = sign_envelope(server_signing_key, &ephemeral_public_key, &encrypted);
    let env = SealedEnvelope { ephemeral_public_key, encrypted, signature };
    proof {
        assert(env.ephemeral_public_key@ == x25519_public_of(raw_private_key@));
    }
    Ok(env)
}

/// Agent side of a job dispatch: verify the envelope signature against the
/// server's known identity key, then derive the shared key from the agent's
/// own prekey and the envelope's ephemeral key, and open the box.  A bad
/// signature is rejected before any decryption is attempted.
pub fn unwrap_job(
    agent_private_key: &PrivateKey,
    server_identity_key: &PublicKey,
    env: &SealedEnvelope,
) -> (r: Result<Vec<u8>, Error>)
    ensures
        !ed25519_verifies(
            server_identity_key@,
            envelope_message(env.ephemeral_public_key@, env.encrypted@.ciphertext),
            env.signature@,
        ) ==> (r matches Err(e) && e.is_encryption()),
        forall|pt: Seq<u8>|
            (ed25519_verifies(
                server_identity_key@,
                envelope_message(env.ephemeral_public_key@, env.encrypted@.ciphertext),
                env.signature@,
            ) && env.encrypted@.ciphertext == xchacha_seal(
                x25519_shared(agent_private_key@, env.ephemeral_public_key@),
                env.encrypted@.nonce,
                pt,
            )) ==> (r matches Ok(out) && out@ == pt),
        forall|k: Seq<u8>, p: Seq<u8>, pt: Seq<u8>|
            (server_identity_key@ == ed25519_public_of(k) && env.signature@ == ed25519_signature(
                k,
                envelope_message(env.ephemeral_public_key@, env.encrypted@.ciphertext),
            ) && env.ephemeral_public_key@ == x25519_public_of(p) && env.encrypted@.ciphertext
                == xchacha_seal(
                x25519_shared(p, x25519_public_of(agent_private_key@)),
                env.encrypted@.nonce,
                pt,
            )) ==> (r matches Ok(out) && out@ == pt),
        r matches Err(e) ==> e.is_encryption(),
{
    let shared_key = get_shared_key(*agent_private_key, env.ephemeral_public_key);
    open_envelope(
        server_identity_key,
        &env.signature,
        &env.ephemeral_public_key,
        shared_key,
        &env.encrypted,
    )
}

/// End-to-end dispatch round-trip: a payload sealed and signed for an agent,
/// then verified and opened by that agent, comes back unchanged — the two
/// sides agree on the key without ever transmitting it, and the signature
/// made with the matching identity key is accepted.
pub fn dispatch_round_trip(
    server_signing_key: &[u8; 32],
    agent_private_key: &PrivateKey,
    payload: &[u8],
) -> (r: Result<(SealedEnvelope, Vec<u8>), Error>)
    ensures
        r matches Ok(p) ==> p.1@ == payload@ && p.0.signature@ == ed25519_signature(
            server_signing_key@,
            envelope_message(p.0.ephemeral_public_key@, p.0.encrypted@.ciphertext),
        ),
        payload@.len() < XCHACHA20_POLY1305_MAX_PLAINTEXT_SIZE ==> r is Ok,
        r matches Err(e) ==> e.is_encryption(),
{
    let agent_prekey = public_from_private(agent_private_key);
    let env = match wrap_job(server_signing_key, &agent_prekey, payload) {
        Ok(env) => env,
        Err(e) => {
            return Err(e);
        },
    };
    let server_identity_key = ed25519_public_from_private(server_signing_key);
    let ghost p_scalar = choose|p: Seq<u8>|
        env.ephemeral_public_key@ == x25519_public_of(p) && env.encrypted@.ciphertext
            == xchacha_seal(x25519_shared(p, agent_prekey@), env.encrypted@.nonce, payload@);
    let out = match unwrap_job(agent_private_key, &server_identity_key, &env) {
        Ok(out) => out,
        Err(e) => {
            proof {
                assert(agent_prekey@ == x25519_public_of(agent_private_key@));
                assert(env.encrypted@.ciphertext == xchacha_seal(
                    x25519_shared(p_scalar, x25519_public_of(agent_private_key@)),
                    env.encrypted@.nonce,
                    payload@,
                ));
            }
            return Err(e);
        },
    };
    Ok((env, out))
}

/// Verify-then-decrypt: check the envelope signature against the sender's
/// identity key first; a bad signature is rejected before any decryption is
/// attempted.  With a good signature, decryption succeeds exactly on what was
/// sealed under `shared_key` and the box's nonce.
pub fn open_envelope(
    sender_identity_key: &PublicKey,
    signature: &[u8; 64],
    ephemeral_public_key: &PublicKey,
    shared_key: SharedKey,
    enc: &Encrypted,
) -> (r: Result<Vec<u8>, Error>)
    ensures
        !ed25519_verifies(
            sender_identity_key@,
            envelope_message(ephemeral_public_key@, enc@.ciphertext),
            signature@,
        ) ==> (r matches Err(e) && e.is_encryption()),
        forall|pt: Seq<u8>|
            (ed25519_verifies(
                sender_identity_key@,
                envelope_message(ephemeral_public_key@, enc@.ciphertext),
                signature@,
            ) && enc@.ciphertext == xchacha_seal(shared_key@, enc@.nonce, pt)) ==> (
            r matches Ok(p) && p@ == pt),
        forall|k: Seq<u8>, pt: Seq<u8>|
            (sender_identity_key@ == ed25519_public_of(k) && signature@ == ed25519_signature(
                k,
                envelope_message(ephemeral_public_key@, enc@.ciphertext),
            ) && enc@.ciphertext == xchacha_seal(shared_key@, enc@.nonce, pt)) ==> (
            r matches Ok(p) && p@ == pt),
        r matches Ok(p) ==> enc@.ciphertext == xchacha_seal(shared_key@, enc@.nonce, p@),
        r matches Err(e) ==> e.is_encryption(),
    {
    let mut message: Vec<u8> = Vec::new();
    message.extend_from_slice(ephemeral_public_key.as_slice());
    message.extend_from_slice(enc.ciphertext().as_slice());
    proof {
        assert(message@ =~= envelope_message(ephemeral_public_key@, enc@.ciphertext));
    }
    if !verify_bytes(sender_identity_key, message.as_slice(), signature) {
        return Err(Error::EncryptionError(String::from_str("signature verification failed")));
    }
    enc.decrypt(shared_key)
}

} // verus!
