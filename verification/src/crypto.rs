use vstd::prelude::*;

verus! {

/// The text that the standard base64 encoding yields for a byte string.
pub uninterp spec fn b64_of(b: Seq<u8>) -> Seq<char>;

/// What standard base64 decoding yields for a text: the decoded bytes, or
/// nothing when the text is not valid base64.
pub uninterp spec fn b64_decode_of(s: Seq<char>) -> Option<Seq<u8>>;

/// The public key bytes that Ed25519 derives from 32 secret key bytes.
pub uninterp spec fn pubkey_of(secret: Seq<u8>) -> Seq<u8>;

/// The signature bytes that Ed25519 signing yields for a secret key and a
/// message; the scheme is deterministic, so they are a function of the two.
pub uninterp spec fn sig_of(secret: Seq<u8>, msg: Seq<char>) -> Seq<u8>;

/// Whether an Ed25519 check of signature bytes against public key bytes and
/// a message accepts; byte strings that are no valid key or signature are
/// simply rejected.
pub uninterp spec fn ed_verify_ok(public: Seq<u8>, msg: Seq<char>, sig: Seq<u8>) -> bool;

/// An ephemeral signing key pair, held as its byte encodings: 32 secret key
/// bytes and the 32 public key bytes derived from them. Generated fresh for
/// one erase operation and discarded afterwards; the secret half never
/// appears in any record.
pub struct KeyPair {
    pub secret: Vec<u8>,
    pub public: Vec<u8>,
}

impl KeyPair {
    /// The public half is the 32-byte key that Ed25519 derives from the
    /// secret half, so signatures made with the pair verify under the public
    /// half.
    pub open spec fn wf(self) -> bool {
        &&& self.secret@.len() == 32
        &&& self.public@.len() == 32
        &&& self.public@ == pubkey_of(self.secret@)
    }
}

/// Relies on base64's `Engine::encode` with the standard engine: the output
/// text is a pure function of the input bytes, four characters for every
/// started group of three bytes (the engine pads), and `Engine::decode` maps
/// it back to exactly those bytes.
#[verifier::external_body]
pub(crate) fn b64_encode(b: &Vec<u8>) -> (r: String)
    ensures
        r@ == b64_of(b@),
        r@.len() == 4 * ((b@.len() + 2) / 3),
        b64_decode_of(r@) == Some(b@),
{
    base64::Engine::encode(&base64::engine::general_purpose::STANDARD, b.as_slice())
}

/// Relies on base64's `Engine::decode` with the standard engine: the decoded
/// bytes are a pure function of the input text, and text that is not valid
/// base64 yields an error, never a panic.
#[verifier::external_body]
pub(crate) fn b64_decode(s: &str) -> (r: Option<Vec<u8>>)
    ensures
        r matches Some(v) ==> b64_decode_of(s@) == Some(v@),
        r is None ==> b64_decode_of(s@) is None,
{
    match base64::Engine::decode(&base64::engine::general_purpose::STANDARD, s) {
        Ok(v) => Some(v),
        Err(_) => None,
    }
}

/// Relies on `ed25519_dalek::Keypair::generate` with the operating system's
/// secure random source: a fresh pair of 32 secret key bytes and the 32
/// public key bytes derived from them. The keys are random, so nothing more
/// is promised of their values.
#[verifier::external_body]
pub fn generate_keypair() -> (r: KeyPair)
    ensures
        r.wf(),
{
    let mut csprng = rand::rngs::OsRng;
    let kp = ed25519_dalek::Keypair::generate(&mut csprng);
    KeyPair { secret: kp.secret.to_bytes().to_vec(), public: kp.public.to_bytes().to_vec() }
}

/// Relies on `ed25519_dalek::SecretKey::from_bytes` (which fails only on a
/// length other than 32, ruled out here), `PublicKey::from` and
/// `ExpandedSecretKey::sign`: Ed25519 signing is deterministic in the secret
/// key and the message, yields 64 signature bytes, and those bytes verify
/// against the derived public key over the same message.
#[verifier::external_body]
pub(crate) fn ed_sign(secret: &Vec<u8>, msg: &str) -> (r: Vec<u8>)
    requires
        secret@.len() == 32,
    ensures
        r@ == sig_of(secret@, msg@),
        r@.len() == 64,
        ed_verify_ok(pubkey_of(secret@), msg@, r@),
{
    let sk = ed25519_dalek::SecretKey::from_bytes(secret.as_slice()).unwrap();
    let pk = ed25519_dalek::PublicKey::from(&sk);
    let esk = ed25519_dalek::ExpandedSecretKey::from(&sk);
    esk.sign(msg.as_bytes(), &pk).to_bytes().to_vec()
}

/// Relies on `ed25519_dalek::PublicKey::from_bytes`,
/// `ed25519::Signature::from_bytes` and `Verifier::verify`: a deterministic
/// check of the three byte strings; bytes that are no valid key or signature
/// make the check fail cleanly, they never panic.
#[verifier::external_body]
pub(crate) fn ed_verify(public: &Vec<u8>, msg: &str, sig: &Vec<u8>) -> (r: bool)
    ensures
        r == ed_verify_ok(public@, msg@, sig@),
{
    let pk = match ed25519_dalek::PublicKey::from_bytes(public.as_slice()) {
        Ok(pk) => pk,
        Err(_) => { return false; },
    };
    let s = match ed25519_dalek::Signature::from_bytes(sig.as_slice()) {
        Ok(s) => s,
        Err(_) => { return false; },
    };
    ed25519_dalek::Verifier::verify(&pk, msg.as_bytes(), &s).is_ok()
}

} // verus!
