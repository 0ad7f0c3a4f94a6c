use vstd::prelude::*;

use crate::canon::canon_seq;
use crate::canon::canonical_string;
use crate::crypto::KeyPair;
use crate::crypto::b64_decode;
use crate::crypto::b64_decode_of;
use crate::crypto::b64_encode;
use crate::crypto::b64_of;
use crate::crypto::ed_sign;
use crate::crypto::ed_verify;
use crate::crypto::ed_verify_ok;
use crate::crypto::generate_keypair;
use crate::crypto::sig_of;
use crate::drive_detect::DriveType;
use crate::record::WipeCertificate;
use crate::record::unsigned;
use crate::wipe::wipe_drive;

verus! {

/// A record's attestation checks out: a signature is present, it and the
/// embedded public key decode as base64, and the signature verifies against
/// that key over the record's canonical text. This is decided by the
/// record's public fields alone, so any independent holder of the record can
/// recompute it.
pub open spec fn cert_valid(c: WipeCertificate) -> bool {
    &&& c.signature matches Some(sigs)
    &&& b64_decode_of(sigs@) matches Some(sigb)
    &&& b64_decode_of(c.public_key@) matches Some(pkb)
    &&& ed_verify_ok(pkb, canon_seq(c), sigb)
}

/// Signs a record: embeds the signer's public key, canonicalizes every field
/// except the signature, signs that text, and attaches the signature in
/// base64. All other fields are kept as they were, and the result always
/// verifies under the key it embeds.
pub fn sign_certificate(cert: WipeCertificate, keypair: &KeyPair) -> (r: WipeCertificate)
    requires
        keypair.wf(),
    ensures
        r.certificate_id@ == cert.certificate_id@,
        r.device@ == cert.device@,
        r.method@ == cert.method@,
        r.timestamp@ == cert.timestamp@,
        r.status@ == cert.status@,
        r.public_key@ == b64_of(keypair.public@),
        r.public_key@.len() == 44,
        r.signature matches Some(s) && s@ == b64_of(sig_of(keypair.secret@, canon_seq(r))),
        cert_valid(r),
{
    let mut cert = cert;
    cert.public_key = b64_encode(&keypair.public);
    let payload = canonical_string(&cert);
    let sig = ed_sign(&keypair.secret, payload.as_str());
    cert.signature = Some(b64_encode(&sig));
    cert
}

/// Checks a record's attestation using only its public fields: the canonical
/// text is rebuilt, the embedded base64 key and signature are decoded, and
/// the signature is checked over that text. A record without a signature, a
/// key or signature that is not valid base64 or no valid key or signature at
/// all, and a signature over different content all yield `false`; no input
/// makes this panic.
pub fn verify_certificate(cert: &WipeCertificate) -> (r: bool)
    ensures
        r == cert_valid(*cert),
        cert.signature is None ==> r == false,
{
    let sig_text = match &cert.signature {
        Some(s) => s,
        None => { return false; },
    };
    let sig_bytes = match b64_decode(sig_text.as_str()) {
        Some(b) => b,
        None => { return false; },
    };
    let pk_bytes = match b64_decode(cert.public_key.as_str()) {
        Some(b) => b,
        None => { return false; },
    };
    let payload = canonical_string(cert);
    ed_verify(&pk_bytes, payload.as_str(), &sig_bytes)
}

/// Runs the whole pipeline for one target: dispatches the erase for the
/// declared media category, builds the record for the outcome, and signs it
/// with a fresh ephemeral key pair — but only when the erase succeeded. A
/// failed or refused erase yields an unsigned record with status `failed`
/// and the attempted method, so failures stay auditable without ever being
/// attested as successes.
pub fn issue_certificate(target: &mut Vec<u8>, device: &str, dtype: DriveType) -> (r:
    WipeCertificate)
    ensures
        r.device@ == device@,
        dtype == DriveType::HDD ==> {
            &&& final(target)@.len() == old(target)@.len()
            &&& forall|i: int| 0 <= i < final(target)@.len() ==> final(target)@[i] == 0u8
            &&& r.status@ == "success"@
            &&& r.method@ == "Null overwriting"@
            &&& r.public_key@.len() == 44
            &&& cert_valid(r)
        },
        dtype == DriveType::SSD ==> final(target)@ == old(target)@ && r.status@ == "failed"@
            && r.method@ == "Cryptographic erase"@ && unsigned(r),
        dtype == DriveType::Unknown ==> final(target)@ == old(target)@ && r.status@ == "failed"@
            && r.method@ == "None"@ && unsigned(r),
{
    match wipe_drive(target, dtype) {
        Ok(outcome) => {
            let cert = WipeCertificate::new(device, outcome.method.as_str());
            let keypair = generate_keypair();
            sign_certificate(cert, &keypair)
        },
        Err(_) => {
            let attempted = match dtype {
                DriveType::SSD => "Cryptographic erase",
                _ => "None",
            };
            let mut cert = WipeCertificate::new(device, attempted);
            cert.status = String::from_str("failed");
            cert
        },
    }
}

} // verus!
