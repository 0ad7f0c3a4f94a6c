use vstd::prelude::*;

verus! {

/// One erase attestation: the identity and claims of a single erase event.
///
/// A record is either unsigned (`signature` absent, `signer` key empty) or
/// fully signed (`public_key` and `signature` both set and mutually
/// consistent); signing is the only step that moves it from one state to the
/// other.
pub struct WipeCertificate {
    /// Globally unique identifier, fixed at creation.
    pub certificate_id: String,
    /// Free-text identification of the device or system erased.
    pub device: String,
    /// The erase procedure actually used, not merely the one requested.
    pub method: String,
    /// UTC timestamp fixed at record creation.
    pub timestamp: String,
    /// Outcome of the erase: `success` or `failed`.
    pub status: String,
    /// Base64 of the signer's public key; empty until signed.
    pub public_key: String,
    /// Base64 of the signature over the canonical bytes; absent until signed.
    pub signature: Option<String>,
}

/// A record that has not been signed yet: no signature and no signer key.
pub open spec fn unsigned(c: WipeCertificate) -> bool {
    c.signature is None && c.public_key@.len() == 0
}

/// A lowercase hexadecimal digit.
pub open spec fn hex_digit(c: char) -> bool {
    let u = c as u32;
    (0x30 <= u && u <= 0x39) || (0x61 <= u && u <= 0x66)
}

/// The hyphenated, lowercase form of a version-4 UUID: 36 characters, five
/// groups of hex digits separated by hyphens, with the version digit `4`.
pub open spec fn uuid_v4_text(s: Seq<char>) -> bool {
    &&& s.len() == 36
    &&& s[8] == '-' && s[13] == '-' && s[18] == '-' && s[23] == '-'
    &&& s[14] == '4'
    &&& forall|i: int|
        0 <= i < 36 && i != 8 && i != 13 && i != 18 && i != 23 ==> hex_digit(#[trigger] s[i])
}

/// Relies on `uuid::Uuid::new_v4` (which fixes the version digit to `4`) and
/// its `Display` form (the lowercase hyphenated format): a fresh random
/// version-4 UUID as 36 characters of hex groups and hyphens. The value is
/// random, so nothing more is promised of it.
#[verifier::external_body]
fn fresh_certificate_id() -> (r: String)
    ensures
        uuid_v4_text(r@),
{
    uuid::Uuid::new_v4().to_string()
}

/// Relies on `chrono::Utc::now` and `DateTime::to_rfc3339`: the current UTC
/// time rendered as an RFC 3339 string — date, `T`, time and UTC offset make
/// that at least 25 characters. The value depends on the clock, so nothing
/// more is promised of it.
#[verifier::external_body]
fn current_timestamp() -> (r: String)
    ensures
        r@.len() >= 25,
{
    chrono::Utc::now().to_rfc3339()
}

impl WipeCertificate {
    /// A fresh, unsigned record for one erase event: a new version-4 UUID as
    /// its identifier, the current UTC time as an RFC 3339 text, outcome
    /// `success`, and no signer key or signature yet.
    pub fn new(device: &str, method: &str) -> (r: WipeCertificate)
        ensures
            r.device@ == device@,
            r.method@ == method@,
            r.status@ == "success"@,
            unsigned(r),
            uuid_v4_text(r.certificate_id@),
            r.timestamp@.len() >= 25,
    {
        WipeCertificate {
            certificate_id: fresh_certificate_id(),
            device: String::from_str(device),
            method: String::from_str(method),
            timestamp: current_timestamp(),
            status: String::from_str("success"),
            public_key: String::new(),
            signature: None,
        }
    }
}

} // verus!
