//! Tamper-evident attestations of storage erasure.
//!
//! The pipeline classifies a target's media, dispatches an erase strategy for
//! it, builds a record of the outcome, reduces the record to one exact
//! canonical text, and signs that text with an ephemeral key pair, so that
//! any later holder of the record can check that it was not altered since it
//! was issued.

mod canon;
mod cert;
mod crypto;
mod drive_detect;
mod record;
mod wipe;

pub use canon::canon_seq;
pub use canon::canonical_string;
pub use canon::esc;
pub use canon::esc_char;
pub use canon::lemma_canonical_injective;
pub use canon::lemma_canonical_order_independent;
pub use cert::cert_valid;
pub use cert::issue_certificate;
pub use cert::sign_certificate;
pub use cert::verify_certificate;
pub use crypto::KeyPair;
pub use crypto::b64_decode_of;
pub use crypto::b64_of;
pub use crypto::ed_verify_ok;
pub use crypto::generate_keypair;
pub use crypto::pubkey_of;
pub use crypto::sig_of;
pub use drive_detect::DriveType;
pub use drive_detect::classify_media_type;
pub use drive_detect::classify_rotational;
pub use drive_detect::classify_spec;
pub use drive_detect::get_drives;
pub use record::WipeCertificate;
pub use record::hex_digit;
pub use record::uuid_v4_text;
pub use record::unsigned;
pub use wipe::EraseError;
pub use wipe::EraseOutcome;
pub use wipe::chunk_len;
pub use wipe::overwrite_with_zeros;
pub use wipe::wipe_drive;
