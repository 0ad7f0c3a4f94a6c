use zerotrace::DriveType;
use zerotrace::EraseError;
use zerotrace::chunk_len;
use zerotrace::classify_media_type;
use zerotrace::classify_rotational;
use zerotrace::get_drives;
use zerotrace::issue_certificate;
use zerotrace::overwrite_with_zeros;
use zerotrace::verify_certificate;
use zerotrace::wipe_drive;

#[test]
fn unknown_media_is_refused_with_zero_writes() {
    let mut target = vec![1u8, 2, 3, 4, 5];
    let result = wipe_drive(&mut target, DriveType::Unknown);
    assert_eq!(result.err(), Some(EraseError::UnknownMediaType));
    assert_eq!(target, vec![1u8, 2, 3, 4, 5]);
}

#[test]
fn solid_state_is_unsupported_with_zero_writes() {
    let mut target = vec![9u8; 16];
    let result = wipe_drive(&mut target, DriveType::SSD);
    assert_eq!(result.err(), Some(EraseError::Unsupported));
    assert_eq!(target, vec![9u8; 16]);
}

#[test]
fn rotational_wipe_zeroes_every_byte() {
    let mut target = vec![0xABu8; 4096];
    let outcome = wipe_drive(&mut target, DriveType::HDD).unwrap();
    assert_eq!(outcome.method, "Null overwriting");
    assert!(target.iter().all(|b| *b == 0));
    assert_eq!(target.len(), 4096);
}

#[test]
fn overwrite_tolerates_an_empty_target() {
    let mut target: Vec<u8> = Vec::new();
    overwrite_with_zeros(&mut target);
    assert!(target.is_empty());
}

#[test]
fn end_to_end_rotational_erase_is_attested() {
    let mut target = vec![0x5Au8; 1024];
    let record = issue_certificate(&mut target, "disk0", DriveType::HDD);
    assert!(target.iter().all(|b| *b == 0));
    assert_eq!(target.len(), 1024);
    assert_eq!(record.status, "success");
    assert_eq!(record.method, "Null overwriting");
    assert_eq!(record.device, "disk0");
    assert!(verify_certificate(&record));
}

#[test]
fn end_to_end_tolerates_a_zero_length_target() {
    let mut target: Vec<u8> = Vec::new();
    let record = issue_certificate(&mut target, "disk0", DriveType::HDD);
    assert_eq!(record.status, "success");
    assert!(verify_certificate(&record));
}

#[test]
fn unsupported_solid_state_erase_is_never_attested_as_success() {
    let mut target = vec![7u8; 32];
    let record = issue_certificate(&mut target, "nvme0", DriveType::SSD);
    assert_eq!(target, vec![7u8; 32]);
    assert_eq!(record.status, "failed");
    assert_eq!(record.method, "Cryptographic erase");
    assert!(record.signature.is_none());
    assert_eq!(record.public_key, "");
    assert!(!verify_certificate(&record));
}

#[test]
fn unknown_media_yields_an_unsigned_failed_record() {
    let mut target = vec![7u8; 32];
    let record = issue_certificate(&mut target, "mystery", DriveType::Unknown);
    assert_eq!(target, vec![7u8; 32]);
    assert_eq!(record.status, "failed");
    assert_eq!(record.method, "None");
    assert!(record.signature.is_none());
    assert!(!verify_certificate(&record));
}

#[test]
fn erase_errors_describe_themselves() {
    assert_eq!(EraseError::UnknownMediaType.message(), "Unknown drive type");
    assert_eq!(
        EraseError::Unsupported.message(),
        "Secure erase is not supported on this platform"
    );
}

#[test]
fn chunk_len_covers_the_tail_exactly() {
    assert_eq!(chunk_len(10, 0, 4), 4);
    assert_eq!(chunk_len(10, 4, 4), 4);
    assert_eq!(chunk_len(10, 8, 4), 2);
    assert_eq!(chunk_len(5, 4, 1024 * 1024), 1);
    assert_eq!(chunk_len(1024 * 1024 + 1, 1024 * 1024, 1024 * 1024), 1);
}

#[test]
fn rotational_flags_classify_as_reported() {
    assert_eq!(classify_rotational(Some("0\n")), DriveType::SSD);
    assert_eq!(classify_rotational(Some("1\n")), DriveType::HDD);
    assert_eq!(classify_rotational(Some("0")), DriveType::SSD);
    assert_eq!(classify_rotational(Some("1 \r\n")), DriveType::HDD);
}

#[test]
fn surrounding_white_space_is_trimmed_before_classification() {
    assert_eq!(classify_rotational(Some(" 0")), DriveType::SSD);
    assert_eq!(classify_rotational(Some(" 1 ")), DriveType::HDD);
    assert_eq!(classify_rotational(Some("\t 0 \n")), DriveType::SSD);
    assert_eq!(classify_rotational(Some("\u{0B}1\u{0C}")), DriveType::HDD);
    assert_eq!(classify_rotational(Some("\u{a0}0\u{2003}")), DriveType::SSD);
}

#[test]
fn unreadable_or_odd_signals_classify_as_unknown() {
    assert_eq!(classify_rotational(None), DriveType::Unknown);
    assert_eq!(classify_rotational(Some("")), DriveType::Unknown);
    assert_eq!(classify_rotational(Some("2\n")), DriveType::Unknown);
    assert_eq!(classify_rotational(Some("0 0")), DriveType::Unknown);
    assert_eq!(classify_rotational(Some("10")), DriveType::Unknown);
    assert_eq!(classify_rotational(Some(" \n\t ")), DriveType::Unknown);
    assert_eq!(classify_rotational(Some("ssd")), DriveType::Unknown);
}

#[test]
fn placeholder_drive_listing_is_fixed() {
    let drives = get_drives();
    assert_eq!(drives.len(), 2);
    assert_eq!(drives[0].0, "/storage/emulated/0");
    assert_eq!(drives[0].1, DriveType::SSD);
    assert_eq!(drives[1].0, "/storage/0123-4567");
    assert_eq!(drives[1].1, DriveType::HDD);
}

#[test]
fn media_type_labels_classify_as_reported() {
    assert_eq!(classify_media_type("SSD"), DriveType::SSD);
    assert_eq!(classify_media_type("HDD"), DriveType::HDD);
    assert_eq!(classify_media_type("Unspecified"), DriveType::Unknown);
    assert_eq!(classify_media_type("ssd"), DriveType::Unknown);
    assert_eq!(classify_media_type(""), DriveType::Unknown);
}
