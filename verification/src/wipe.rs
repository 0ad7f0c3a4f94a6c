use vstd::prelude::*;

use crate::drive_detect::DriveType;

verus! {

/// Why an erase could not be carried out.
#[derive(Clone, Copy, Debug, PartialEq, Eq, Structural)]
pub enum EraseError {
    /// The media was recognized but no erase capability for it exists on this
    /// platform: a solid-state device needs a device-level secure-erase
    /// command, which cannot be issued against a plain byte buffer.
    Unsupported,
    /// The media category was unknown, so no erase strategy applies and no
    /// write is attempted.
    UnknownMediaType,
}

impl EraseError {
    /// A human-readable description of the failure.
    pub fn message(&self) -> (r: String)
        ensures
            *self == EraseError::Unsupported ==> r@ == "Secure erase is not supported on this platform"@,
            *self == EraseError::UnknownMediaType ==> r@ == "Unknown drive type"@,
    {
        match self {
            EraseError::Unsupported => String::from_str("Secure erase is not supported on this platform"),
            EraseError::UnknownMediaType => String::from_str("Unknown drive type"),
        }
    }
}

/// What a completed erase reports: the procedure that was actually used.
pub struct EraseOutcome {
    pub method: String,
}

/// Length of the next chunk of an overwrite pass: the full buffer while more
/// than a buffer's worth remains, the exact remainder at the tail, so that the
/// pass covers the target's full length and never writes past it.
pub fn chunk_len(total: u64, written: u64, buf_len: u64) -> (r: u64)
    requires
        written < total,
        buf_len > 0,
    ensures
        r == if total - written < buf_len { total - written } else { buf_len as int },
        1 <= r <= buf_len,
        written + r <= total,
{
    if total - written < buf_len {
        total - written
    } else {
        buf_len
    }
}

/// One full overwrite pass with the zero pattern: afterwards every addressable
/// byte of the target equals the fill byte, whatever the target's length.
pub fn overwrite_with_zeros(target: &mut Vec<u8>)
    ensures
        final(target)@.len() == old(target)@.len(),
        forall|i: int| 0 <= i < final(target)@.len() ==> final(target)@[i] == 0u8,
{
    let n = target.len();
    let mut i: usize = 0;
    while i < n
        invariant
            i <= n,
            n == target@.len(),
            target@.len() == old(target)@.len(),
            forall|j: int| 0 <= j < i ==> target@[j] == 0u8,
        decreases n - i,
    {
        target.set(i, 0u8);
        i = i + 1;
    }
}

/// Selects and runs the erase strategy for the declared media category.
///
/// Rotational media get a full zero-overwrite pass. Solid-state media would
/// need a device-level secure-erase command, which this byte-level model
/// cannot issue, so the outcome faithfully reports `Unsupported` rather than
/// simulating success. An unknown category is refused outright, with no write
/// performed.
pub fn wipe_drive(target: &mut Vec<u8>, dtype: DriveType) -> (r: Result<EraseOutcome, EraseError>)
    ensures
        dtype == DriveType::HDD ==> {
            &&& r matches Ok(o) && o.method@ == "Null overwriting"@
            &&& final(target)@.len() == old(target)@.len()
            &&& forall|i: int| 0 <= i < final(target)@.len() ==> final(target)@[i] == 0u8
        },
        dtype == DriveType::SSD ==> r == Err::<EraseOutcome, EraseError>(EraseError::Unsupported)
            && final(target)@ == old(target)@,
        dtype == DriveType::Unknown ==> r == Err::<EraseOutcome, EraseError>(EraseError::UnknownMediaType)
            && final(target)@ == old(target)@,
{
    match dtype {
        DriveType::HDD => {
            overwrite_with_zeros(target);
            Ok(EraseOutcome { method: String::from_str("Null overwriting") })
        },
        DriveType::SSD => Err(EraseError::Unsupported),
        DriveType::Unknown => Err(EraseError::UnknownMediaType),
    }
}

} // verus!
