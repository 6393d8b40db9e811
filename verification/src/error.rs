//! Errors of the storage engine.
//!
//! The medium itself lives outside this crate; its failures arrive here as
//! plain values. A fault keeps only the class that the engine's decisions and
//! its callers distinguish.

use vstd::prelude::*;

verus! {

/// A low-level fault reported by the card driver.
#[derive(Clone, Copy, Debug, PartialEq, Eq, Structural)]
pub enum CardFault {
    /// The card did not answer in time.
    Timeout,
    /// The bus transfer itself failed.
    Transport,
    /// A checksum did not match.
    Integrity,
    /// No card answered at all.
    NotPresent,
    /// Any other driver fault.
    Other,
}

/// A fault reported by the file system on the card.
#[derive(Clone, Copy, Debug, PartialEq, Eq, Structural)]
pub enum FsFault {
    /// The block device under the file system failed.
    Device(CardFault),
    /// The named file or directory does not exist.
    NotFound,
    /// The volume has no room left.
    NoSpace,
    /// The on-disk structures are damaged.
    Corrupt,
    /// Any other file-system fault.
    Other,
}

/// Everything that an operation of the engine can fail with.
#[derive(Clone, Copy, Debug, PartialEq, Eq, Structural)]
pub enum StorageErr {
    /// The card driver failed.
    SdMmcErr(CardFault),
    /// The file system failed; `NotFound` also stands for a slot that has not
    /// been written yet.
    GenericSdMmmcErr(FsFault),
    /// A directory or file name on the card is not a number.
    ParseIDFailure,
    /// An identifier could not be written.
    WriteIDFailure,
    /// The append position could not be reached.
    WriteError,
    /// The slot could not be positioned on, or its frame could not be decoded.
    ReadPackageError,
    /// The packet does not fit its frame, or could not be encoded.
    SerializationError,
    /// No directory index, or no identifier, is left.
    DiskFull,
    /// The session is not usable: never initialised, or cooling down after a
    /// failed attempt.
    Uninitialized,
}

impl From<CardFault> for StorageErr {
    fn from(e: CardFault) -> (r: StorageErr) {
        StorageErr::SdMmcErr(e)
    }
}

impl vstd::std_specs::convert::FromSpecImpl<CardFault> for StorageErr {
    open spec fn obeys_from_spec() -> bool {
        true
    }

    open spec fn from_spec(e: CardFault) -> StorageErr {
        StorageErr::SdMmcErr(e)
    }
}

impl From<FsFault> for StorageErr {
    fn from(e: FsFault) -> (r: StorageErr) {
        StorageErr::GenericSdMmmcErr(e)
    }
}

impl vstd::std_specs::convert::FromSpecImpl<FsFault> for StorageErr {
    open spec fn obeys_from_spec() -> bool {
        true
    }

    open spec fn from_spec(e: FsFault) -> StorageErr {
        StorageErr::GenericSdMmmcErr(e)
    }
}

} // verus!
