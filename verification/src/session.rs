//! The medium's session state, the actions that the engine asks of its
//! driver, and the events that the driver hands back.

use vstd::prelude::*;
use crate::codec::AXL_POSTCARD_SZ;
use crate::error::{CardFault, FsFault, StorageErr};
use crate::scanner::{Lookup, Probe};

verus! {

/// Seconds that must have passed since a failed initialisation before the
/// medium is probed again.
pub const SD_RETRY_DELAY: i32 = 600;

/// Whether the medium may be touched. Exactly one of these holds at a time.
#[derive(Clone, Copy, Debug, PartialEq, Eq, Structural)]
pub enum SdState {
    /// Nothing is known of the medium.
    Uninitialized,
    /// The last initialisation, begun at `last_try`, has not succeeded.
    Retry { last_try: i32 },
    /// The medium is usable, and `next_id` is the next identifier to assign.
    Initialized { next_id: u32 },
}

/// The transfer speeds that the driver can be asked to switch to.
#[derive(Clone, Copy, Debug, PartialEq, Eq, Structural)]
pub enum SdSpiSpeed {
    /// The conservative speed at which a card is initialised.
    Low,
    /// The speed of normal operation.
    High,
}

/// Why an append failed.
#[derive(Clone, Copy, Debug, PartialEq, Eq, Structural)]
pub enum WriteFault {
    /// Volume, directory or file could not be opened.
    Open(FsFault),
    /// The end of the file could not be sought.
    Seek,
    /// The bytes could not be written.
    Write(FsFault),
}

/// Why a slot could not be read.
#[derive(Clone, Copy, Debug, PartialEq, Eq, Structural)]
pub enum ReadFault {
    /// The slot's offset could not be sought.
    Seek,
    /// The bytes could not be read.
    Read(FsFault),
}

/// What the engine asks its driver to do next.
#[derive(Clone, Copy, Debug, PartialEq, Eq, Structural)]
pub enum Action {
    /// Call the speed-change callback.
    Reclock(SdSpiSpeed),
    /// Mark the card as freshly inserted and ask for its size, which
    /// initialises it.
    QueryCapacity,
    /// Look a name up.
    Lookup(Probe),
    /// Give the packet the identifier `id` and encode it.
    Encode { id: u32 },
    /// Open the file of `collection` in directory `dir`, creating it if it is
    /// absent, seek its end and write the frame there.
    Append { dir: u32, collection: u32 },
    /// Open the file of `collection` in directory `dir` for reading and
    /// report its length.
    Measure { dir: u32, collection: u32 },
    /// Seek `offset` in that file and read `len` bytes, with interrupts
    /// suppressed for the duration of the transfer.
    Fetch { dir: u32, collection: u32, offset: usize, len: usize },
    /// Delete the file of `collection` in directory `dir`.
    Delete { dir: u32, collection: u32 },
}

/// What the driver reports of the last action.
#[derive(Debug)]
pub enum Event {
    /// The speed-change callback has returned.
    Reclocked,
    /// The card's size in bytes, or why it could not be initialised.
    Capacity(Result<u64, CardFault>),
    /// The answer to a lookup.
    Looked(Lookup),
    /// The encoded packet, or nothing if it could not be encoded or does not
    /// fit a frame.
    Encoded(Option<heapless::Vec<u8, AXL_POSTCARD_SZ>>),
    /// How the append went.
    Appended(Result<(), WriteFault>),
    /// The file's length, or why it could not be opened.
    Measured(Result<u32, FsFault>),
    /// The bytes of the slot, or why they could not be read.
    Fetched(Result<heapless::Vec<u8, AXL_POSTCARD_SZ>, ReadFault>),
    /// How the deletion went.
    Deleted(Result<(), FsFault>),
}

/// The error under which a failed append is reported.
pub open spec fn write_error(fault: WriteFault) -> StorageErr {
    match fault {
        WriteFault::Open(e) => StorageErr::GenericSdMmmcErr(e),
        WriteFault::Seek => StorageErr::WriteError,
        WriteFault::Write(e) => StorageErr::GenericSdMmmcErr(e),
    }
}

/// The error under which a failed read is reported.
pub open spec fn read_error(fault: ReadFault) -> StorageErr {
    match fault {
        ReadFault::Seek => StorageErr::ReadPackageError,
        ReadFault::Read(e) => StorageErr::GenericSdMmmcErr(e),
    }
}

/// Whether an acquisition at `now` falls within the cooldown of an attempt
/// made at `last_try`: fewer seconds have passed than the cooldown lasts.
pub open spec fn cooling(last_try: i32, now: i32) -> bool {
    now - last_try < SD_RETRY_DELAY
}

/// Whether an acquisition at `now` has to initialise the medium.
pub open spec fn must_probe(state: SdState, now: i32) -> bool {
    match state {
        SdState::Uninitialized => true,
        SdState::Retry { last_try } => !cooling(last_try, now),
        SdState::Initialized { .. } => false,
    }
}

impl SdState {
    /// The next identifier to assign, while the medium is initialised.
    pub open spec fn spec_next_id(self) -> Option<u32> {
        match self {
            SdState::Initialized { next_id } => Some(next_id),
            _ => None,
        }
    }

    /// The next identifier to assign; `None` while the medium is not
    /// initialised.
    #[verifier::when_used_as_spec(spec_next_id)]
    pub fn next_id(self) -> (r: Option<u32>)
        ensures
            r == self.spec_next_id(),
    {
        match self {
            SdState::Initialized { next_id } => Some(next_id),
            _ => None,
        }
    }

    /// Whether an acquisition at `now` has to initialise the medium: always
    /// when nothing is known of it, and after a failed attempt once the
    /// cooldown has passed.
    pub fn probe_due(self, now: i32) -> (due: bool)
        ensures
            due == must_probe(self, now),
    {
        match self {
            SdState::Uninitialized => true,
            SdState::Retry { last_try } => now as i64 - last_try as i64 >= SD_RETRY_DELAY as i64,
            SdState::Initialized { .. } => false,
        }
    }
}

} // verus!
