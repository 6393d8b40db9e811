//! What the relay towards the modem decides: which stored packets it has
//! sent, which it is asked for again, and when the modem's own storage calls
//! for a sync. Talking to the modem is left to the caller.

use vstd::prelude::*;

verus! {

/// A sync is started once the modem's storage is more than this many percent
/// full.
pub const NOTECARD_STORAGE_INIT_SYNC: u32 = 65;

/// No packet is handed to the modem while its storage is more than this many
/// percent full.
pub const NOTECARD_STORAGE_HOLD: usize = 75;

/// How often the relay tries to hand one packet to the modem.
pub const SEND_ATTEMPTS: u32 = 2;

/// How far the relay has come: the identifier of the last packet sent.
#[derive(Clone, Copy, Debug, PartialEq, Eq, Structural)]
pub struct StorageIdInfo {
    pub sent_id: Option<u32>,
}

/// A request to send a range of stored packets again.
#[derive(Clone, Copy, Debug, PartialEq, Eq, Structural)]
pub struct RequestData {
    pub request_start: Option<u32>,
    pub request_end: Option<u32>,
}

impl Default for StorageIdInfo {
    fn default() -> (r: StorageIdInfo)
        ensures
            r.sent_id is None,
    {
        StorageIdInfo { sent_id: None }
    }
}

impl Default for RequestData {
    fn default() -> (r: RequestData)
        ensures
            r.request_start is None,
            r.request_end is None,
    {
        RequestData { request_start: None, request_end: None }
    }
}

impl StorageIdInfo {
    /// The record to keep on the modem after `sent_id` was sent: clearing a
    /// request also forgets how far the relay had come.
    pub fn record(sent_id: Option<u32>, clear_request: bool) -> (info: StorageIdInfo)
        ensures
            info.sent_id == if clear_request {
                None
            } else {
                sent_id
            },
    {
        StorageIdInfo {
            sent_id: if clear_request {
                None
            } else {
                sent_id
            },
        }
    }

    /// Whether this record has to be written, given the one that the modem
    /// holds now: only where they differ, or where the modem holds none.
    pub fn differs_from(&self, current: Option<StorageIdInfo>) -> (write: bool)
        ensures
            write == (current != Some(*self)),
    {
        match current {
            Some(held) => held.sent_id != self.sent_id,
            None => true,
        }
    }
}

/// Whether queued packets are held back: the modem's storage is more than
/// three quarters full.
pub fn queue_held(storage: usize) -> (held: bool)
    ensures
        held == (storage > NOTECARD_STORAGE_HOLD),
{
    storage > NOTECARD_STORAGE_HOLD
}

/// Whether a packet that could not be sent is tried again, after `attempts`
/// attempts have failed: a packet is given up after the second.
pub fn send_again(attempts: u32) -> (again: bool)
    ensures
        again == (attempts < SEND_ATTEMPTS),
{
    attempts < SEND_ATTEMPTS
}

/// Whether a sync has to be started: the modem's storage is filling up and
/// no sync has been requested yet.
pub fn sync_due(storage: usize, requested: bool) -> (due: bool)
    ensures
        due == (storage > NOTECARD_STORAGE_INIT_SYNC && !requested),
{
    storage > NOTECARD_STORAGE_INIT_SYNC as usize && !requested
}

/// How often the status of a sync is asked for, once a second, before a wait
/// of `timeout_ms` milliseconds is given up.
pub fn sync_polls(timeout_ms: u16) -> (polls: u16)
    ensures
        polls == timeout_ms / 1000,
{
    timeout_ms / 1000
}

} // verus!
