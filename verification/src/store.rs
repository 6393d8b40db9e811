//! Storing a packet: acquire a session, assign an identifier, frame the
//! encoded packet and append it to its collection.

use vstd::prelude::*;
use crate::codec::{
    collection_of, directory_of, slot_of, AXL_POSTCARD_SZ, COLLECTION_SIZE, DIR_SIZE,
};
use crate::error::StorageErr;
use crate::frame::{frame, frame_bytes, lemma_padded_keeps_packet, padded};
use crate::scanner::{
    begin_phase, is_first_free, lemma_scan_finds_first_free, listing_wf, probe_of, scan_begin,
    scan_left, scan_probe, scan_rank, scan_run, scan_step, scan_wf, step_phase, truthful, Listing,
    ScanPhase,
};
use crate::session::{cooling, write_error, Action, Event, SdState, WriteFault};
use crate::storage::{
    acquire_spec, advance_spec, lemma_advance_increases, lemma_rollover_begins_free_collection,
    progress_action, progress_step, progress_wf, rollover_due, write_spec, Progress, SdHandle,
    Storage,
};

verus! {

/// How far a store has come.
#[derive(Clone, Copy, Debug, PartialEq, Eq)]
pub enum StorePhase {
    /// The session is being acquired.
    Acquiring,
    /// The next identifier opens a collection: the medium is being scanned
    /// from collection `start` on, for one that is free.
    Rollover { start: u32, scan: ScanPhase },
    /// The packet is to take the identifier `id` and to be encoded.
    Encoding { id: u32 },
    /// The frame of packet `id` is to be appended.
    Appending { id: u32 },
    /// The store is over: the identifier under which the packet was stored,
    /// or why it was not.
    Done(Result<u32, StorageErr>),
}

/// A store, as its contracts see it.
pub struct StoreModel {
    /// The session state.
    pub state: SdState,
    /// The acquisition of the session.
    pub progress: Progress,
    /// How far the store has come.
    pub phase: StorePhase,
    /// The frame to append.
    pub frame: Seq<u8>,
}

/// A store whose session is settled: refused or failed, it is over; ready,
/// it goes on to assign an identifier, after a scan where the identifier
/// after it opens a collection.
pub open spec fn store_settle(m: StoreModel) -> StoreModel {
    match m.progress {
        Progress::Ready => match rollover_due(m.state) {
            Some(start) => StoreModel {
                phase: StorePhase::Rollover { start, scan: scan_begin(start) },
                ..m
            },
            None => store_assign(m, None),
        },
        Progress::Failed(e) => StoreModel { phase: StorePhase::Done(Err(e)), ..m },
        Progress::Refused => StoreModel {
            phase: StorePhase::Done(Err(StorageErr::Uninitialized)),
            ..m
        },
        _ => StoreModel { phase: StorePhase::Acquiring, ..m },
    }
}

/// A store that assigns its identifier, given what the scan found if one was
/// made.
pub open spec fn store_assign(
    m: StoreModel,
    scanned: Option<Result<u32, StorageErr>>,
) -> StoreModel {
    let (state, assigned) = advance_spec(m.state, scanned);
    match assigned {
        Ok(id) => StoreModel { state, phase: StorePhase::Encoding { id }, ..m },
        Err(e) => StoreModel { state, phase: StorePhase::Done(Err(e)), ..m },
    }
}

/// The store that begins at time `now` on a supervisor in `state`.
pub open spec fn store_begin(state: SdState, now: i32) -> StoreModel {
    let (state, progress) = acquire_spec(state, now);
    store_settle(
        StoreModel { state, progress, phase: StorePhase::Acquiring, frame: Seq::<u8>::empty() },
    )
}

/// What a store asks of the driver; nothing once it is over.
pub open spec fn store_action(m: StoreModel) -> Option<Action> {
    match m.phase {
        StorePhase::Acquiring => progress_action(m.progress),
        StorePhase::Rollover { start, scan } => match scan_probe(scan) {
            Some(probe) => Some(Action::Lookup(probe)),
            None => None,
        },
        StorePhase::Encoding { id } => Some(Action::Encode { id }),
        StorePhase::Appending { id } => Some(
            Action::Append {
                dir: directory_of(id as nat) as u32,
                collection: collection_of(id as nat) as u32,
            },
        ),
        StorePhase::Done(_) => None,
    }
}

/// The store after `event`. An event that the store does not wait for
/// changes nothing.
pub open spec fn store_step(m: StoreModel, event: Event) -> StoreModel {
    match (m.phase, event) {
        (StorePhase::Acquiring, _) => {
            let (state, progress) = progress_step(m.state, m.progress, event);
            store_settle(StoreModel { state, progress, ..m })
        },
        (StorePhase::Rollover { start, scan }, Event::Looked(lookup)) => match scan_step(
            start,
            scan,
            lookup,
        ) {
            ScanPhase::Done(found) => store_assign(m, Some(found)),
            next => StoreModel { phase: StorePhase::Rollover { start, scan: next }, ..m },
        },
        (StorePhase::Encoding { id }, Event::Encoded(Some(bytes))) => StoreModel {
            phase: StorePhase::Appending { id },
            frame: padded(frame_bytes(bytes)),
            ..m
        },
        (StorePhase::Encoding { id }, Event::Encoded(None)) => StoreModel {
            phase: StorePhase::Done(Err(StorageErr::SerializationError)),
            ..m
        },
        (StorePhase::Appending { id }, Event::Appended(outcome)) => {
            let (state, written) = write_spec(m.state, outcome);
            match written {
                Ok(()) => StoreModel { state, phase: StorePhase::Done(Ok(id)), ..m },
                Err(e) => StoreModel { state, phase: StorePhase::Done(Err(e)), ..m },
            }
        },
        _ => m,
    }
}

/// Whether the cursor of `state` lies beyond `id`.
pub open spec fn cursor_beyond(state: SdState, id: u32) -> bool {
    state matches SdState::Initialized { next_id } && next_id > id
}

/// The models that a store can have. Once a packet has its identifier, and
/// as long as nothing has failed, the cursor lies beyond it.
pub open spec fn store_wf(m: StoreModel) -> bool {
    &&& progress_wf(m.progress)
    &&& match m.phase {
        StorePhase::Acquiring => progress_action(m.progress) is Some,
        StorePhase::Rollover { start, scan } => {
            &&& m.progress is Ready
            &&& scan_wf(start, scan)
            &&& !(scan is Done)
        },
        StorePhase::Encoding { id } => m.progress is Ready && cursor_beyond(m.state, id),
        StorePhase::Appending { id } => {
            &&& m.progress is Ready
            &&& cursor_beyond(m.state, id)
            &&& m.frame.len() == AXL_POSTCARD_SZ
        },
        StorePhase::Done(Ok(id)) => cursor_beyond(m.state, id),
        StorePhase::Done(Err(_)) => true,
    }
}

/// Which part of its scan a store is in; zero when it is not scanning for a
/// free collection.
pub open spec fn store_rank(phase: StorePhase) -> int {
    match phase {
        StorePhase::Rollover { start, scan } => scan_rank(scan),
        _ => 0,
    }
}

/// How many questions are left at most within that part.
pub open spec fn store_left(phase: StorePhase) -> int {
    match phase {
        StorePhase::Rollover { start, scan } => scan_left(scan),
        _ => 0,
    }
}

/// The store with which the scan for a free collection ends when it
/// continues on a medium that holds `listing` and does not fail.
pub open spec fn store_run(listing: Listing, m: StoreModel) -> StoreModel
    decreases store_rank(m.phase), store_left(m.phase),
    when store_wf(m)
{
    match m.phase {
        StorePhase::Rollover { start, scan } => match scan_probe(scan) {
            Some(probe) => store_run(
                listing,
                store_step(m, Event::Looked(truthful(listing, probe))),
            ),
            None => m,
        },
        _ => m,
    }
}

proof fn lemma_rollover_follows_scan(listing: Listing, m: StoreModel)
    requires
        store_wf(m),
        m.phase is Rollover,
        m.state is Initialized,
    ensures
        scan_run(listing, m.phase->start, m.phase->scan) matches ScanPhase::Done(found)
            && store_run(listing, m) == store_assign(m, Some(found)),
    decreases store_rank(m.phase), store_left(m.phase),
{
    let start = m.phase->start;
    let scan = m.phase->scan;
    let probe = scan_probe(scan)->Some_0;
    let next = scan_step(start, scan, truthful(listing, probe));
    let after = store_step(m, Event::Looked(truthful(listing, probe)));
    assert(scan_run(listing, start, scan) == scan_run(listing, start, next));
    match next {
        ScanPhase::Done(found) => {
            assert(scan_run(listing, start, next) == next);
            assert(after == store_assign(m, Some(found)));
            assert(store_run(listing, after) == after);
        },
        _ => {
            lemma_rollover_follows_scan(listing, after);
        },
    }
}

/// A store at the end of a collection, on a medium that holds `listing` and
/// does not fail. The store scans from the collection that the identifier
/// after the next one opens. Where that ends with a free collection in reach
/// of the identifiers, the packet takes the cursor as its identifier, and the
/// cursor comes to stand on the first slot of a collection whose file does
/// not exist. Where it does not, nothing is assigned: the store ends as a
/// full disk and the cursor stays.
pub proof fn lemma_store_at_rollover(listing: Listing, next_id: u32, now: i32)
    requires
        listing_wf(listing),
        rollover_due(SdState::Initialized { next_id }) is Some,
    ensures
        ({
            let begun = store_begin(SdState::Initialized { next_id }, now);
            let scanned = store_run(listing, begun);
            &&& begun.phase is Rollover
            &&& begun.state == SdState::Initialized { next_id }
            &&& match scanned.phase {
                StorePhase::Encoding { id } => {
                    &&& id == next_id
                    &&& scanned.state matches SdState::Initialized { next_id: after }
                    &&& after > next_id
                    &&& slot_of(after as nat) == 0
                    &&& !listing.files.contains(collection_of(after as nat))
                },
                StorePhase::Done(done) => {
                    &&& done == Err::<u32, StorageErr>(StorageErr::DiskFull)
                    &&& scanned.state == SdState::Initialized { next_id }
                },
                _ => false,
            }
        }),
{
    let state = SdState::Initialized { next_id };
    let k = rollover_due(state)->Some_0;
    let begun = store_begin(state, now);
    assert(begun.phase == StorePhase::Rollover { start: k, scan: scan_begin(k) });
    lemma_scan_finds_first_free(listing, k);
    lemma_rollover_follows_scan(listing, begun);
    let found = scan_run(listing, k, scan_begin(k))->Done_0;
    lemma_rollover_begins_free_collection(next_id, listing, found);
    if let Ok(free) = found {
        if free > k && free * COLLECTION_SIZE <= u32::MAX {
            assert(free * 100 > next_id) by (nonlinear_arith)
                requires
                    free > (next_id + 1) / 100,
            ;
        }
    }
}

/// A store within the cooldown of a failed attempt is over as it begins: it
/// fails as uninitialised, asks nothing of the driver and leaves the state as
/// it is.
pub proof fn lemma_store_is_throttled(last_try: i32, now: i32)
    requires
        cooling(last_try, now),
    ensures
        store_begin(SdState::Retry { last_try }, now).phase == StorePhase::Done(
            Err(StorageErr::Uninitialized),
        ),
        store_begin(SdState::Retry { last_try }, now).state == (SdState::Retry { last_try }),
        store_action(store_begin(SdState::Retry { last_try }, now)) is None,
{
}

/// A store on an initialised medium, away from the end of a collection: the
/// packet takes the cursor as its identifier, the cursor moves on by one,
/// the frame is the encoded packet padded, it is appended to the collection
/// of that identifier, and the store ends with the identifier.
pub proof fn lemma_store_on_ready_medium(
    next_id: u32,
    now: i32,
    bytes: heapless::Vec<u8, AXL_POSTCARD_SZ>,
)
    requires
        rollover_due(SdState::Initialized { next_id }) is None,
        next_id < u32::MAX,
    ensures
        ({
            let begun = store_begin(SdState::Initialized { next_id }, now);
            let encoded = store_step(begun, Event::Encoded(Some(bytes)));
            let stored = store_step(encoded, Event::Appended(Ok(())));
            &&& begun.phase == StorePhase::Encoding { id: next_id }
            &&& begun.state == SdState::Initialized { next_id: (next_id + 1) as u32 }
            &&& store_action(begun) == Some(Action::Encode { id: next_id })
            &&& encoded.frame == padded(frame_bytes(bytes))
            &&& store_action(encoded) == Some(
                Action::Append {
                    dir: directory_of(next_id as nat) as u32,
                    collection: collection_of(next_id as nat) as u32,
                },
            )
            &&& stored.phase == StorePhase::Done(Ok(next_id))
            &&& stored.state == begun.state
        }),
{
}

/// A store whose append fails ends with the append's error and leaves the
/// medium uninitialised: no next identifier is reported until an acquisition
/// has scanned the medium again.
pub proof fn lemma_failed_append_invalidates(m: StoreModel, fault: WriteFault)
    requires
        m.phase is Appending,
    ensures
        store_step(m, Event::Appended(Err(fault))).state == SdState::Uninitialized,
        store_step(m, Event::Appended(Err(fault))).state.spec_next_id() is None,
        store_step(m, Event::Appended(Err(fault))).phase == StorePhase::Done(
            Err(write_error(fault)),
        ),
{
}

/// A packet that cannot be encoded, or does not fit a frame, is not stored:
/// the store ends with a serialisation error, the session is kept, and the
/// identifier that the packet was given is not assigned again.
pub proof fn lemma_unencodable_is_refused(m: StoreModel)
    requires
        m.phase is Encoding,
    ensures
        store_step(m, Event::Encoded(None)).phase == StorePhase::Done(
            Err(StorageErr::SerializationError),
        ),
        store_step(m, Event::Encoded(None)).state == m.state,
{
}

/// A store in progress. It holds the supervisor until it is finished.
pub struct Store {
    sd: SdHandle,
    phase: StorePhase,
    frame: Option<heapless::Vec<u8, AXL_POSTCARD_SZ>>,
}

impl View for Store {
    type V = StoreModel;

    closed spec fn view(&self) -> StoreModel {
        StoreModel {
            state: self.sd.state(),
            progress: self.sd.progress(),
            phase: self.phase,
            frame: match self.frame {
                Some(f) => frame_bytes(f),
                None => Seq::<u8>::empty(),
            },
        }
    }
}

impl Storage {
    /// Begins to store a packet at time `now`.
    pub fn store(self, now: i32) -> (op: Store)
        ensures
            op.wf(),
            op@ == store_begin(self@, now),
    {
        let sd = self.acquire(now);
        let mut op = Store { sd, phase: StorePhase::Acquiring, frame: None };
        op.settle();
        op
    }
}

impl Store {
    /// Well-formedness: the model is one that a store can have.
    pub open spec fn wf(&self) -> bool {
        store_wf(self@)
    }

    fn settle(&mut self)
        requires
            progress_wf(old(self)@.progress),
        ensures
            final(self).wf(),
            final(self)@ == store_settle(old(self)@),
    {
        match self.sd.ready() {
            Ok(()) => match self.sd.rollover() {
                Some(start) => {
                    self.phase = StorePhase::Rollover { start, scan: begin_phase(start) };
                },
                None => {
                    self.assign(None);
                },
            },
            Err(e) => {
                if self.sd.action().is_none() {
                    self.phase = StorePhase::Done(Err(e));
                } else {
                    self.phase = StorePhase::Acquiring;
                }
            },
        }
    }

    fn assign(&mut self, scanned: Option<Result<u32, StorageErr>>)
        requires
            old(self)@.progress is Ready,
        ensures
            final(self).wf(),
            final(self)@ == store_assign(old(self)@, scanned),
    {
        proof {
            if let SdState::Initialized { next_id } = self@.state {
                lemma_advance_increases(next_id, scanned);
            }
        }
        match self.sd.advance_id(scanned) {
            Ok(id) => {
                self.phase = StorePhase::Encoding { id };
            },
            Err(e) => {
                self.phase = StorePhase::Done(Err(e));
            },
        }
    }

    /// What the driver is to do next; `None` once the store is over.
    pub fn action(&self) -> (a: Option<Action>)
        requires
            self.wf(),
        ensures
            a == store_action(self@),
            a is None <==> self@.phase is Done,
    {
        match self.phase {
            StorePhase::Acquiring => self.sd.action(),
            StorePhase::Rollover { start, scan } => match probe_of(scan) {
                Some(probe) => Some(Action::Lookup(probe)),
                None => None,
            },
            StorePhase::Encoding { id } => Some(Action::Encode { id }),
            StorePhase::Appending { id } => {
                let collection: u32 = id / COLLECTION_SIZE;
                Some(Action::Append { dir: collection / DIR_SIZE, collection })
            },
            StorePhase::Done(_) => None,
        }
    }

    /// The frame to append, once the packet has been encoded.
    pub fn frame(&self) -> (f: Option<&heapless::Vec<u8, AXL_POSTCARD_SZ>>)
        ensures
            match f {
                Some(f) => frame_bytes(*f) == self@.frame,
                None => self@.frame == Seq::<u8>::empty(),
            },
    {
        self.frame.as_ref()
    }

    /// Takes what the driver reports of the last action.
    pub fn feed(&mut self, event: Event)
        requires
            old(self).wf(),
        ensures
            final(self).wf(),
            final(self)@ == store_step(old(self)@, event),
    {
        match (self.phase, event) {
            (StorePhase::Acquiring, event) => {
                self.sd.feed(event);
                self.settle();
            },
            (StorePhase::Rollover { start, scan }, Event::Looked(lookup)) => {
                match step_phase(start, scan, lookup) {
                    ScanPhase::Done(found) => {
                        self.assign(Some(found));
                    },
                    next => {
                        self.phase = StorePhase::Rollover { start, scan: next };
                    },
                }
            },
            (StorePhase::Encoding { id }, Event::Encoded(Some(bytes))) => {
                self.frame = Some(frame(bytes));
                self.phase = StorePhase::Appending { id };
            },
            (StorePhase::Encoding { id }, Event::Encoded(None)) => {
                self.phase = StorePhase::Done(Err(StorageErr::SerializationError));
            },
            (StorePhase::Appending { id }, Event::Appended(outcome)) => {
                match self.sd.write(outcome) {
                    Ok(()) => {
                        self.phase = StorePhase::Done(Ok(id));
                    },
                    Err(e) => {
                        self.phase = StorePhase::Done(Err(e));
                    },
                }
            },
            _ => {},
        }
    }

    /// The result of the store, once it is over.
    pub fn result(&self) -> (r: Option<Result<u32, StorageErr>>)
        ensures
            r == match self@.phase {
                StorePhase::Done(done) => Some(done),
                _ => None,
            },
    {
        match self.phase {
            StorePhase::Done(done) => Some(done),
            _ => None,
        }
    }

    /// Ends the store and gives the supervisor back, with the identifier
    /// under which the packet was stored; the cursor then lies beyond that
    /// identifier. A store that is given up before it is over has stored
    /// nothing that can be relied on.
    pub fn finish(self) -> (r: (Storage, Result<u32, StorageErr>))
        requires
            self.wf(),
        ensures
            r.0@ == self@.state,
            r.1 == match self@.phase {
                StorePhase::Done(done) => done,
                _ => Err(StorageErr::Uninitialized),
            },
            r.1 matches Ok(id) ==> cursor_beyond(r.0@, id),
    {
        let done = match self.phase {
            StorePhase::Done(done) => done,
            _ => Err(StorageErr::Uninitialized),
        };
        (self.sd.release(), done)
    }
}

} // verus!
