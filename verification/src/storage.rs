//! The storage supervisor and its session handle.
//!
//! A [`Storage`] holds the session state between operations. To touch the
//! medium it is handed over to an [`SdHandle`], which gives it back when it is
//! released: while a handle is out there is no `Storage` to acquire another
//! from.

use vstd::prelude::*;
use crate::codec::{
    collection_of, directory_of_collection, slot_of, AXL_POSTCARD_SZ, COLLECTION_SIZE,
};
use crate::error::{FsFault, StorageErr};
use crate::scanner::{
    begin_phase, is_first_free, lemma_first_free_is_missing, lemma_scan_finds_first_free,
    lemma_scan_passes_existing, listing_wf, probe_of, scan_begin, scan_left, scan_probe,
    scan_rank, scan_run, scan_step, scan_wf, step_phase, truthful, Listing, Scan, ScanPhase,
};
use crate::session::{
    cooling, must_probe, read_error, write_error, Action, Event, ReadFault, SdSpiSpeed, SdState,
    WriteFault, SD_RETRY_DELAY,
};

verus! {

/// How far the acquisition of a session has come.
#[derive(Clone, Copy, Debug, PartialEq, Eq)]
pub enum Progress {
    /// The cooldown of a failed attempt is running: the medium must not be
    /// touched.
    Refused,
    /// The driver is to switch to the low speed.
    LowSpeed,
    /// The card's size is being asked for.
    Capacity,
    /// The driver is to switch to the high speed.
    HighSpeed,
    /// The medium is being scanned for its first free collection.
    Scanning(ScanPhase),
    /// Initialisation has failed.
    Failed(StorageErr),
    /// The medium is initialised.
    Ready,
}

/// State and progress with which an acquisition at `now` begins.
pub open spec fn acquire_spec(state: SdState, now: i32) -> (SdState, Progress) {
    if must_probe(state, now) {
        (SdState::Retry { last_try: now }, Progress::LowSpeed)
    } else if state is Initialized {
        (state, Progress::Ready)
    } else {
        (state, Progress::Refused)
    }
}

/// What an acquisition asks of the driver; nothing once it is settled.
pub open spec fn progress_action(progress: Progress) -> Option<Action> {
    match progress {
        Progress::LowSpeed => Some(Action::Reclock(SdSpiSpeed::Low)),
        Progress::Capacity => Some(Action::QueryCapacity),
        Progress::HighSpeed => Some(Action::Reclock(SdSpiSpeed::High)),
        Progress::Scanning(phase) => match scan_probe(phase) {
            Some(probe) => Some(Action::Lookup(probe)),
            None => None,
        },
        _ => None,
    }
}

/// The outcome of an acquisition: usable, or why not. An acquisition that is
/// still under way is not usable.
pub open spec fn progress_ready(progress: Progress) -> Result<(), StorageErr> {
    match progress {
        Progress::Ready => Ok(()),
        Progress::Failed(e) => Err(e),
        _ => Err(StorageErr::Uninitialized),
    }
}

/// What a session makes of an outcome: one that is not usable takes nothing
/// in, keeps its state and answers with the reason why it is not usable.
pub open spec fn guarded<T>(
    progress: Progress,
    state: SdState,
    taken: (SdState, Result<T, StorageErr>),
) -> (SdState, Result<T, StorageErr>) {
    match progress_ready(progress) {
        Ok(()) => taken,
        Err(e) => (state, Err(e)),
    }
}

/// The first identifier of collection `c`, if there is one.
pub open spec fn first_id(c: u32) -> Option<u32> {
    if c * COLLECTION_SIZE <= u32::MAX {
        Some((c * COLLECTION_SIZE) as u32)
    } else {
        None
    }
}

/// Where an initialisation stands after its scan has reached `phase`.
pub open spec fn scanned_spec(state: SdState, phase: ScanPhase) -> (SdState, Progress) {
    match phase {
        ScanPhase::Done(Ok(c)) => match first_id(c) {
            Some(next_id) => (SdState::Initialized { next_id }, Progress::Ready),
            None => (state, Progress::Failed(StorageErr::DiskFull)),
        },
        ScanPhase::Done(Err(e)) => (state, Progress::Failed(e)),
        _ => (state, Progress::Scanning(phase)),
    }
}

/// State and progress of an acquisition after `event`. An event that the
/// acquisition does not wait for changes nothing.
pub open spec fn progress_step(state: SdState, progress: Progress, event: Event) -> (
    SdState,
    Progress,
) {
    match (progress, event) {
        (Progress::LowSpeed, Event::Reclocked) => (state, Progress::Capacity),
        (Progress::Capacity, Event::Capacity(Ok(_))) => (state, Progress::HighSpeed),
        (Progress::Capacity, Event::Capacity(Err(e))) => (
            state,
            Progress::Failed(StorageErr::SdMmcErr(e)),
        ),
        (Progress::HighSpeed, Event::Reclocked) => (state, Progress::Scanning(scan_begin(0))),
        (Progress::Scanning(phase), Event::Looked(lookup)) => scanned_spec(
            state,
            scan_step(0, phase, lookup),
        ),
        _ => (state, progress),
    }
}

/// The progress values that an acquisition can have.
pub open spec fn progress_wf(progress: Progress) -> bool {
    match progress {
        Progress::Scanning(phase) => scan_wf(0, phase) && !(phase is Done),
        _ => true,
    }
}

/// The collection from which the medium has to be scanned before the next
/// identifier is assigned: the one that the identifier after it would open.
pub open spec fn rollover_due(state: SdState) -> Option<u32> {
    match state {
        SdState::Initialized { next_id } => if next_id < u32::MAX && (next_id + 1) % (
        COLLECTION_SIZE as int) == 0 {
            Some(((next_id + 1) / (COLLECTION_SIZE as int)) as u32)
        } else {
            None
        },
        _ => None,
    }
}

/// State and result of assigning the next identifier, given what a scan from
/// the collection after it has found, if one was made.
///
/// The identifier assigned is the cursor. The cursor moves on by one, or,
/// where the scan found a free collection beyond the one that the successor
/// lies in, to that collection's first identifier. Nothing is assigned, and
/// the cursor stays, where the cursor has no successor, where the scan
/// failed, and where the successor opens a collection and no scan was made:
/// a collection that has not been looked for is not begun.
pub open spec fn advance_spec(state: SdState, scanned: Option<Result<u32, StorageErr>>) -> (
    SdState,
    Result<u32, StorageErr>,
) {
    match state {
        SdState::Initialized { next_id } => if next_id == u32::MAX {
            (state, Err(StorageErr::DiskFull))
        } else {
            let candidate = (next_id + 1) as u32;
            match scanned {
                Some(Err(e)) => (state, Err(e)),
                Some(Ok(free)) if free > candidate / COLLECTION_SIZE => match first_id(free) {
                    Some(jump) => (SdState::Initialized { next_id: jump }, Ok(next_id)),
                    None => (state, Err(StorageErr::DiskFull)),
                },
                None if rollover_due(state) is Some => (state, Err(StorageErr::Uninitialized)),
                _ => (SdState::Initialized { next_id: candidate }, Ok(next_id)),
            }
        },
        _ => (state, Err(StorageErr::Uninitialized)),
    }
}

/// State and result of an append that ended with `outcome`: any failure
/// leaves nothing known of the medium.
pub open spec fn write_spec(state: SdState, outcome: Result<(), WriteFault>) -> (
    SdState,
    Result<(), StorageErr>,
) {
    match outcome {
        Ok(()) => (state, Ok(())),
        Err(fault) => (SdState::Uninitialized, Err(write_error(fault))),
    }
}

/// Whether a file of `length` bytes holds the whole frame at `offset`.
pub open spec fn covers(length: u32, offset: usize) -> bool {
    offset + AXL_POSTCARD_SZ <= length
}

/// State and result of opening a collection for the frame at `offset`. A
/// file that does not reach that far is reported as not found, and the
/// medium stays trusted; a file that cannot be opened leaves nothing known of
/// it.
pub open spec fn measure_spec(
    state: SdState,
    offset: usize,
    measured: Result<u32, FsFault>,
) -> (
    SdState,
    Result<(), StorageErr>,
) {
    match measured {
        Ok(length) => if covers(length, offset) {
            (state, Ok(()))
        } else {
            (state, Err(StorageErr::GenericSdMmmcErr(FsFault::NotFound)))
        },
        Err(e) => (SdState::Uninitialized, Err(StorageErr::GenericSdMmmcErr(e))),
    }
}

/// State and result of a read that ended with `outcome`: the number of bytes
/// read, or the failure, which leaves nothing known of the medium.
pub open spec fn read_spec(state: SdState, outcome: Result<usize, ReadFault>) -> (
    SdState,
    Result<usize, StorageErr>,
) {
    match outcome {
        Ok(n) => (state, Ok(n)),
        Err(fault) => (SdState::Uninitialized, Err(read_error(fault))),
    }
}

/// State and result of a deletion that ended with `outcome`: a failure is
/// reported, and the medium stays trusted.
pub open spec fn remove_spec(state: SdState, outcome: Result<(), FsFault>) -> (
    SdState,
    Result<(), StorageErr>,
) {
    match outcome {
        Ok(()) => (state, Ok(())),
        Err(e) => (state, Err(StorageErr::GenericSdMmmcErr(e))),
    }
}

/// Which part of its scan an acquisition is in; zero when it is not scanning.
pub open spec fn progress_rank(progress: Progress) -> int {
    match progress {
        Progress::Scanning(phase) => scan_rank(phase),
        _ => 0,
    }
}

/// How many questions are left at most within that part.
pub open spec fn progress_left(progress: Progress) -> int {
    match progress {
        Progress::Scanning(phase) => scan_left(phase),
        _ => 0,
    }
}

/// State and progress with which the scan of an acquisition ends when it
/// continues on a medium that holds `listing` and does not fail.
pub open spec fn progress_run(listing: Listing, state: SdState, progress: Progress) -> (
    SdState,
    Progress,
)
    decreases progress_rank(progress), progress_left(progress),
    when progress_wf(progress)
{
    match progress {
        Progress::Scanning(phase) => match scan_probe(phase) {
            Some(probe) => {
                let (after, next) = progress_step(
                    state,
                    progress,
                    Event::Looked(truthful(listing, probe)),
                );
                progress_run(listing, after, next)
            },
            None => (state, progress),
        },
        _ => (state, progress),
    }
}

proof fn lemma_run_follows_scan(listing: Listing, state: SdState, phase: ScanPhase)
    requires
        scan_wf(0, phase),
        !(phase is Done),
    ensures
        progress_run(listing, state, Progress::Scanning(phase)) == scanned_spec(
            state,
            scan_run(listing, 0, phase),
        ),
        scan_run(listing, 0, phase) is Done,
    decreases scan_rank(phase), scan_left(phase),
{
    let probe = scan_probe(phase)->Some_0;
    let next = scan_step(0, phase, truthful(listing, probe));
    assert(scan_run(listing, 0, phase) == scan_run(listing, 0, next));
    match next {
        ScanPhase::Done(_) => {
            assert(scan_run(listing, 0, next) == next);
            let (after, settled) = scanned_spec(state, next);
            assert(progress_run(listing, after, settled) == (after, settled));
        },
        _ => {
            lemma_run_follows_scan(listing, state, next);
        },
    }
}

/// Cold start. On a card that answers and on a medium that holds `listing`
/// and does not fail, an initialisation switches to low speed, asks for the
/// card's size, switches to high speed and scans from the beginning. It ends
/// ready, with the cursor on the first identifier of the first free
/// collection, or, where every directory exists or that collection has no
/// identifier, as a full disk with the failed attempt still recorded.
pub proof fn lemma_cold_start_finds_first_free(
    listing: Listing,
    state: SdState,
    now: i32,
    size: u64,
)
    requires
        listing_wf(listing),
        must_probe(state, now),
    ensures
        ({
            let (begun, low) = acquire_spec(state, now);
            let (_, capacity) = progress_step(begun, low, Event::Reclocked);
            let (_, high) = progress_step(begun, capacity, Event::Capacity(Ok(size)));
            let (_, scanning) = progress_step(begun, high, Event::Reclocked);
            let (after, settled) = progress_run(listing, begun, scanning);
            &&& begun == SdState::Retry { last_try: now }
            &&& progress_action(low) == Some(Action::Reclock(SdSpiSpeed::Low))
            &&& progress_action(capacity) == Some(Action::QueryCapacity)
            &&& progress_action(high) == Some(Action::Reclock(SdSpiSpeed::High))
            &&& match settled {
                Progress::Ready => exists|c: u32|
                    {
                        &&& #[trigger] is_first_free(listing, 0, Ok(c))
                        &&& !listing.files.contains(c as nat)
                        &&& c * COLLECTION_SIZE <= u32::MAX
                        &&& after == SdState::Initialized { next_id: (c * COLLECTION_SIZE) as u32 }
                        &&& collection_of((c * COLLECTION_SIZE) as nat) == c
                        &&& slot_of((c * COLLECTION_SIZE) as nat) == 0
                    },
                Progress::Failed(e) => {
                    &&& e == StorageErr::DiskFull
                    &&& after == begun
                    &&& is_first_free(listing, 0, Err(StorageErr::DiskFull)) || exists|c: u32|
                        #[trigger] is_first_free(listing, 0, Ok(c)) && c * COLLECTION_SIZE
                            > u32::MAX
                },
                _ => false,
            }
        }),
{
    let begun = SdState::Retry { last_try: now };
    lemma_scan_finds_first_free(listing, 0);
    lemma_run_follows_scan(listing, begun, scan_begin(0));
    match scan_run(listing, 0, scan_begin(0)) {
        ScanPhase::Done(Ok(c)) => {
            lemma_first_free_is_missing(listing, 0, c);
            assert(is_first_free(listing, 0, Ok(c)));
            assert((c * 100) / 100 == c && (c * 100) % 100 == 0) by (nonlinear_arith);
        },
        _ => {},
    }
}

/// Retry throttling. After an attempt at `last_try` that has not succeeded,
/// an acquisition before the cooldown has passed is refused, leaves the state
/// as it is and asks nothing of the driver. One at the very second at which
/// the cooldown has passed, or later, records a new attempt and begins, at
/// low speed, to initialise the medium.
pub proof fn lemma_retry_is_throttled(last_try: i32, now: i32)
    ensures
        cooling(last_try, now) <==> now - last_try < SD_RETRY_DELAY,
        now - last_try < SD_RETRY_DELAY ==> {
            let (state, progress) = acquire_spec(SdState::Retry { last_try }, now);
            &&& state == SdState::Retry { last_try }
            &&& progress == Progress::Refused
            &&& progress_action(progress) is None
            &&& progress_ready(progress) == Err::<(), StorageErr>(StorageErr::Uninitialized)
        },
        now - last_try >= SD_RETRY_DELAY ==> {
            let (state, progress) = acquire_spec(SdState::Retry { last_try }, now);
            &&& state == SdState::Retry { last_try: now }
            &&& progress == Progress::LowSpeed
            &&& progress_action(progress) == Some(Action::Reclock(SdSpiSpeed::Low))
        },
{
}

/// An acquisition changes the session state in one way only: the scan that
/// ends it with a free collection makes the medium initialised, with the
/// cursor on that collection's first identifier. Until then a medium that was
/// not initialised stays so, and a failed attempt stays recorded.
pub proof fn lemma_initialised_by_scan_only(state: SdState, progress: Progress, event: Event)
    requires
        progress_wf(progress),
    ensures
        ({
            let (after, next) = progress_step(state, progress, event);
            after != state ==> {
                &&& progress matches Progress::Scanning(phase)
                &&& event matches Event::Looked(lookup)
                &&& scan_step(0, phase, lookup) matches ScanPhase::Done(Ok(c))
                &&& after == SdState::Initialized { next_id: (c * COLLECTION_SIZE) as u32 }
                &&& c * COLLECTION_SIZE <= u32::MAX
                &&& collection_of((c * COLLECTION_SIZE) as nat) == c
                &&& slot_of((c * COLLECTION_SIZE) as nat) == 0
                &&& next == Progress::Ready
            }
        }),
        progress_wf(progress_step(state, progress, event).1),
{
    if let Progress::Scanning(phase) = progress {
        if let Event::Looked(lookup) = event {
            if let ScanPhase::Done(Ok(c)) = scan_step(0, phase, lookup) {
                assert((c * 100) / 100 == c && (c * 100) % 100 == 0) by (nonlinear_arith);
            }
        }
    }
}

/// Post-failure invalidation. A failed append, a collection that cannot be
/// opened and a failed read each leave the medium uninitialised, with no next
/// identifier to report.
pub proof fn lemma_failure_invalidates(state: SdState, offset: usize)
    ensures
        forall|fault: WriteFault|
            (#[trigger] write_spec(state, Err(fault))).0 == SdState::Uninitialized,
        forall|fault: ReadFault|
            (#[trigger] read_spec(state, Err(fault))).0 == SdState::Uninitialized,
        forall|fault: FsFault|
            (#[trigger] measure_spec(state, offset, Err(fault))).0 == SdState::Uninitialized,
        SdState::Uninitialized.spec_next_id() is None,
{
}

/// What succeeds leaves the session state alone, and so does a slot that has
/// not been written yet.
pub proof fn lemma_success_keeps_state(state: SdState, offset: usize, length: u32, n: usize)
    ensures
        write_spec(state, Ok(())).0 == state,
        read_spec(state, Ok(n)).0 == state,
        measure_spec(state, offset, Ok(length)).0 == state,
        !covers(length, offset) ==> measure_spec(state, offset, Ok(length)).1 == Err::<
            (),
            StorageErr,
        >(StorageErr::GenericSdMmmcErr(FsFault::NotFound)),
{
}

/// Identifiers only grow: what is assigned is the cursor, and the cursor
/// moves beyond it. Nothing is assigned where the cursor does not move.
pub proof fn lemma_advance_increases(next_id: u32, scanned: Option<Result<u32, StorageErr>>)
    ensures
        match advance_spec(SdState::Initialized { next_id }, scanned) {
            (state, Ok(id)) => {
                &&& id == next_id
                &&& state matches SdState::Initialized { next_id: after }
                &&& after > id
            },
            (state, Err(_)) => state == SdState::Initialized { next_id },
        },
{
    if next_id < u32::MAX {
        let candidate = (next_id + 1) as u32;
        if let Some(Ok(free)) = scanned {
            if free > candidate / COLLECTION_SIZE {
                assert(free * 100 > candidate) by (nonlinear_arith)
                    requires
                        free > candidate / 100,
                ;
            }
        }
    }
}

/// No collection is begun unscanned. Where the identifier after the next one
/// opens a collection and no scan is handed in, nothing is assigned and the
/// cursor stays.
pub proof fn lemma_unscanned_rollover_assigns_nothing(state: SdState)
    requires
        rollover_due(state) is Some,
    ensures
        advance_spec(state, None) == (state, Err::<u32, StorageErr>(StorageErr::Uninitialized)),
{
}

/// Rollover safety. Where the identifier after the next one opens collection
/// `k`, the file of `k` exists already, and `found` is what a scan from `k`
/// owes on the medium, the cursor moves to the first slot of the collection
/// that the scan found, which lies beyond `k`: no identifier of `k` is ever
/// assigned. Where the scan owes an error, or no identifier is left, nothing
/// is assigned and the cursor stays.
pub proof fn lemma_rollover_skips_existing(
    next_id: u32,
    listing: Listing,
    found: Result<u32, StorageErr>,
)
    requires
        rollover_due(SdState::Initialized { next_id }) is Some,
        ({
            let k = rollover_due(SdState::Initialized { next_id })->Some_0;
            &&& listing.dirs.contains(directory_of_collection(k as nat))
            &&& listing.files.contains(k as nat)
            &&& is_first_free(listing, k as nat, found)
        }),
    ensures
        ({
            let k = rollover_due(SdState::Initialized { next_id })->Some_0;
            match advance_spec(SdState::Initialized { next_id }, Some(found)) {
                (state, Ok(id)) => {
                    &&& id == next_id
                    &&& found matches Ok(free)
                    &&& free > k
                    &&& state matches SdState::Initialized { next_id: after }
                    &&& collection_of(after as nat) == free
                    &&& slot_of(after as nat) == 0
                },
                (state, Err(_)) => state == SdState::Initialized { next_id },
            }
        }),
{
    let k = rollover_due(SdState::Initialized { next_id })->Some_0;
    assert(k == (next_id + 1) / 100);
    if let Ok(free) = found {
        lemma_scan_passes_existing(listing, k as nat, free);
        if free * COLLECTION_SIZE <= u32::MAX {
            assert((free * 100) / 100 == free && (free * 100) % 100 == 0) by (nonlinear_arith);
        }
    }
}

/// No collection is begun on top of a file. Where the identifier after the
/// next one opens a collection and `found` is what a scan from that
/// collection owes on the medium, the cursor comes to stand on the first slot
/// of a collection whose file does not exist, whether it jumped or not.
pub proof fn lemma_rollover_begins_free_collection(
    next_id: u32,
    listing: Listing,
    found: Result<u32, StorageErr>,
)
    requires
        listing_wf(listing),
        rollover_due(SdState::Initialized { next_id }) is Some,
        is_first_free(
            listing,
            rollover_due(SdState::Initialized { next_id })->Some_0 as nat,
            found,
        ),
    ensures
        advance_spec(SdState::Initialized { next_id }, Some(found)).1 is Ok ==> {
            let state = advance_spec(SdState::Initialized { next_id }, Some(found)).0;
            &&& state matches SdState::Initialized { next_id: after }
            &&& slot_of(after as nat) == 0
            &&& !listing.files.contains(collection_of(after as nat))
        },
{
    let k = rollover_due(SdState::Initialized { next_id })->Some_0;
    assert(k == (next_id + 1) / 100);
    assert((next_id + 1) % 100 == 0);
    if let Ok(free) = found {
        lemma_first_free_is_missing(listing, k as nat, free);
        if free > k {
            if free * COLLECTION_SIZE <= u32::MAX {
                assert((free * 100) / 100 == free && (free * 100) % 100 == 0) by (nonlinear_arith);
            }
        } else if listing.dirs.contains(directory_of_collection(k as nat)) {
            lemma_scan_passes_existing(listing, k as nat, free);
        }
    }
}

/// The storage supervisor between operations.
pub struct Storage {
    state: SdState,
}

impl View for Storage {
    type V = SdState;

    closed spec fn view(&self) -> SdState {
        self.state
    }
}

impl Storage {
    /// A store of which nothing is known yet. The medium is not touched.
    pub fn open() -> (storage: Storage)
        ensures
            storage@ == SdState::Uninitialized,
    {
        Storage { state: SdState::Uninitialized }
    }

    /// The next free identifier; `None` while the medium is not initialised.
    pub fn next_id(&self) -> (r: Option<u32>)
        ensures
            r == self@.spec_next_id(),
    {
        self.state.next_id()
    }

    /// Forgets what is known of the medium, so that the next acquisition
    /// initialises it again.
    pub fn deinit(&mut self)
        ensures
            final(self)@ == SdState::Uninitialized,
    {
        self.state = SdState::Uninitialized;
    }

    /// Begins a session at time `now`.
    ///
    /// An initialised medium is usable at once. Within the cooldown of a
    /// failed attempt the session is refused and asks nothing of the driver.
    /// Otherwise the attempt is recorded as made at `now`, and the session
    /// asks the driver to initialise the medium.
    pub fn acquire(self, now: i32) -> (sd: SdHandle)
        ensures
            sd.wf(),
            (sd.state(), sd.progress()) == acquire_spec(self@, now),
    {
        SdHandle::acquire(self, now)
    }
}

/// A session: the one way to the medium. It holds the supervisor until it is
/// released.
pub struct SdHandle {
    storage: Storage,
    progress: Progress,
}

impl SdHandle {
    /// The session state.
    pub closed spec fn state(&self) -> SdState {
        self.storage@
    }

    /// How far the acquisition has come.
    pub closed spec fn progress(&self) -> Progress {
        self.progress
    }

    /// Well-formedness: the progress is one that an acquisition can have.
    pub open spec fn wf(&self) -> bool {
        progress_wf(self.progress())
    }

    /// Begins a session on `storage` at time `now`.
    pub fn acquire(storage: Storage, now: i32) -> (sd: SdHandle)
        ensures
            sd.wf(),
            (sd.state(), sd.progress()) == acquire_spec(storage@, now),
    {
        let mut storage = storage;
        if storage.state.probe_due(now) {
            storage.state = SdState::Retry { last_try: now };
            SdHandle { storage, progress: Progress::LowSpeed }
        } else {
            match storage.state {
                SdState::Initialized { .. } => SdHandle { storage, progress: Progress::Ready },
                _ => SdHandle { storage, progress: Progress::Refused },
            }
        }
    }

    /// Ends the session and gives the supervisor back.
    pub fn release(self) -> (storage: Storage)
        ensures
            storage@ == self.state(),
    {
        self.storage
    }

    /// What the driver is to do next to initialise the medium; `None` once
    /// the acquisition is settled.
    pub fn action(&self) -> (a: Option<Action>)
        ensures
            a == progress_action(self.progress()),
    {
        match self.progress {
            Progress::LowSpeed => Some(Action::Reclock(SdSpiSpeed::Low)),
            Progress::Capacity => Some(Action::QueryCapacity),
            Progress::HighSpeed => Some(Action::Reclock(SdSpiSpeed::High)),
            Progress::Scanning(phase) => match probe_of(phase) {
                Some(probe) => Some(Action::Lookup(probe)),
                None => None,
            },
            _ => None,
        }
    }

    /// Takes what the driver reports of the last action.
    pub fn feed(&mut self, event: Event)
        requires
            old(self).wf(),
        ensures
            final(self).wf(),
            (final(self).state(), final(self).progress()) == progress_step(
                old(self).state(),
                old(self).progress(),
                event,
            ),
    {
        match (self.progress, event) {
            (Progress::LowSpeed, Event::Reclocked) => {
                self.progress = Progress::Capacity;
            },
            (Progress::Capacity, Event::Capacity(Ok(_))) => {
                self.progress = Progress::HighSpeed;
            },
            (Progress::Capacity, Event::Capacity(Err(e))) => {
                self.progress = Progress::Failed(StorageErr::SdMmcErr(e));
            },
            (Progress::HighSpeed, Event::Reclocked) => {
                self.progress = Progress::Scanning(begin_phase(0));
            },
            (Progress::Scanning(phase), Event::Looked(lookup)) => {
                match step_phase(0, phase, lookup) {
                    ScanPhase::Done(Ok(c)) => match c.checked_mul(COLLECTION_SIZE) {
                        Some(next_id) => {
                            self.storage.state = SdState::Initialized { next_id };
                            self.progress = Progress::Ready;
                        },
                        None => {
                            self.progress = Progress::Failed(StorageErr::DiskFull);
                        },
                    },
                    ScanPhase::Done(Err(e)) => {
                        self.progress = Progress::Failed(e);
                    },
                    next => {
                        self.progress = Progress::Scanning(next);
                    },
                }
            },
            _ => {},
        }
    }

    /// Whether the session is usable, and if not, why: the error of the
    /// initialisation that failed, or `Uninitialized` for a session that was
    /// refused or is not settled yet.
    pub fn ready(&self) -> (r: Result<(), StorageErr>)
        ensures
            r == progress_ready(self.progress()),
    {
        match self.progress {
            Progress::Ready => Ok(()),
            Progress::Failed(e) => Err(e),
            _ => Err(StorageErr::Uninitialized),
        }
    }

    /// The next free identifier; `None` while the medium is not initialised.
    pub fn next_id(&self) -> (r: Option<u32>)
        ensures
            r == self.state().spec_next_id(),
    {
        self.storage.state.next_id()
    }

    /// A scan for the first free collection, from collection `start` or from
    /// the beginning of the medium.
    pub fn find_first_free_collection(start: Option<u32>) -> (scan: Scan)
        ensures
            scan.wf(),
            scan.start() == match start {
                Some(s) => s,
                None => 0,
            },
            scan.phase() == scan_begin(scan.start()),
    {
        Scan::new(start)
    }

    /// The collection from which the medium has to be scanned before
    /// `advance_id` is called: `Some` where the identifier after the next one
    /// opens a collection.
    pub fn rollover(&self) -> (r: Option<u32>)
        ensures
            r == match progress_ready(self.progress()) {
                Ok(()) => rollover_due(self.state()),
                Err(_) => None,
            },
    {
        if self.ready().is_err() {
            return None;
        }
        match self.storage.state {
            SdState::Initialized { next_id } => if next_id < u32::MAX && (next_id + 1)
                % COLLECTION_SIZE == 0 {
                Some((next_id + 1) / COLLECTION_SIZE)
            } else {
                None
            },
            _ => None,
        }
    }

    /// Assigns the next identifier and moves the cursor on; `scanned` is the
    /// outcome of the scan that `rollover` asked for, if it asked for one.
    /// Where it asked for one and none is handed in, nothing is assigned.
    pub fn advance_id(&mut self, scanned: Option<Result<u32, StorageErr>>) -> (r: Result<
        u32,
        StorageErr,
    >)
        ensures
            final(self).progress() == old(self).progress(),
            (final(self).state(), r) == guarded(
                old(self).progress(),
                old(self).state(),
                advance_spec(old(self).state(), scanned),
            ),
    {
        if let Err(e) = self.ready() {
            return Err(e);
        }
        match self.storage.state {
            SdState::Initialized { next_id } => {
                if next_id == u32::MAX {
                    return Err(StorageErr::DiskFull);
                }
                let candidate: u32 = next_id + 1;
                match scanned {
                    None if candidate % COLLECTION_SIZE == 0 => Err(StorageErr::Uninitialized),
                    Some(Err(e)) => Err(e),
                    Some(Ok(free)) if free > candidate / COLLECTION_SIZE => {
                        match free.checked_mul(COLLECTION_SIZE) {
                            Some(jump) => {
                                self.storage.state = SdState::Initialized { next_id: jump };
                                Ok(next_id)
                            },
                            None => Err(StorageErr::DiskFull),
                        }
                    },
                    _ => {
                        self.storage.state = SdState::Initialized { next_id: candidate };
                        Ok(next_id)
                    },
                }
            },
            _ => Err(StorageErr::Uninitialized),
        }
    }

    /// Takes the outcome of an append. A failure at any step resets the
    /// session state.
    pub fn write(&mut self, outcome: Result<(), WriteFault>) -> (r: Result<(), StorageErr>)
        ensures
            final(self).progress() == old(self).progress(),
            (final(self).state(), r) == guarded(
                old(self).progress(),
                old(self).state(),
                write_spec(old(self).state(), outcome),
            ),
    {
        if let Err(e) = self.ready() {
            return Err(e);
        }
        match outcome {
            Ok(()) => Ok(()),
            Err(fault) => {
                self.storage.state = SdState::Uninitialized;
                Err(
                    match fault {
                        WriteFault::Open(e) => StorageErr::GenericSdMmmcErr(e),
                        WriteFault::Seek => StorageErr::WriteError,
                        WriteFault::Write(e) => StorageErr::GenericSdMmmcErr(e),
                    },
                )
            },
        }
    }

    /// Takes the outcome of opening a collection for the frame at `offset`,
    /// and decides whether the frame can be read.
    pub fn measure(&mut self, offset: usize, measured: Result<u32, FsFault>) -> (r: Result<
        (),
        StorageErr,
    >)
        ensures
            final(self).progress() == old(self).progress(),
            (final(self).state(), r) == guarded(
                old(self).progress(),
                old(self).state(),
                measure_spec(old(self).state(), offset, measured),
            ),
    {
        if let Err(e) = self.ready() {
            return Err(e);
        }
        match measured {
            Ok(length) => {
                if length as u64 >= AXL_POSTCARD_SZ as u64 && offset as u64 <= length as u64
                    - AXL_POSTCARD_SZ as u64 {
                    Ok(())
                } else {
                    Err(StorageErr::GenericSdMmmcErr(FsFault::NotFound))
                }
            },
            Err(e) => {
                self.storage.state = SdState::Uninitialized;
                Err(StorageErr::GenericSdMmmcErr(e))
            },
        }
    }

    /// Takes the outcome of reading a frame. A failure resets the session
    /// state.
    pub fn read(&mut self, outcome: Result<usize, ReadFault>) -> (r: Result<usize, StorageErr>)
        ensures
            final(self).progress() == old(self).progress(),
            (final(self).state(), r) == guarded(
                old(self).progress(),
                old(self).state(),
                read_spec(old(self).state(), outcome),
            ),
    {
        if let Err(e) = self.ready() {
            return Err(e);
        }
        match outcome {
            Ok(n) => Ok(n),
            Err(fault) => {
                self.storage.state = SdState::Uninitialized;
                Err(
                    match fault {
                        ReadFault::Seek => StorageErr::ReadPackageError,
                        ReadFault::Read(e) => StorageErr::GenericSdMmmcErr(e),
                    },
                )
            },
        }
    }

    /// Takes the outcome of deleting a collection. A failure is reported and
    /// leaves the session state as it is.
    pub fn remove_collection(&mut self, outcome: Result<(), FsFault>) -> (r: Result<
        (),
        StorageErr,
    >)
        ensures
            final(self).progress() == old(self).progress(),
            (final(self).state(), r) == guarded(
                old(self).progress(),
                old(self).state(),
                remove_spec(old(self).state(), outcome),
            ),
    {
        if let Err(e) = self.ready() {
            return Err(e);
        }
        match outcome {
            Ok(()) => Ok(()),
            Err(e) => Err(StorageErr::GenericSdMmmcErr(e)),
        }
    }
}

} // verus!
