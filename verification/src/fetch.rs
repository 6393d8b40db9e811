//! Reading a packet back: acquire a session, make sure that the collection
//! reaches as far as the packet's slot, and read the slot.

use vstd::prelude::*;
use crate::codec::{
    collection_of, directory_of, offset_of, AXL_POSTCARD_SZ, COLLECTION_SIZE, DIR_SIZE, PACKAGE_SZ,
};
use crate::error::StorageErr;
use crate::error::FsFault;
use crate::frame::frame_bytes;
use crate::session::{cooling, read_error, Action, Event, ReadFault, SdState};
use crate::storage::{
    acquire_spec, covers, measure_spec, progress_action, progress_step, progress_wf, read_spec,
    Progress, SdHandle, Storage,
};

verus! {

/// How far a read has come.
#[derive(Clone, Copy, Debug, PartialEq, Eq)]
pub enum GetPhase {
    /// The session is being acquired.
    Acquiring,
    /// The collection is being opened and measured.
    Measuring,
    /// The slot is being read.
    Fetching,
    /// The read is over.
    Done(Result<(), StorageErr>),
}

/// A read, as its contracts see it.
pub struct GetModel {
    /// The session state.
    pub state: SdState,
    /// The acquisition of the session.
    pub progress: Progress,
    /// The identifier of the packet to read.
    pub id: u32,
    /// How far the read has come.
    pub phase: GetPhase,
    /// The bytes of the slot, once read.
    pub data: Option<Seq<u8>>,
}

/// A read whose session is settled: refused or failed, it is over; ready, it
/// goes on to open the collection.
pub open spec fn get_settle(m: GetModel) -> GetModel {
    match m.progress {
        Progress::Ready => GetModel { phase: GetPhase::Measuring, ..m },
        Progress::Failed(e) => GetModel { phase: GetPhase::Done(Err(e)), ..m },
        Progress::Refused => GetModel {
            phase: GetPhase::Done(Err(StorageErr::Uninitialized)),
            ..m
        },
        _ => GetModel { phase: GetPhase::Acquiring, ..m },
    }
}

/// The read of packet `id` that begins at time `now` on a supervisor in
/// `state`.
pub open spec fn get_begin(state: SdState, id: u32, now: i32) -> GetModel {
    let (state, progress) = acquire_spec(state, now);
    get_settle(
        GetModel { state, progress, id, phase: GetPhase::Acquiring, data: None },
    )
}

/// What a read asks of the driver; nothing once it is over.
pub open spec fn get_action(m: GetModel) -> Option<Action> {
    match m.phase {
        GetPhase::Acquiring => progress_action(m.progress),
        GetPhase::Measuring => Some(
            Action::Measure {
                dir: directory_of(m.id as nat) as u32,
                collection: collection_of(m.id as nat) as u32,
            },
        ),
        GetPhase::Fetching => Some(
            Action::Fetch {
                dir: directory_of(m.id as nat) as u32,
                collection: collection_of(m.id as nat) as u32,
                offset: offset_of(m.id as nat) as usize,
                len: AXL_POSTCARD_SZ,
            },
        ),
        GetPhase::Done(_) => None,
    }
}

/// The read after `event`. An event that the read does not wait for changes
/// nothing.
pub open spec fn get_step(m: GetModel, event: Event) -> GetModel {
    match (m.phase, event) {
        (GetPhase::Acquiring, _) => {
            let (state, progress) = progress_step(m.state, m.progress, event);
            get_settle(GetModel { state, progress, ..m })
        },
        (GetPhase::Measuring, Event::Measured(measured)) => {
            let (state, found) = measure_spec(m.state, offset_of(m.id as nat) as usize, measured);
            match found {
                Ok(()) => GetModel { state, phase: GetPhase::Fetching, ..m },
                Err(e) => GetModel { state, phase: GetPhase::Done(Err(e)), ..m },
            }
        },
        (GetPhase::Fetching, Event::Fetched(Ok(bytes))) => GetModel {
            phase: GetPhase::Done(Ok(())),
            data: Some(frame_bytes(bytes)),
            ..m
        },
        (GetPhase::Fetching, Event::Fetched(Err(fault))) => {
            let (state, read) = read_spec(m.state, Err(fault));
            match read {
                Ok(_) => m,
                Err(e) => GetModel { state, phase: GetPhase::Done(Err(e)), ..m },
            }
        },
        _ => m,
    }
}

/// The models that a read can have.
pub open spec fn get_wf(m: GetModel) -> bool {
    &&& progress_wf(m.progress)
    &&& m.phase is Acquiring ==> progress_action(m.progress) is Some
    &&& m.phase is Measuring || m.phase is Fetching ==> m.progress is Ready
    &&& (m.phase matches GetPhase::Done(Ok(_))) ==> m.data is Some
}

/// A read within the cooldown of a failed attempt is over as it begins: it
/// fails as uninitialised, asks nothing of the driver and leaves the state as
/// it is.
pub proof fn lemma_get_is_throttled(last_try: i32, id: u32, now: i32)
    requires
        cooling(last_try, now),
    ensures
        get_begin(SdState::Retry { last_try }, id, now).phase == GetPhase::Done(
            Err(StorageErr::Uninitialized),
        ),
        get_begin(SdState::Retry { last_try }, id, now).state == (SdState::Retry { last_try }),
        get_action(get_begin(SdState::Retry { last_try }, id, now)) is None,
{
}

/// A read on an initialised medium. The collection of `id` is measured
/// first. Where it reaches as far as the slot of `id`, one frame is read at
/// the slot's offset, and the read ends with the bytes that the driver
/// hands in. Where it does not, the read ends as not found, nothing is read,
/// and the medium stays initialised.
pub proof fn lemma_get_on_ready_medium(
    next_id: u32,
    id: u32,
    now: i32,
    length: u32,
    bytes: heapless::Vec<u8, AXL_POSTCARD_SZ>,
)
    ensures
        ({
            let begun = get_begin(SdState::Initialized { next_id }, id, now);
            let measured = get_step(begun, Event::Measured(Ok(length)));
            let read = get_step(measured, Event::Fetched(Ok(bytes)));
            &&& get_action(begun) == Some(
                Action::Measure {
                    dir: directory_of(id as nat) as u32,
                    collection: collection_of(id as nat) as u32,
                },
            )
            &&& measured.state == SdState::Initialized { next_id }
            &&& covers(length, offset_of(id as nat) as usize) ==> {
                &&& get_action(measured) == Some(
                    Action::Fetch {
                        dir: directory_of(id as nat) as u32,
                        collection: collection_of(id as nat) as u32,
                        offset: offset_of(id as nat) as usize,
                        len: AXL_POSTCARD_SZ,
                    },
                )
                &&& read.phase == GetPhase::Done(Ok(()))
                &&& read.data == Some(frame_bytes(bytes))
                &&& read.state == SdState::Initialized { next_id }
            }
            &&& !covers(length, offset_of(id as nat) as usize) ==> {
                &&& measured.phase == GetPhase::Done(
                    Err(StorageErr::GenericSdMmmcErr(FsFault::NotFound)),
                )
                &&& get_action(measured) is None
            }
        }),
{
}

/// A read that fails on the medium, while opening the collection or while
/// reading the slot, ends with that failure and leaves the medium
/// uninitialised.
pub proof fn lemma_failed_read_invalidates(m: GetModel, opening: FsFault, reading: ReadFault)
    ensures
        m.phase is Measuring ==> {
            let failed = get_step(m, Event::Measured(Err(opening)));
            &&& failed.state == SdState::Uninitialized
            &&& failed.phase == GetPhase::Done(Err(StorageErr::GenericSdMmmcErr(opening)))
        },
        m.phase is Fetching ==> {
            let failed = get_step(m, Event::Fetched(Err(reading)));
            &&& failed.state == SdState::Uninitialized
            &&& failed.phase == GetPhase::Done(Err(read_error(reading)))
        },
{
}

/// What a decoder's answer means to the caller of a read: a frame that does
/// not decode is a packet that could not be read.
pub fn decoded<T>(packet: Option<T>) -> (r: Result<T, StorageErr>)
    ensures
        r == match packet {
            Some(p) => Ok::<T, StorageErr>(p),
            None => Err(StorageErr::ReadPackageError),
        },
{
    match packet {
        Some(p) => Ok(p),
        None => Err(StorageErr::ReadPackageError),
    }
}

/// A read in progress. It holds the supervisor until it is finished.
pub struct Get {
    sd: SdHandle,
    id: u32,
    phase: GetPhase,
    data: Option<heapless::Vec<u8, AXL_POSTCARD_SZ>>,
}

impl View for Get {
    type V = GetModel;

    closed spec fn view(&self) -> GetModel {
        GetModel {
            state: self.sd.state(),
            progress: self.sd.progress(),
            id: self.id,
            phase: self.phase,
            data: match self.data {
                Some(d) => Some(frame_bytes(d)),
                None => None,
            },
        }
    }
}

impl Storage {
    /// Begins to read packet `id` at time `now`.
    pub fn get(self, id: u32, now: i32) -> (op: Get)
        ensures
            op.wf(),
            op@ == get_begin(self@, id, now),
    {
        let sd = self.acquire(now);
        let mut op = Get { sd, id, phase: GetPhase::Acquiring, data: None };
        op.settle();
        op
    }
}

impl Get {
    /// Well-formedness: the model is one that a read can have.
    pub open spec fn wf(&self) -> bool {
        get_wf(self@)
    }

    fn settle(&mut self)
        requires
            progress_wf(old(self)@.progress),
        ensures
            final(self).wf(),
            final(self)@ == get_settle(old(self)@),
    {
        match self.sd.ready() {
            Ok(()) => {
                self.phase = GetPhase::Measuring;
            },
            Err(e) => {
                if self.sd.action().is_none() {
                    self.phase = GetPhase::Done(Err(e));
                } else {
                    self.phase = GetPhase::Acquiring;
                }
            },
        }
    }

    fn offset(&self) -> (offset: usize)
        ensures
            offset == offset_of(self@.id as nat),
    {
        let slot: u32 = self.id % COLLECTION_SIZE;
        slot as usize * PACKAGE_SZ
    }

    /// What the driver is to do next; `None` once the read is over.
    pub fn action(&self) -> (a: Option<Action>)
        requires
            self.wf(),
        ensures
            a == get_action(self@),
            a is None <==> self@.phase is Done,
    {
        let collection: u32 = self.id / COLLECTION_SIZE;
        let dir: u32 = collection / DIR_SIZE;
        match self.phase {
            GetPhase::Acquiring => self.sd.action(),
            GetPhase::Measuring => Some(Action::Measure { dir, collection }),
            GetPhase::Fetching => Some(
                Action::Fetch { dir, collection, offset: self.offset(), len: AXL_POSTCARD_SZ },
            ),
            GetPhase::Done(_) => None,
        }
    }

    /// Takes what the driver reports of the last action.
    pub fn feed(&mut self, event: Event)
        requires
            old(self).wf(),
        ensures
            final(self).wf(),
            final(self)@ == get_step(old(self)@, event),
    {
        match (self.phase, event) {
            (GetPhase::Acquiring, event) => {
                self.sd.feed(event);
                self.settle();
            },
            (GetPhase::Measuring, Event::Measured(measured)) => {
                let offset = self.offset();
                match self.sd.measure(offset, measured) {
                    Ok(()) => {
                        self.phase = GetPhase::Fetching;
                    },
                    Err(e) => {
                        self.phase = GetPhase::Done(Err(e));
                    },
                }
            },
            (GetPhase::Fetching, Event::Fetched(Ok(bytes))) => {
                self.data = Some(bytes);
                self.phase = GetPhase::Done(Ok(()));
            },
            (GetPhase::Fetching, Event::Fetched(Err(fault))) => {
                match self.sd.read(Err(fault)) {
                    Ok(_) => {},
                    Err(e) => {
                        self.phase = GetPhase::Done(Err(e));
                    },
                }
            },
            _ => {},
        }
    }

    /// Ends the read and gives the supervisor back, with the bytes of the
    /// slot. A read that is given up before it is over has read nothing.
    pub fn finish(self) -> (r: (Storage, Result<heapless::Vec<u8, AXL_POSTCARD_SZ>, StorageErr>))
        requires
            self.wf(),
        ensures
            r.0@ == self@.state,
            match self@.phase {
                GetPhase::Done(Ok(())) => r.1 matches Ok(data) && Some(frame_bytes(data))
                    == self@.data,
                GetPhase::Done(Err(e)) => r.1 matches Err(f) && f == e,
                _ => r.1 matches Err(f) && f == StorageErr::Uninitialized,
            },
    {
        let done = match self.phase {
            GetPhase::Done(Ok(())) => match self.data {
                Some(data) => Ok(data),
                None => Err(StorageErr::Uninitialized),
            },
            GetPhase::Done(Err(e)) => Err(e),
            _ => Err(StorageErr::Uninitialized),
        };
        (self.sd.release(), done)
    }
}

} // verus!
