use std::collections::{BTreeMap, BTreeSet};

use sfy_buoy::codec::{id_to_parts, AXL_POSTCARD_SZ, COLLECTION_SIZE, DIR_SIZE, PACKAGE_SZ};
use sfy_buoy::error::{CardFault, FsFault, StorageErr};
use sfy_buoy::fetch::decoded;
use sfy_buoy::frame::frame;
use sfy_buoy::scanner::{Lookup, Probe};
use sfy_buoy::session::{Action, Event, ReadFault, SdSpiSpeed, WriteFault, SD_RETRY_DELAY};
use sfy_buoy::storage::Storage;

/// A packet as far as the store cares: a timestamp, the storage identifier
/// and some samples.
type Packet = (u32, Option<u32>, heapless::Vec<u16, 32>);

/// A card held in memory, with switches to make it fail.
struct Card {
    dirs: BTreeSet<u32>,
    files: BTreeMap<u32, Vec<u8>>,
    touched: Vec<Action>,
    dead: bool,
    lookups_fail: bool,
    appends_fail: Option<WriteFault>,
    opens_fail: bool,
    reads_fail: Option<ReadFault>,
    deletes_fail: bool,
}

impl Card {
    fn with_dirs(dirs: &[u32]) -> Card {
        Card {
            dirs: dirs.iter().copied().collect(),
            files: BTreeMap::new(),
            touched: Vec::new(),
            dead: false,
            lookups_fail: false,
            appends_fail: None,
            opens_fail: false,
            reads_fail: None,
            deletes_fail: false,
        }
    }

    fn with_collections(dirs: &[u32], collections: &[u32]) -> Card {
        let mut card = Card::with_dirs(dirs);
        for c in collections {
            card.files.insert(*c, vec![0xAA; COLLECTION_SIZE as usize * PACKAGE_SZ]);
        }
        card
    }

    fn lookup(&self, probe: Probe) -> Lookup {
        if self.lookups_fail {
            return Lookup::Failed(FsFault::Corrupt);
        }
        let found = match probe {
            Probe::Directory { dir } => self.dirs.contains(&dir),
            Probe::Collection { dir, collection } => {
                assert_eq!(dir, collection / DIR_SIZE);
                assert!(self.dirs.contains(&dir));
                self.files.contains_key(&collection)
            }
        };
        if found {
            Lookup::Found
        } else {
            Lookup::Missing
        }
    }

    fn append(&mut self, dir: u32, collection: u32, frame: &[u8]) -> Result<(), WriteFault> {
        if let Some(fault) = self.appends_fail {
            return Err(fault);
        }
        if !self.dirs.contains(&dir) {
            return Err(WriteFault::Open(FsFault::NotFound));
        }
        self.files.entry(collection).or_default().extend_from_slice(frame);
        Ok(())
    }

    fn measure(&self, collection: u32) -> Result<u32, FsFault> {
        if self.opens_fail {
            return Err(FsFault::Device(CardFault::Timeout));
        }
        match self.files.get(&collection) {
            Some(file) => Ok(file.len() as u32),
            None => Err(FsFault::NotFound),
        }
    }

    fn fetch(&self, collection: u32, offset: usize, len: usize) -> Result<Vec<u8>, ReadFault> {
        if let Some(fault) = self.reads_fail {
            return Err(fault);
        }
        Ok(self.files[&collection][offset..offset + len].to_vec())
    }

    /// Performs an action that needs nothing but the card.
    fn perform(&mut self, action: Action) -> Event {
        self.touched.push(action);
        match action {
            Action::Reclock(_) => Event::Reclocked,
            Action::QueryCapacity => Event::Capacity(if self.dead {
                Err(CardFault::Timeout)
            } else {
                Ok(32 * 1024 * 1024 * 1024)
            }),
            Action::Lookup(probe) => Event::Looked(self.lookup(probe)),
            Action::Measure { collection, .. } => Event::Measured(self.measure(collection)),
            Action::Fetch { collection, offset, len, .. } => Event::Fetched(
                self.fetch(collection, offset, len)
                    .map(|bytes| heapless::Vec::from_slice(&bytes).unwrap()),
            ),
            Action::Delete { dir, collection } => {
                assert_eq!(dir, collection / DIR_SIZE);
                Event::Deleted(if self.deletes_fail {
                    Err(FsFault::Other)
                } else if self.files.remove(&collection).is_some() {
                    Ok(())
                } else {
                    Err(FsFault::NotFound)
                })
            }
            Action::Encode { .. } | Action::Append { .. } => {
                panic!("the card alone cannot do this")
            }
        }
    }
}

fn packet(timestamp: u32) -> Packet {
    let mut data: heapless::Vec<u16, 32> = heapless::Vec::new();
    for i in 0..20u16 {
        data.push(i.wrapping_mul(257).wrapping_add(timestamp as u16)).unwrap();
    }
    (timestamp, None, data)
}

fn store(card: &mut Card, storage: Storage, now: i32, pck: &mut Packet) -> (Storage, Result<u32, StorageErr>) {
    let mut op = storage.store(now);
    while let Some(action) = op.action() {
        let event = match action {
            Action::Encode { id } => {
                pck.1 = Some(id);
                Event::Encoded(postcard::to_vec_cobs::<Packet, AXL_POSTCARD_SZ>(pck).ok())
            }
            Action::Append { dir, collection } => {
                card.touched.push(action);
                let (d, name, _, _) = id_to_parts(pck.1.unwrap());
                assert_eq!(d, dir);
                assert_eq!(name.as_str(), format!("{}.6", collection));
                Event::Appended(card.append(dir, collection, op.frame().unwrap()))
            }
            other => card.perform(other),
        };
        op.feed(event);
    }
    assert!(op.result().is_some());
    op.finish()
}

fn get(card: &mut Card, storage: Storage, id: u32, now: i32) -> (Storage, Result<Packet, StorageErr>) {
    let mut op = storage.get(id, now);
    while let Some(action) = op.action() {
        let event = card.perform(action);
        op.feed(event);
    }
    let (storage, bytes) = op.finish();
    let pck = match bytes {
        Ok(mut buf) => decoded(postcard::from_bytes_cobs::<Packet>(&mut buf[..]).ok()),
        Err(e) => Err(e),
    };
    (storage, pck)
}

fn remove(card: &mut Card, storage: Storage, collection: u32, now: i32) -> (Storage, Result<(), StorageErr>) {
    let mut op = storage.remove(collection, now);
    while let Some(action) = op.action() {
        let event = card.perform(action);
        op.feed(event);
    }
    op.finish()
}

fn lookups(card: &Card) -> usize {
    card.touched.iter().filter(|a| matches!(a, Action::Lookup(_))).count()
}

#[test]
fn open_touches_nothing() {
    let storage = Storage::open();
    assert_eq!(storage.next_id(), None);
}

#[test]
fn first_store_on_empty_card_initialises_in_order() {
    let mut card = Card::with_dirs(&[]);
    let mut pck = packet(1);
    let (storage, r) = store(&mut card, Storage::open(), 0, &mut pck);
    // Directory zero is missing, so collection zero is free; nothing creates
    // the directory, and the append finds none.
    assert_eq!(r, Err(StorageErr::GenericSdMmmcErr(FsFault::NotFound)));
    assert_eq!(storage.next_id(), None);
    assert_eq!(
        card.touched,
        vec![
            Action::Reclock(SdSpiSpeed::Low),
            Action::QueryCapacity,
            Action::Reclock(SdSpiSpeed::High),
            Action::Lookup(Probe::Directory { dir: 0 }),
            Action::Append { dir: 0, collection: 0 },
        ]
    );
    assert_eq!(pck.1, Some(0));
}

#[test]
fn store_then_get_gives_the_packet_back() {
    let mut card = Card::with_dirs(&[0]);
    let mut storage = Storage::open();
    let mut stored = Vec::new();
    for t in 0..5u32 {
        let mut pck = packet(1000 + t);
        let (s, r) = store(&mut card, storage, 10, &mut pck);
        storage = s;
        let id = r.unwrap();
        assert_eq!(id, t);
        assert_eq!(pck.1, Some(id));
        stored.push(pck);
    }
    assert_eq!(storage.next_id(), Some(5));
    assert_eq!(card.files[&0].len(), 5 * PACKAGE_SZ);
    for (id, pck) in stored.iter().enumerate().rev() {
        let (s, r) = get(&mut card, storage, id as u32, 20);
        storage = s;
        let back = r.unwrap();
        assert_eq!(&back, pck);
        assert_eq!(back.1, Some(id as u32));
    }
    assert_eq!(storage.next_id(), Some(5));
}

#[test]
fn cold_start_begins_a_new_collection() {
    let mut card = Card::with_collections(&[0], &[0, 1, 2]);
    let mut pck = packet(7);
    let (storage, r) = store(&mut card, Storage::open(), 0, &mut pck);
    assert_eq!(r, Ok(300));
    assert_eq!(storage.next_id(), Some(301));
    assert_eq!(card.files[&3].len(), PACKAGE_SZ);
    assert_eq!(
        &card.touched[3..],
        &[
            Action::Lookup(Probe::Directory { dir: 0 }),
            Action::Lookup(Probe::Directory { dir: 1 }),
            Action::Lookup(Probe::Collection { dir: 0, collection: 0 }),
            Action::Lookup(Probe::Collection { dir: 0, collection: 1 }),
            Action::Lookup(Probe::Collection { dir: 0, collection: 2 }),
            Action::Lookup(Probe::Collection { dir: 0, collection: 3 }),
            Action::Append { dir: 0, collection: 3 },
        ]
    );
}

#[test]
fn get_of_unwritten_slot_is_not_found_and_keeps_the_session() {
    let mut card = Card::with_dirs(&[0]);
    let mut pck = packet(3);
    let (storage, r) = store(&mut card, Storage::open(), 0, &mut pck);
    assert_eq!(r, Ok(0));
    let (storage, r) = get(&mut card, storage, 1, 1);
    assert_eq!(r, Err(StorageErr::GenericSdMmmcErr(FsFault::NotFound)));
    assert_eq!(storage.next_id(), Some(1));
    // A collection that does not exist at all cannot be opened: an I/O fault.
    let (storage, r) = get(&mut card, storage, 500, 2);
    assert_eq!(r, Err(StorageErr::GenericSdMmmcErr(FsFault::NotFound)));
    assert_eq!(storage.next_id(), None);
}

#[test]
fn get_of_a_frame_that_does_not_decode_is_a_read_package_error() {
    let mut card = Card::with_dirs(&[0]);
    card.files.insert(0, vec![0xFF; PACKAGE_SZ]);
    let mut storage = Storage::open();
    storage.deinit();
    let (storage, r) = get(&mut card, storage, 0, 0);
    assert_eq!(r, Err(StorageErr::ReadPackageError));
    // Decoding is not the medium's fault.
    assert_eq!(storage.next_id(), Some(100));
}

#[test]
fn rollover_skips_collections_that_exist() {
    // Collections 1 and 2 are left over from an earlier run.
    let mut card = Card::with_dirs(&[0]);
    let mut storage = Storage::open();
    let mut last = 0;
    for t in 0..99u32 {
        let (s, r) = store(&mut card, storage, 0, &mut packet(t));
        storage = s;
        last = r.unwrap();
    }
    assert_eq!(last, 98);
    assert_eq!(storage.next_id(), Some(99));
    card.files.insert(1, vec![1; 3 * PACKAGE_SZ]);
    card.files.insert(2, vec![2; PACKAGE_SZ]);
    let before = lookups(&card);
    let (storage, r) = store(&mut card, storage, 0, &mut packet(99));
    assert_eq!(r, Ok(99));
    // The scan set out from collection 1 and found 3 free.
    assert_eq!(lookups(&card) - before, 5);
    assert_eq!(storage.next_id(), Some(300));
    let (storage, r) = store(&mut card, storage, 0, &mut packet(100));
    assert_eq!(r, Ok(300));
    assert_eq!(storage.next_id(), Some(301));
    assert_eq!(card.files[&1], vec![1; 3 * PACKAGE_SZ]);
    assert_eq!(card.files[&2], vec![2; PACKAGE_SZ]);
    assert_eq!(card.files[&3].len(), PACKAGE_SZ);
}

#[test]
fn rollover_into_a_free_collection_goes_on_by_one() {
    let mut card = Card::with_dirs(&[0]);
    let mut storage = Storage::open();
    for t in 0..100u32 {
        let (s, r) = store(&mut card, storage, 0, &mut packet(t));
        storage = s;
        assert_eq!(r, Ok(t));
    }
    assert_eq!(storage.next_id(), Some(100));
    let (_, r) = store(&mut card, storage, 0, &mut packet(100));
    assert_eq!(r, Ok(100));
    assert_eq!(card.files[&0].len(), 100 * PACKAGE_SZ);
    assert_eq!(card.files[&1].len(), PACKAGE_SZ);
}

#[test]
fn failed_rollover_scan_assigns_nothing() {
    let mut card = Card::with_dirs(&[0]);
    let mut storage = Storage::open();
    for t in 0..99u32 {
        let (s, _) = store(&mut card, storage, 0, &mut packet(t));
        storage = s;
    }
    card.lookups_fail = true;
    let (storage, r) = store(&mut card, storage, 0, &mut packet(99));
    assert_eq!(r, Err(StorageErr::GenericSdMmmcErr(FsFault::Corrupt)));
    assert_eq!(storage.next_id(), Some(99));
    assert_eq!(card.files[&0].len(), 99 * PACKAGE_SZ);
}

#[test]
fn retry_is_throttled() {
    let mut card = Card::with_dirs(&[0]);
    card.dead = true;
    let t0 = 1000;
    let (storage, r) = store(&mut card, Storage::open(), t0, &mut packet(0));
    assert_eq!(r, Err(StorageErr::SdMmcErr(CardFault::Timeout)));
    assert_eq!(storage.next_id(), None);
    assert_eq!(card.touched, vec![Action::Reclock(SdSpiSpeed::Low), Action::QueryCapacity]);

    // The card has recovered, but within the cooldown nobody asks it.
    card.dead = false;
    card.touched.clear();
    let mut storage = storage;
    for delta in [0, 1, SD_RETRY_DELAY - 1] {
        let (s, r) = store(&mut card, storage, t0 + delta, &mut packet(0));
        assert_eq!(r, Err(StorageErr::Uninitialized));
        let (s, r) = get(&mut card, s, 0, t0 + delta);
        assert_eq!(r, Err(StorageErr::Uninitialized));
        let (s, r) = remove(&mut card, s, 0, t0 + delta);
        assert_eq!(r, Err(StorageErr::Uninitialized));
        storage = s;
        assert!(card.touched.is_empty());
    }

    // At the second at which the cooldown has passed the card is asked again.
    let (storage, r) = store(&mut card, storage, t0 + SD_RETRY_DELAY, &mut packet(0));
    assert_eq!(r, Ok(0));
    assert_eq!(storage.next_id(), Some(1));
    assert_eq!(
        &card.touched[..3],
        &[
            Action::Reclock(SdSpiSpeed::Low),
            Action::QueryCapacity,
            Action::Reclock(SdSpiSpeed::High),
        ]
    );
}

#[test]
fn retry_is_attempted_a_second_after_the_cooldown() {
    let mut card = Card::with_dirs(&[0]);
    card.dead = true;
    let t0 = -50;
    let (storage, r) = store(&mut card, Storage::open(), t0, &mut packet(0));
    assert_eq!(r, Err(StorageErr::SdMmcErr(CardFault::Timeout)));
    card.touched.clear();
    let (storage, r) = get(&mut card, storage, 0, t0 + SD_RETRY_DELAY + 1);
    assert_eq!(r, Err(StorageErr::SdMmcErr(CardFault::Timeout)));
    assert_eq!(card.touched, vec![Action::Reclock(SdSpiSpeed::Low), Action::QueryCapacity]);
    assert_eq!(storage.next_id(), None);
}

#[test]
fn failed_retry_restarts_the_cooldown() {
    let mut card = Card::with_dirs(&[0]);
    card.dead = true;
    let (storage, _) = store(&mut card, Storage::open(), 0, &mut packet(0));
    let (storage, r) = store(&mut card, storage, 600, &mut packet(0));
    assert_eq!(r, Err(StorageErr::SdMmcErr(CardFault::Timeout)));
    card.dead = false;
    card.touched.clear();
    let (storage, r) = store(&mut card, storage, 1199, &mut packet(0));
    assert_eq!(r, Err(StorageErr::Uninitialized));
    assert!(card.touched.is_empty());
    let (_, r) = store(&mut card, storage, 1200, &mut packet(0));
    assert_eq!(r, Ok(0));
}

#[test]
fn write_failure_invalidates_until_the_next_scan() {
    let mut card = Card::with_dirs(&[0]);
    let (storage, r) = store(&mut card, Storage::open(), 0, &mut packet(0));
    assert_eq!(r, Ok(0));
    assert_eq!(storage.next_id(), Some(1));

    card.appends_fail = Some(WriteFault::Write(FsFault::Device(CardFault::Transport)));
    let (storage, r) = store(&mut card, storage, 1, &mut packet(1));
    assert_eq!(r, Err(StorageErr::GenericSdMmmcErr(FsFault::Device(CardFault::Transport))));
    assert_eq!(storage.next_id(), None);

    // The next acquisition scans again and begins a new collection.
    card.appends_fail = None;
    card.touched.clear();
    let (storage, r) = store(&mut card, storage, 2, &mut packet(2));
    assert_eq!(r, Ok(100));
    assert_eq!(storage.next_id(), Some(101));
    assert_eq!(card.touched[0], Action::Reclock(SdSpiSpeed::Low));
    assert!(lookups(&card) > 0);
}

#[test]
fn seek_failures_have_their_own_errors() {
    let mut card = Card::with_dirs(&[0]);
    let (storage, _) = store(&mut card, Storage::open(), 0, &mut packet(0));
    card.appends_fail = Some(WriteFault::Seek);
    let (storage, r) = store(&mut card, storage, 0, &mut packet(1));
    assert_eq!(r, Err(StorageErr::WriteError));
    assert_eq!(storage.next_id(), None);

    card.appends_fail = None;
    let (storage, r) = store(&mut card, storage, 0, &mut packet(2));
    assert!(r.is_ok());
    card.reads_fail = Some(ReadFault::Seek);
    let (storage, r) = get(&mut card, storage, 0, 0);
    assert_eq!(r, Err(StorageErr::ReadPackageError));
    assert_eq!(storage.next_id(), None);
}

#[test]
fn read_failures_invalidate() {
    let mut card = Card::with_dirs(&[0]);
    let (storage, _) = store(&mut card, Storage::open(), 0, &mut packet(0));
    card.reads_fail = Some(ReadFault::Read(FsFault::Corrupt));
    let (storage, r) = get(&mut card, storage, 0, 0);
    assert_eq!(r, Err(StorageErr::GenericSdMmmcErr(FsFault::Corrupt)));
    assert_eq!(storage.next_id(), None);

    card.reads_fail = None;
    let (storage, r) = get(&mut card, storage, 0, 0);
    assert!(r.is_ok());
    card.opens_fail = true;
    let (storage, r) = get(&mut card, storage, 0, 0);
    assert_eq!(r, Err(StorageErr::GenericSdMmmcErr(FsFault::Device(CardFault::Timeout))));
    assert_eq!(storage.next_id(), None);
}

#[test]
fn packet_wider_than_a_frame_is_a_serialisation_error() {
    let storage = Storage::open();
    let mut card = Card::with_dirs(&[0]);
    // Initialise first.
    let (storage, _) = store(&mut card, storage, 0, &mut packet(0));
    let mut op = storage.store(0);
    assert_eq!(op.action(), Some(Action::Encode { id: 1 }));
    // Eight thousand samples of three bytes each do not fit a frame.
    let mut wide: heapless::Vec<u16, 8000> = heapless::Vec::new();
    wide.resize(8000, u16::MAX).unwrap();
    let encoded = postcard::to_vec_cobs::<_, AXL_POSTCARD_SZ>(&wide).ok();
    assert!(encoded.is_none());
    op.feed(Event::Encoded(encoded));
    assert_eq!(op.action(), None);
    assert!(op.frame().is_none());
    let (storage, r) = op.finish();
    assert_eq!(r, Err(StorageErr::SerializationError));
    // The identifier is spent, the session is kept.
    assert_eq!(storage.next_id(), Some(2));

    let mut op = storage.store(0);
    op.feed(Event::Encoded(None));
    let (storage, r) = op.finish();
    assert_eq!(r, Err(StorageErr::SerializationError));
    assert_eq!(storage.next_id(), Some(3));
    assert_eq!(card.files[&0].len(), PACKAGE_SZ);
}

#[test]
fn frame_of_a_packet_that_fills_it_is_the_packet() {
    let mut card = Card::with_dirs(&[0]);
    let (storage, _) = store(&mut card, Storage::open(), 0, &mut packet(0));
    let mut full: heapless::Vec<u8, AXL_POSTCARD_SZ> = heapless::Vec::new();
    full.resize(AXL_POSTCARD_SZ, 7).unwrap();
    let mut op = storage.store(0);
    op.feed(Event::Encoded(Some(full.clone())));
    assert_eq!(op.frame(), Some(&full));
}

#[test]
fn frame_is_the_packet_padded_with_zeroes() {
    let mut card = Card::with_dirs(&[0]);
    let (storage, _) = store(&mut card, Storage::open(), 0, &mut packet(0));
    let mut op = storage.store(0);
    assert!(op.frame().is_none());
    op.feed(Event::Encoded(Some(heapless::Vec::from_slice(&[3, 1, 2, 0]).unwrap())));
    assert_eq!(op.action(), Some(Action::Append { dir: 0, collection: 0 }));
    let frame = op.frame().unwrap();
    assert_eq!(frame.len(), AXL_POSTCARD_SZ);
    assert_eq!(&frame[..4], &[3, 1, 2, 0]);
    assert!(frame[4..].iter().all(|b| *b == 0));
    op.feed(Event::Appended(Ok(())));
    assert_eq!(op.result(), Some(Ok(1)));
}

#[test]
fn events_that_are_not_waited_for_change_nothing() {
    let mut op = Storage::open().store(5);
    assert_eq!(op.action(), Some(Action::Reclock(SdSpiSpeed::Low)));
    op.feed(Event::Looked(Lookup::Missing));
    op.feed(Event::Capacity(Ok(1)));
    op.feed(Event::Appended(Ok(())));
    op.feed(Event::Encoded(None));
    assert_eq!(op.action(), Some(Action::Reclock(SdSpiSpeed::Low)));
    op.feed(Event::Reclocked);
    assert_eq!(op.action(), Some(Action::QueryCapacity));
    op.feed(Event::Reclocked);
    assert_eq!(op.action(), Some(Action::QueryCapacity));
    let (storage, r) = op.finish();
    assert_eq!(r, Err(StorageErr::Uninitialized));
    assert_eq!(storage.next_id(), None);
}

#[test]
fn remove_deletes_a_collection_and_failure_keeps_the_session() {
    let mut card = Card::with_collections(&[0, 1], &[0, 1, 1000]);
    let (storage, r) = remove(&mut card, Storage::open(), 1, 0);
    assert_eq!(r, Ok(()));
    assert!(!card.files.contains_key(&1));
    assert_eq!(storage.next_id(), Some(100_100));
    assert_eq!(*card.touched.last().unwrap(), Action::Delete { dir: 0, collection: 1 });

    let (storage, r) = remove(&mut card, storage, 1, 0);
    assert_eq!(r, Err(StorageErr::GenericSdMmmcErr(FsFault::NotFound)));
    assert_eq!(storage.next_id(), Some(100_100));

    card.deletes_fail = true;
    let (storage, r) = remove(&mut card, storage, 1000, 0);
    assert_eq!(r, Err(StorageErr::GenericSdMmmcErr(FsFault::Other)));
    assert_eq!(storage.next_id(), Some(100_100));
    assert_eq!(*card.touched.last().unwrap(), Action::Delete { dir: 1, collection: 1000 });
}

#[test]
fn deinit_forces_a_new_initialisation() {
    let mut card = Card::with_dirs(&[0]);
    let (mut storage, _) = store(&mut card, Storage::open(), 0, &mut packet(0));
    assert_eq!(storage.next_id(), Some(1));
    storage.deinit();
    assert_eq!(storage.next_id(), None);
    card.touched.clear();
    let (storage, r) = store(&mut card, storage, 0, &mut packet(1));
    assert_eq!(r, Ok(100));
    assert_eq!(storage.next_id(), Some(101));
    assert_eq!(card.touched[0], Action::Reclock(SdSpiSpeed::Low));
}

#[test]
fn session_handle_reports_why_it_is_not_usable() {
    let sd = Storage::open().acquire(0);
    assert_eq!(sd.ready(), Err(StorageErr::Uninitialized));
    assert_eq!(sd.action(), Some(Action::Reclock(SdSpiSpeed::Low)));
    let mut sd = sd.release().acquire(1);
    // The attempt at 0 was given up; within its cooldown nothing is asked.
    assert_eq!(sd.action(), None);
    assert_eq!(sd.ready(), Err(StorageErr::Uninitialized));
    assert_eq!(sd.advance_id(None), Err(StorageErr::Uninitialized));
    assert_eq!(sd.rollover(), None);

    let mut sd = sd.release().acquire(700);
    sd.feed(Event::Reclocked);
    sd.feed(Event::Capacity(Err(CardFault::NotPresent)));
    assert_eq!(sd.action(), None);
    assert_eq!(sd.ready(), Err(StorageErr::SdMmcErr(CardFault::NotPresent)));
    assert_eq!(sd.next_id(), None);
}

#[test]
fn session_handle_assigns_identifiers() {
    let mut sd = Storage::open().acquire(0);
    sd.feed(Event::Reclocked);
    sd.feed(Event::Capacity(Ok(1 << 30)));
    sd.feed(Event::Reclocked);
    assert_eq!(sd.action(), Some(Action::Lookup(Probe::Directory { dir: 0 })));
    sd.feed(Event::Looked(Lookup::Found));
    sd.feed(Event::Looked(Lookup::Missing));
    assert_eq!(sd.action(), Some(Action::Lookup(Probe::Collection { dir: 0, collection: 0 })));
    sd.feed(Event::Looked(Lookup::Found));
    sd.feed(Event::Looked(Lookup::Missing));
    assert_eq!(sd.ready(), Ok(()));
    assert_eq!(sd.next_id(), Some(100));

    for id in 100..198u32 {
        assert_eq!(sd.rollover(), None);
        assert_eq!(sd.advance_id(None), Ok(id));
    }
    assert_eq!(sd.rollover(), None);
    assert_eq!(sd.advance_id(None), Ok(198));
    assert_eq!(sd.rollover(), Some(2));
    // The scan reports collection 2 itself: it is free, no jump.
    assert_eq!(sd.advance_id(Some(Ok(2))), Ok(199));
    assert_eq!(sd.next_id(), Some(200));

    let mut storage = sd.release();
    assert_eq!(storage.next_id(), Some(200));
    storage.deinit();
    assert_eq!(storage.next_id(), None);
}

#[test]
fn session_handle_takes_outcomes() {
    let mut card = Card::with_dirs(&[0]);
    let (storage, _) = store(&mut card, Storage::open(), 0, &mut packet(0));
    let mut sd = storage.acquire(0);
    assert_eq!(sd.ready(), Ok(()));
    assert_eq!(sd.write(Ok(())), Ok(()));
    assert_eq!(sd.read(Ok(17)), Ok(17));
    assert_eq!(sd.measure(0, Ok(AXL_POSTCARD_SZ as u32)), Ok(()));
    assert_eq!(
        sd.measure(0, Ok(AXL_POSTCARD_SZ as u32 - 1)),
        Err(StorageErr::GenericSdMmmcErr(FsFault::NotFound))
    );
    assert_eq!(
        sd.measure(PACKAGE_SZ, Ok(2 * PACKAGE_SZ as u32 - 1)),
        Err(StorageErr::GenericSdMmmcErr(FsFault::NotFound))
    );
    assert_eq!(sd.measure(PACKAGE_SZ, Ok(2 * PACKAGE_SZ as u32)), Ok(()));
    assert_eq!(sd.measure(usize::MAX, Ok(u32::MAX)), Err(StorageErr::GenericSdMmmcErr(FsFault::NotFound)));
    assert_eq!(sd.remove_collection(Err(FsFault::NoSpace)), Err(StorageErr::GenericSdMmmcErr(FsFault::NoSpace)));
    assert_eq!(sd.remove_collection(Ok(())), Ok(()));
    assert_eq!(sd.next_id(), Some(1));
    assert_eq!(sd.write(Err(WriteFault::Open(FsFault::NotFound))), Err(StorageErr::GenericSdMmmcErr(FsFault::NotFound)));
    assert_eq!(sd.next_id(), None);
}

#[test]
fn identifiers_run_out_as_disk_full() {
    // Directories up to 42949 exist, and the last of them is full up to
    // collection 42949672: the first free collection has no identifier left.
    let mut sd = Storage::open().acquire(0);
    sd.feed(Event::Reclocked);
    sd.feed(Event::Capacity(Ok(1)));
    sd.feed(Event::Reclocked);
    for _ in 0..=42949u32 {
        sd.feed(Event::Looked(Lookup::Found));
    }
    assert_eq!(sd.action(), Some(Action::Lookup(Probe::Directory { dir: 42950 })));
    sd.feed(Event::Looked(Lookup::Missing));
    assert_eq!(
        sd.action(),
        Some(Action::Lookup(Probe::Collection { dir: 42949, collection: 42_949_000 }))
    );
    for _ in 42_949_000..=42_949_672u32 {
        sd.feed(Event::Looked(Lookup::Found));
    }
    assert_eq!(
        sd.action(),
        Some(Action::Lookup(Probe::Collection { dir: 42949, collection: 42_949_673 }))
    );
    sd.feed(Event::Looked(Lookup::Missing));
    assert_eq!(sd.ready(), Err(StorageErr::DiskFull));
    assert_eq!(sd.next_id(), None);
}

#[test]
fn last_collection_is_still_usable() {
    let mut sd = Storage::open().acquire(0);
    sd.feed(Event::Reclocked);
    sd.feed(Event::Capacity(Ok(1)));
    sd.feed(Event::Reclocked);
    for _ in 0..=42949u32 {
        sd.feed(Event::Looked(Lookup::Found));
    }
    sd.feed(Event::Looked(Lookup::Missing));
    for _ in 42_949_000..42_949_672u32 {
        sd.feed(Event::Looked(Lookup::Found));
    }
    sd.feed(Event::Looked(Lookup::Missing));
    assert_eq!(sd.ready(), Ok(()));
    assert_eq!(sd.next_id(), Some(4_294_967_200));
    for id in 4_294_967_200..u32::MAX {
        assert_eq!(sd.advance_id(None), Ok(id));
    }
    assert_eq!(sd.next_id(), Some(u32::MAX));
    assert_eq!(sd.rollover(), None);
    assert_eq!(sd.advance_id(None), Err(StorageErr::DiskFull));
    assert_eq!(sd.next_id(), Some(u32::MAX));
}

#[test]
fn jump_beyond_the_last_identifier_is_disk_full() {
    let mut card = Card::with_dirs(&[0]);
    let mut storage = Storage::open();
    for t in 0..99u32 {
        let (s, _) = store(&mut card, storage, 0, &mut packet(t));
        storage = s;
    }
    let mut sd = storage.acquire(0);
    assert_eq!(sd.rollover(), Some(1));
    assert_eq!(sd.advance_id(Some(Ok(42_949_673))), Err(StorageErr::DiskFull));
    assert_eq!(sd.next_id(), Some(99));
    assert_eq!(sd.advance_id(Some(Err(StorageErr::DiskFull))), Err(StorageErr::DiskFull));
    assert_eq!(sd.next_id(), Some(99));
    assert_eq!(sd.advance_id(Some(Ok(42_949_672))), Ok(99));
    assert_eq!(sd.next_id(), Some(4_294_967_200));
}

#[test]
fn unusable_session_takes_no_outcomes() {
    let mut sd = Storage::open().acquire(0);
    assert_eq!(sd.write(Ok(())), Err(StorageErr::Uninitialized));
    assert_eq!(sd.write(Err(WriteFault::Seek)), Err(StorageErr::Uninitialized));
    assert_eq!(sd.read(Ok(1)), Err(StorageErr::Uninitialized));
    assert_eq!(sd.measure(0, Ok(u32::MAX)), Err(StorageErr::Uninitialized));
    assert_eq!(sd.remove_collection(Ok(())), Err(StorageErr::Uninitialized));
    assert_eq!(sd.advance_id(Some(Ok(5))), Err(StorageErr::Uninitialized));
    sd.feed(Event::Reclocked);
    sd.feed(Event::Capacity(Err(CardFault::Transport)));
    assert_eq!(sd.write(Err(WriteFault::Seek)), Err(StorageErr::SdMmcErr(CardFault::Transport)));
    assert_eq!(sd.advance_id(None), Err(StorageErr::SdMmcErr(CardFault::Transport)));
    // The failed attempt is still on record: the cooldown holds.
    let sd = sd.release().acquire(SD_RETRY_DELAY - 1);
    assert_eq!(sd.action(), None);
    assert_eq!(sd.ready(), Err(StorageErr::Uninitialized));
    let sd = sd.release().acquire(SD_RETRY_DELAY);
    assert_eq!(sd.action(), Some(Action::Reclock(SdSpiSpeed::Low)));
}

#[test]
fn no_collection_is_begun_without_a_scan() {
    let mut card = Card::with_dirs(&[0]);
    let mut storage = Storage::open();
    for t in 0..99u32 {
        let (s, _) = store(&mut card, storage, 0, &mut packet(t));
        storage = s;
    }
    let mut sd = storage.acquire(0);
    assert_eq!(sd.next_id(), Some(99));
    assert_eq!(sd.rollover(), Some(1));
    assert_eq!(sd.advance_id(None), Err(StorageErr::Uninitialized));
    assert_eq!(sd.next_id(), Some(99));
    assert_eq!(sd.rollover(), Some(1));
    // With the scan made, collection 1 being free, the cursor moves on.
    assert_eq!(sd.advance_id(Some(Ok(1))), Ok(99));
    assert_eq!(sd.next_id(), Some(100));
    assert_eq!(sd.rollover(), None);
    assert_eq!(sd.advance_id(None), Ok(100));
}

#[test]
fn frame_fills_the_buffer_with_zeroes() {
    let empty: heapless::Vec<u8, AXL_POSTCARD_SZ> = heapless::Vec::new();
    let f = frame(empty);
    assert_eq!(f.len(), AXL_POSTCARD_SZ);
    assert!(f.iter().all(|b| *b == 0));

    let f = frame(heapless::Vec::from_slice(&[9, 8, 7]).unwrap());
    assert_eq!(f.len(), AXL_POSTCARD_SZ);
    assert_eq!(&f[..3], &[9, 8, 7]);
    assert!(f[3..].iter().all(|b| *b == 0));
}
