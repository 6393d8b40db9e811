//! Free-space scanner: finds the first collection that does not exist yet.
//!
//! The scanner asks one question at a time, whether a directory or a
//! collection file exists, and is told the answer. Looking names up is its
//! only use of the medium; it never reads a file.

use vstd::prelude::*;
use crate::codec::{directory_of_collection, COLLECTION_SIZE, DIR_SIZE, PACKAGE_SZ};
use crate::error::{FsFault, StorageErr};

verus! {

/// The most entries that a directory of the file system can hold, and so the
/// number of directory indices that the scanner walks.
pub const MAX_DIRS: u32 = 65536;

/// What the scanner asks the medium.
#[derive(Clone, Copy, Debug, PartialEq, Eq, Structural)]
pub enum Probe {
    /// Does the root hold a directory named by `dir`?
    Directory { dir: u32 },
    /// Does directory `dir` hold the file of `collection`?
    Collection { dir: u32, collection: u32 },
}

/// What the medium answers.
#[derive(Clone, Copy, Debug, PartialEq, Eq, Structural)]
pub enum Lookup {
    /// The name exists.
    Found,
    /// The name does not exist.
    Missing,
    /// The lookup itself failed.
    Failed(FsFault),
}

/// How far a scan has come.
#[derive(Clone, Copy, Debug, PartialEq, Eq)]
pub enum ScanPhase {
    /// Walking the directories: `dir` is the next to look for.
    Directories { dir: u32 },
    /// Walking the files of the last directory that exists: `collection` is
    /// the next to look for.
    Collections { dir: u32, collection: u32 },
    /// The scan is over.
    Done(Result<u32, StorageErr>),
}

/// The phase in which a scan from collection `start` begins.
pub open spec fn scan_begin(start: u32) -> ScanPhase {
    if start / DIR_SIZE < MAX_DIRS {
        ScanPhase::Directories { dir: start / DIR_SIZE }
    } else {
        ScanPhase::Done(Err(StorageErr::DiskFull))
    }
}

/// The first collection looked for once `missing` is known to be the first
/// directory that does not exist: the files of the directory before it are
/// walked from `start` if `start` lies in that directory, else from its
/// first collection.
pub open spec fn scan_base(start: nat, missing: nat) -> nat
    recommends
        missing > 0,
{
    if directory_of_collection(start) == missing - 1 {
        start
    } else {
        ((missing - 1) * DIR_SIZE) as nat
    }
}

/// What a scan asks in a given phase; nothing once it is over.
pub open spec fn scan_probe(phase: ScanPhase) -> Option<Probe> {
    match phase {
        ScanPhase::Directories { dir } => Some(Probe::Directory { dir }),
        ScanPhase::Collections { dir, collection } => Some(Probe::Collection { dir, collection }),
        ScanPhase::Done(_) => None,
    }
}

/// The phase that follows `phase` when the medium answers `lookup`.
pub open spec fn scan_step(start: u32, phase: ScanPhase, lookup: Lookup) -> ScanPhase {
    match phase {
        ScanPhase::Directories { dir } => match lookup {
            Lookup::Found => if dir + 1 < MAX_DIRS {
                ScanPhase::Directories { dir: (dir + 1) as u32 }
            } else {
                ScanPhase::Done(Err(StorageErr::DiskFull))
            },
            Lookup::Missing => if dir == 0 {
                ScanPhase::Done(Ok(0))
            } else {
                ScanPhase::Collections {
                    dir: (dir - 1) as u32,
                    collection: scan_base(start as nat, dir as nat) as u32,
                }
            },
            Lookup::Failed(e) => ScanPhase::Done(Err(StorageErr::GenericSdMmmcErr(e))),
        },
        ScanPhase::Collections { dir, collection } => match lookup {
            Lookup::Found => if collection + 1 < (dir + 1) * DIR_SIZE {
                ScanPhase::Collections { dir, collection: (collection + 1) as u32 }
            } else {
                ScanPhase::Done(Ok(((dir + 1) * DIR_SIZE) as u32))
            },
            Lookup::Missing => ScanPhase::Done(Ok(collection)),
            Lookup::Failed(e) => ScanPhase::Done(Err(StorageErr::GenericSdMmmcErr(e))),
        },
        ScanPhase::Done(_) => phase,
    }
}

/// The phases that a scan from `start` can be in.
pub open spec fn scan_wf(start: u32, phase: ScanPhase) -> bool {
    match phase {
        ScanPhase::Directories { dir } => start / DIR_SIZE <= dir < MAX_DIRS,
        ScanPhase::Collections { dir, collection } => {
            &&& dir + 1 < MAX_DIRS
            &&& start / DIR_SIZE <= dir + 1
            &&& scan_base(start as nat, (dir + 1) as nat) <= collection < (dir + 1) * DIR_SIZE
        },
        ScanPhase::Done(_) => true,
    }
}

/// The phase that follows `phase` when the medium answers `lookup`, for a
/// scan that set out from `start`.
pub(crate) fn step_phase(start: u32, phase: ScanPhase, lookup: Lookup) -> (next: ScanPhase)
    requires
        scan_wf(start, phase),
    ensures
        next == scan_step(start, phase, lookup),
        scan_wf(start, next),
{
    match phase {
        ScanPhase::Directories { dir } => match lookup {
            Lookup::Found => if dir + 1 < MAX_DIRS {
                ScanPhase::Directories { dir: dir + 1 }
            } else {
                ScanPhase::Done(Err(StorageErr::DiskFull))
            },
            Lookup::Missing => if dir == 0 {
                ScanPhase::Done(Ok(0))
            } else {
                let last: u32 = dir - 1;
                let collection: u32 = if start / DIR_SIZE == last {
                    start
                } else {
                    last * DIR_SIZE
                };
                ScanPhase::Collections { dir: last, collection }
            },
            Lookup::Failed(e) => ScanPhase::Done(Err(StorageErr::GenericSdMmmcErr(e))),
        },
        ScanPhase::Collections { dir, collection } => match lookup {
            Lookup::Found => if collection + 1 < (dir + 1) * DIR_SIZE {
                ScanPhase::Collections { dir, collection: collection + 1 }
            } else {
                ScanPhase::Done(Ok((dir + 1) * DIR_SIZE))
            },
            Lookup::Missing => ScanPhase::Done(Ok(collection)),
            Lookup::Failed(e) => ScanPhase::Done(Err(StorageErr::GenericSdMmmcErr(e))),
        },
        ScanPhase::Done(r) => ScanPhase::Done(r),
    }
}

/// The phase in which a scan from `start` begins.
pub(crate) fn begin_phase(start: u32) -> (phase: ScanPhase)
    ensures
        phase == scan_begin(start),
        scan_wf(start, phase),
{
    let dir: u32 = start / DIR_SIZE;
    if dir < MAX_DIRS {
        ScanPhase::Directories { dir }
    } else {
        ScanPhase::Done(Err(StorageErr::DiskFull))
    }
}

/// What a scan asks in `phase`.
pub(crate) fn probe_of(phase: ScanPhase) -> (p: Option<Probe>)
    ensures
        p == scan_probe(phase),
{
    match phase {
        ScanPhase::Directories { dir } => Some(Probe::Directory { dir }),
        ScanPhase::Collections { dir, collection } => Some(Probe::Collection { dir, collection }),
        ScanPhase::Done(_) => None,
    }
}

/// A scan in progress.
pub struct Scan {
    start: u32,
    phase: ScanPhase,
}

impl Scan {
    /// The collection index from which this scan set out.
    pub closed spec fn start(self) -> u32 {
        self.start
    }

    /// How far the scan has come.
    pub closed spec fn phase(self) -> ScanPhase {
        self.phase
    }

    /// Well-formedness: the phase is one that a scan from `start` can reach.
    pub open spec fn wf(self) -> bool {
        scan_wf(self.start(), self.phase())
    }

    /// Sets out from collection `start`, or from the beginning of the medium.
    pub fn new(start: Option<u32>) -> (scan: Scan)
        ensures
            scan.wf(),
            scan.start() == match start {
                Some(s) => s,
                None => 0,
            },
            scan.phase() == scan_begin(scan.start()),
    {
        let start: u32 = match start {
            Some(s) => s,
            None => 0,
        };
        Scan { start, phase: begin_phase(start) }
    }

    /// The question to put to the medium next; `None` once the scan is over.
    pub fn probe(&self) -> (p: Option<Probe>)
        ensures
            p == scan_probe(self.phase()),
    {
        probe_of(self.phase)
    }

    /// Takes the medium's answer to the last question. A scan that is over
    /// ignores it.
    pub fn answer(&mut self, lookup: Lookup)
        requires
            old(self).wf(),
        ensures
            final(self).wf(),
            final(self).start() == old(self).start(),
            final(self).phase() == scan_step(old(self).start(), old(self).phase(), lookup),
    {
        self.phase = step_phase(self.start, self.phase, lookup);
    }

    /// The result of the scan, once it is over: the first free collection, or
    /// why none was found.
    pub fn outcome(&self) -> (r: Option<Result<u32, StorageErr>>)
        ensures
            r == match self.phase() {
                ScanPhase::Done(o) => Some(o),
                _ => None,
            },
    {
        match self.phase {
            ScanPhase::Done(o) => Some(o),
            _ => None,
        }
    }
}

/// Capacity. At up to 17954 packets a day, more than four times what a buoy
/// that samples at 52 Hz produces, the collections of a year are fewer than
/// the entries that one directory can hold, and a full collection file stays
/// far below the four gigabytes that a file can have.
pub proof fn lemma_year_of_collections_fits(packets_per_day: nat)
    requires
        packets_per_day <= 17954,
    ensures
        (packets_per_day * 365) / (COLLECTION_SIZE as nat) < MAX_DIRS,
        52 * 60 * 60 * 24 / 1024 <= 17954,
        COLLECTION_SIZE * PACKAGE_SZ < 0x1_0000_0000,
{
}

/// What exists on a medium, as far as a scan can tell: the indices of the
/// directories in the root, and the indices of the collection files, each in
/// the directory that its index belongs to.
pub struct Listing {
    pub dirs: Set<nat>,
    pub files: Set<nat>,
}

/// The answer of a medium that holds `listing` and does not fail.
pub open spec fn truthful(listing: Listing, probe: Probe) -> Lookup {
    match probe {
        Probe::Directory { dir } => if listing.dirs.contains(dir as nat) {
            Lookup::Found
        } else {
            Lookup::Missing
        },
        Probe::Collection { dir, collection } => if listing.files.contains(collection as nat) {
            Lookup::Found
        } else {
            Lookup::Missing
        },
    }
}

/// Which part of a scan a phase belongs to: directories come before files,
/// files before the end.
pub open spec fn scan_rank(phase: ScanPhase) -> int {
    match phase {
        ScanPhase::Directories { .. } => 2,
        ScanPhase::Collections { .. } => 1,
        ScanPhase::Done(_) => 0,
    }
}

/// How many questions are left at most within the part that a phase belongs
/// to.
pub open spec fn scan_left(phase: ScanPhase) -> int {
    match phase {
        ScanPhase::Directories { dir } => MAX_DIRS - dir,
        ScanPhase::Collections { dir, collection } => (dir + 1) * DIR_SIZE - collection,
        ScanPhase::Done(_) => 0,
    }
}

/// The phase in which a scan ends when it continues from `phase` on a medium
/// that holds `listing` and does not fail.
pub open spec fn scan_run(listing: Listing, start: u32, phase: ScanPhase) -> ScanPhase
    decreases scan_rank(phase), scan_left(phase),
    when scan_wf(start, phase)
{
    match scan_probe(phase) {
        None => phase,
        Some(probe) => scan_run(listing, start, scan_step(start, phase, truthful(listing, probe))),
    }
}

/// `d` is the first directory at or after `from` that does not exist.
pub open spec fn is_first_missing_directory(listing: Listing, from: nat, d: nat) -> bool {
    &&& from <= d < MAX_DIRS
    &&& !listing.dirs.contains(d)
    &&& forall|e: nat| from <= e < d ==> listing.dirs.contains(e)
}

/// `c` is the first collection from `base` on whose file does not exist, or
/// `end` if every file from `base` up to `end` exists.
pub open spec fn is_first_missing_collection(
    listing: Listing,
    base: nat,
    end: nat,
    c: nat,
) -> bool {
    &&& base <= c <= end
    &&& c < end ==> !listing.files.contains(c)
    &&& forall|e: nat| base <= e < c ==> listing.files.contains(e)
}

/// What a scan from `start` owes on a medium that holds `listing`.
///
/// With every directory from that of `start` on in place, the disk is full.
/// Otherwise take the first directory that is missing. If it is directory
/// zero the medium is empty and collection zero is free. If not, the answer
/// is the first missing file of the directory before it, looked for from
/// `start` on where `start` lies in that directory, or the first collection of
/// the missing directory where no file is missing.
pub open spec fn is_first_free(
    listing: Listing,
    start: nat,
    outcome: Result<u32, StorageErr>,
) -> bool {
    match outcome {
        Ok(c) => exists|d: nat|
            {
                &&& #[trigger] is_first_missing_directory(
                    listing,
                    directory_of_collection(start),
                    d,
                )
                &&& if d == 0 {
                    c == 0
                } else {
                    is_first_missing_collection(
                        listing,
                        scan_base(start, d),
                        d * (DIR_SIZE as nat),
                        c as nat,
                    )
                }
            },
        Err(e) => {
            &&& e == StorageErr::DiskFull
            &&& forall|d: nat|
                directory_of_collection(start) <= d < MAX_DIRS ==> listing.dirs.contains(d)
        },
    }
}

proof fn lemma_run_collections(listing: Listing, start: u32, d: nat, c: u32)
    requires
        d > 0,
        is_first_missing_directory(listing, directory_of_collection(start as nat), d),
        scan_base(start as nat, d) <= c < d * DIR_SIZE,
        forall|e: nat| scan_base(start as nat, d) <= e < c ==> listing.files.contains(e),
    ensures
        scan_run(listing, start, ScanPhase::Collections { dir: (d - 1) as u32, collection: c })
            matches ScanPhase::Done(o) && is_first_free(listing, start as nat, o),
    decreases d * DIR_SIZE - c,
{
    let phase = ScanPhase::Collections { dir: (d - 1) as u32, collection: c };
    let base = scan_base(start as nat, d);
    if listing.files.contains(c as nat) {
        if c + 1 < d * DIR_SIZE {
            lemma_run_collections(listing, start, d, (c + 1) as u32);
        } else {
            let end = (d * DIR_SIZE) as u32;
            assert(scan_run(listing, start, ScanPhase::Done(Ok(end))) == ScanPhase::Done(Ok(end)));
            assert(scan_run(listing, start, phase) == ScanPhase::Done(Ok(end)));
            assert(is_first_missing_collection(listing, base, d * (DIR_SIZE as nat), end as nat));
        }
    } else {
        assert(scan_run(listing, start, ScanPhase::Done(Ok(c))) == ScanPhase::Done(Ok(c)));
        assert(scan_run(listing, start, phase) == ScanPhase::Done(Ok(c)));
        assert(is_first_missing_collection(listing, base, d * (DIR_SIZE as nat), c as nat));
    }
}

proof fn lemma_run_directories(listing: Listing, start: u32, dir: u32)
    requires
        directory_of_collection(start as nat) <= dir < MAX_DIRS,
        forall|e: nat|
            directory_of_collection(start as nat) <= e < dir ==> listing.dirs.contains(e),
    ensures
        scan_run(listing, start, ScanPhase::Directories { dir }) matches ScanPhase::Done(o)
            && is_first_free(listing, start as nat, o),
    decreases MAX_DIRS - dir,
{
    let phase = ScanPhase::Directories { dir };
    let from = directory_of_collection(start as nat);
    if listing.dirs.contains(dir as nat) {
        if dir + 1 < MAX_DIRS {
            lemma_run_directories(listing, start, (dir + 1) as u32);
        } else {
            let full = ScanPhase::Done(Err(StorageErr::DiskFull));
            assert(scan_run(listing, start, full) == full);
            assert(scan_run(listing, start, phase) == full);
        }
    } else {
        assert(is_first_missing_directory(listing, from, dir as nat));
        if dir == 0 {
            assert(scan_run(listing, start, ScanPhase::Done(Ok(0))) == ScanPhase::Done(Ok(0)));
            assert(scan_run(listing, start, phase) == ScanPhase::Done(Ok(0)));
        } else {
            let base = scan_base(start as nat, dir as nat);
            assert((dir - 1) * DIR_SIZE <= base < dir * DIR_SIZE) by {
                if directory_of_collection(start as nat) == dir - 1 {
                    assert(base == start);
                    assert(start as nat / 1000 == dir - 1);
                }
            }
            lemma_run_collections(listing, start, dir as nat, base as u32);
        }
    }
}

/// On a medium that does not fail, a scan ends, and with what it owes: the
/// first free collection as `is_first_free` describes it.
pub proof fn lemma_scan_finds_first_free(listing: Listing, start: u32)
    ensures
        scan_run(listing, start, scan_begin(start)) matches ScanPhase::Done(o) && is_first_free(
            listing,
            start as nat,
            o,
        ),
{
    if start / DIR_SIZE < MAX_DIRS {
        lemma_run_directories(listing, start, start / DIR_SIZE);
    } else {
        let full = ScanPhase::Done(Err(StorageErr::DiskFull));
        assert(scan_run(listing, start, full) == full);
    }
}

/// What a scan owes is one outcome only.
pub proof fn lemma_first_free_unique(
    listing: Listing,
    start: nat,
    a: Result<u32, StorageErr>,
    b: Result<u32, StorageErr>,
)
    requires
        is_first_free(listing, start, a),
        is_first_free(listing, start, b),
    ensures
        a == b,
{
    let from = directory_of_collection(start);
    match (a, b) {
        (Ok(x), Ok(y)) => {
            let dx = choose|d: nat|
                {
                    &&& #[trigger] is_first_missing_directory(listing, from, d)
                    &&& if d == 0 {
                        x == 0
                    } else {
                        is_first_missing_collection(
                            listing,
                            scan_base(start, d),
                            d * (DIR_SIZE as nat),
                            x as nat,
                        )
                    }
                };
            let dy = choose|d: nat|
                {
                    &&& #[trigger] is_first_missing_directory(listing, from, d)
                    &&& if d == 0 {
                        y == 0
                    } else {
                        is_first_missing_collection(
                            listing,
                            scan_base(start, d),
                            d * (DIR_SIZE as nat),
                            y as nat,
                        )
                    }
                };
            assert(dx == dy) by {
                if dx < dy {
                    assert(listing.dirs.contains(dx));
                } else if dy < dx {
                    assert(listing.dirs.contains(dy));
                }
            }
            if dx != 0 {
                if (x as nat) < (y as nat) {
                    assert(listing.files.contains(x as nat));
                } else if (y as nat) < (x as nat) {
                    assert(listing.files.contains(y as nat));
                }
            }
        },
        (Ok(x), Err(_)) => {
            let dx = choose|d: nat| #[trigger] is_first_missing_directory(listing, from, d);
            assert(listing.dirs.contains(dx));
        },
        (Err(_), Ok(y)) => {
            let dy = choose|d: nat| #[trigger] is_first_missing_directory(listing, from, d);
            assert(listing.dirs.contains(dy));
        },
        (Err(_), Err(_)) => {},
    }
}

/// A listing that a file system can hold: every collection file lies in a
/// directory that exists.
pub open spec fn listing_wf(listing: Listing) -> bool {
    forall|c: nat| #[trigger]
        listing.files.contains(c) ==> listing.dirs.contains(directory_of_collection(c))
}

/// The collection that a scan reports is free: its file does not exist.
pub proof fn lemma_first_free_is_missing(listing: Listing, start: nat, c: u32)
    requires
        listing_wf(listing),
        is_first_free(listing, start, Ok(c)),
    ensures
        !listing.files.contains(c as nat),
{
    let from = directory_of_collection(start);
    let d = choose|d: nat|
        {
            &&& #[trigger] is_first_missing_directory(listing, from, d)
            &&& if d == 0 {
                c == 0
            } else {
                is_first_missing_collection(
                    listing,
                    scan_base(start, d),
                    d * (DIR_SIZE as nat),
                    c as nat,
                )
            }
        };
    if d == 0 {
        assert(directory_of_collection(0) == 0);
    } else if c as nat == d * (DIR_SIZE as nat) {
        assert((d * 1000) / 1000 == d) by (nonlinear_arith);
    }
}

/// A scan that sets out inside a directory that exists never goes back: the
/// collection it reports is `start` or a later one, and a later one where the
/// file of `start` exists.
pub proof fn lemma_scan_passes_existing(listing: Listing, start: nat, c: u32)
    requires
        listing.dirs.contains(directory_of_collection(start)),
        is_first_free(listing, start, Ok(c)),
    ensures
        c >= start,
        listing.files.contains(start) ==> c > start,
        !listing.files.contains(c as nat) || c as nat % (DIR_SIZE as nat) == 0,
{
    let from = directory_of_collection(start);
    let d = choose|d: nat|
        {
            &&& #[trigger] is_first_missing_directory(listing, from, d)
            &&& if d == 0 {
                c == 0
            } else {
                is_first_missing_collection(
                    listing,
                    scan_base(start, d),
                    d * (DIR_SIZE as nat),
                    c as nat,
                )
            }
        };
    assert(d > from);
    assert(scan_base(start, d) >= start) by {
        if from != d - 1 {
            assert((d - 1) * 1000 >= start) by (nonlinear_arith)
                requires
                    start / 1000 < d - 1,
            ;
        }
    }
    assert(start < d * 1000) by (nonlinear_arith)
        requires
            start / 1000 < d,
    ;
    if c as nat == d * (DIR_SIZE as nat) {
        assert((d * 1000) % 1000 == 0) by (nonlinear_arith);
    }
}

} // verus!
