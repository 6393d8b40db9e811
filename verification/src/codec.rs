//! Location codec: from a packet identifier to directory, collection file and
//! byte offset, and the names under which both are found on the card.

use vstd::prelude::*;
use vstd::utf8::is_ascii_chars;

verus! {

/// Packets per collection file.
pub const COLLECTION_SIZE: u32 = 100;

/// Collection files per directory.
pub const DIR_SIZE: u32 = 1000;

/// Version of the storage format.
pub const STORAGE_VERSION: u32 = 6;

/// The storage format's version as it appears in file names.
pub const STORAGE_VERSION_STR: &'static str = "6";

/// Size in bytes of a packet's encoded frame.
pub const AXL_POSTCARD_SZ: usize = 10240;

/// Size in bytes of one slot of a collection file.
pub const PACKAGE_SZ: usize = AXL_POSTCARD_SZ;

/// The character of one decimal digit.
pub open spec fn digit(d: nat) -> char
    recommends
        d < 10,
{
    seq!['0', '1', '2', '3', '4', '5', '6', '7', '8', '9'][d as int]
}

/// The decimal notation of a number: no sign, no leading zero, `"0"` for zero.
pub open spec fn decimal(n: nat) -> Seq<char>
    decreases n,
{
    if n < 10 {
        seq![digit(n)]
    } else {
        decimal(n / 10).push(digit(n % 10))
    }
}

/// The version tag that ends every collection file's name.
pub open spec fn version_tag() -> Seq<char> {
    seq!['6']
}

/// The name of collection `c`: its index, a dot, the format version.
pub open spec fn collection_name(c: nat) -> Seq<char> {
    decimal(c) + seq!['.'] + version_tag()
}

/// The collection that holds packet `id`.
pub open spec fn collection_of(id: nat) -> nat {
    id / (COLLECTION_SIZE as nat)
}

/// The directory that holds collection `c`.
pub open spec fn directory_of_collection(c: nat) -> nat {
    c / (DIR_SIZE as nat)
}

/// The directory that holds packet `id`: that of its collection.
pub open spec fn directory_of(id: nat) -> nat {
    directory_of_collection(collection_of(id))
}

/// The slot of packet `id` within its collection.
pub open spec fn slot_of(id: nat) -> nat {
    id % (COLLECTION_SIZE as nat)
}

/// The byte offset of packet `id` within its collection file.
pub open spec fn offset_of(id: nat) -> nat {
    slot_of(id) * (PACKAGE_SZ as nat)
}

/// The identifier found at `slot` of `collection`.
pub open spec fn id_at(collection: nat, slot: nat) -> nat {
    collection * (COLLECTION_SIZE as nat) + slot
}

/// `heapless::String`, the fixed-capacity string that names are built in.
#[verifier::external_type_specification]
#[verifier::external_body]
pub struct ExName<const N: usize>(heapless::String<N>);

/// The text that a name holds.
pub uninterp spec fn name_text(name: heapless::String<32>) -> Seq<char>;

/// `heapless::String::<32>::from(u32)`: the number written in decimal, as
/// `core::fmt` displays it. Thirty-two bytes hold every `u32`, so the
/// conversion cannot fail.
#[verifier::external_body]
fn decimal_string(n: u32) -> (r: heapless::String<32>)
    ensures
        name_text(r) == decimal(n as nat),
{
    heapless::String::from(n)
}

/// `heapless::String::push_str`: appends `tail` if its bytes fit into what
/// is left of the capacity, and changes nothing if they do not. Text made
/// of ASCII characters has as many bytes as characters, so such a tail fits
/// where the characters of both together are no more than the 32 of the
/// capacity.
#[verifier::external_body]
fn push_str(name: &mut heapless::String<32>, tail: &str) -> (r: Result<(), ()>)
    ensures
        r is Ok ==> name_text(*final(name)) == name_text(*old(name)) + tail@,
        r is Err ==> name_text(*final(name)) == name_text(*old(name)),
        is_ascii_chars(name_text(*old(name))) && is_ascii_chars(tail@) && name_text(
            *old(name),
        ).len() + tail@.len() <= 32 ==> r is Ok,
{
    name.push_str(tail)
}

/// The name of directory `dir`: its index in decimal.
pub fn dir_name(dir: u32) -> (r: heapless::String<32>)
    ensures
        name_text(r) == decimal(dir as nat),
{
    decimal_string(dir)
}

/// The name of collection file `c`.
pub fn collection_fname(c: u32) -> (r: heapless::String<32>)
    ensures
        name_text(r) == collection_name(c as nat),
{
    let mut f = decimal_string(c);
    proof {
        lemma_decimal_digits(c as nat);
        lemma_decimal_width(c as nat);
        reveal_strlit(".");
        reveal_strlit("6");
        assert("."@ =~= seq!['.']);
        assert(STORAGE_VERSION_STR@ =~= version_tag());
    }
    let dot = push_str(&mut f, ".");
    assert(dot is Ok);
    let version = push_str(&mut f, STORAGE_VERSION_STR);
    assert(version is Ok);
    f
}

/// Directory, collection file name, slot and byte offset of packet `id`.
pub fn id_to_parts(id: u32) -> (parts: (u32, heapless::String<32>, u32, usize))
    ensures
        parts.0 == directory_of(id as nat),
        name_text(parts.1) == collection_name(collection_of(id as nat)),
        parts.2 == slot_of(id as nat),
        parts.3 == offset_of(id as nat),
{
    let collection: u32 = id / COLLECTION_SIZE;
    let dir: u32 = collection / DIR_SIZE;
    let fileid: u32 = id % COLLECTION_SIZE;
    let offset: usize = fileid as usize * PACKAGE_SZ;
    let name = collection_fname(collection);
    (dir, name, fileid, offset)
}

/// The location of an identifier gives the identifier back: collection and
/// slot rebuild `id`, the slot lies within the collection, and the directory
/// is the one that holds the collection.
pub proof fn lemma_locate_inverts(id: nat)
    ensures
        id_at(collection_of(id), slot_of(id)) == id,
        slot_of(id) < COLLECTION_SIZE,
        directory_of(id) == id / ((COLLECTION_SIZE as nat) * (DIR_SIZE as nat)),
        offset_of(id) == slot_of(id) * PACKAGE_SZ,
{
    assert(id == 100 * (id / 100) + id % 100) by (nonlinear_arith);
    assert((id / 100) / 1000 == id / 100000) by (nonlinear_arith);
}

/// Every slot of every collection is the location of exactly one identifier.
pub proof fn lemma_location_is_located(collection: nat, slot: nat)
    requires
        slot < COLLECTION_SIZE,
    ensures
        collection_of(id_at(collection, slot)) == collection,
        slot_of(id_at(collection, slot)) == slot,
{
    assert((collection * 100 + slot) / 100 == collection && (collection * 100 + slot) % 100
        == slot) by (nonlinear_arith)
        requires
            slot < 100,
    ;
}

/// Two identifiers with the same collection and slot are the same.
pub proof fn lemma_locate_injective(a: nat, b: nat)
    requires
        collection_of(a) == collection_of(b),
        slot_of(a) == slot_of(b),
    ensures
        a == b,
{
    lemma_locate_inverts(a);
    lemma_locate_inverts(b);
}

/// Locations keep the order of identifiers: a later identifier lies in a
/// later collection, or in the same collection at a later slot, and never in
/// an earlier directory.
pub proof fn lemma_locate_monotonic(a: nat, b: nat)
    requires
        a < b,
    ensures
        collection_of(a) < collection_of(b) || (collection_of(a) == collection_of(b) && slot_of(a)
            < slot_of(b)),
        directory_of(a) <= directory_of(b),
        collection_of(a) == collection_of(b) ==> offset_of(a) < offset_of(b),
{
    lemma_locate_inverts(a);
    lemma_locate_inverts(b);
    assert(a / 100 <= b / 100) by (nonlinear_arith)
        requires
            a < b,
    ;
    assert(a / 100000 <= b / 100000) by (nonlinear_arith)
        requires
            a < b,
    ;
    if collection_of(a) == collection_of(b) {
        assert(slot_of(a) * 10240 < slot_of(b) * 10240) by (nonlinear_arith)
            requires
                slot_of(a) < slot_of(b),
        ;
    }
}

/// A number's decimal notation has a digit, and only digits.
pub proof fn lemma_decimal_digits(n: nat)
    ensures
        decimal(n).len() >= 1,
        forall|i: int| 0 <= i < decimal(n).len() ==> '0' <= #[trigger] decimal(n)[i] <= '9',
    decreases n,
{
    if n >= 10 {
        lemma_decimal_digits(n / 10);
    }
}

/// The decimal notation of a number below ten to the k-th has k digits at
/// most, and so that of a `u32` has ten at most.
pub proof fn lemma_decimal_width(n: nat)
    ensures
        n < 10 ==> decimal(n).len() <= 1,
        n < 100 ==> decimal(n).len() <= 2,
        n < 1_000 ==> decimal(n).len() <= 3,
        n < 10_000 ==> decimal(n).len() <= 4,
        n < 100_000 ==> decimal(n).len() <= 5,
        n < 1_000_000 ==> decimal(n).len() <= 6,
        n < 10_000_000 ==> decimal(n).len() <= 7,
        n < 100_000_000 ==> decimal(n).len() <= 8,
        n < 1_000_000_000 ==> decimal(n).len() <= 9,
        n < 10_000_000_000 ==> decimal(n).len() <= 10,
    decreases n,
{
    if n >= 10 {
        lemma_decimal_width(n / 10);
    }
}

/// Different numbers are written differently.
pub proof fn lemma_decimal_injective(a: nat, b: nat)
    requires
        decimal(a) == decimal(b),
    ensures
        a == b,
    decreases a,
{
    lemma_decimal_digits(a / 10);
    lemma_decimal_digits(b / 10);
    if a < 10 && b < 10 {
        assert(decimal(a)[0] == digit(a));
        assert(decimal(b)[0] == digit(b));
    } else if a >= 10 && b >= 10 {
        let da = decimal(a / 10);
        let db = decimal(b / 10);
        assert(da.push(digit(a % 10)).last() == digit(a % 10));
        assert(db.push(digit(b % 10)).last() == digit(b % 10));
        assert(da.push(digit(a % 10)).drop_last() == da);
        assert(db.push(digit(b % 10)).drop_last() == db);
        lemma_decimal_injective(a / 10, b / 10);
        assert(a == 10 * (a / 10) + a % 10) by (nonlinear_arith);
        assert(b == 10 * (b / 10) + b % 10) by (nonlinear_arith);
    } else if a < 10 {
        assert(decimal(a).len() == 1);
        assert(decimal(b).len() == decimal(b / 10).len() + 1);
    } else {
        assert(decimal(b).len() == 1);
        assert(decimal(a).len() == decimal(a / 10).len() + 1);
    }
}

/// Different collections have different file names, so a name stands for one
/// collection only.
pub proof fn lemma_collection_name_injective(a: nat, b: nat)
    requires
        collection_name(a) == collection_name(b),
    ensures
        a == b,
{
    let tail = seq!['.'] + version_tag();
    assert(collection_name(a) == decimal(a) + tail);
    assert(collection_name(b) == decimal(b) + tail);
    assert(decimal(a).len() == decimal(b).len());
    assert(decimal(a) =~= collection_name(a).subrange(0, decimal(a).len() as int));
    assert(decimal(b) =~= collection_name(b).subrange(0, decimal(b).len() as int));
    lemma_decimal_injective(a, b);
}

} // verus!
