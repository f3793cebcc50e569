//! The executable segments of a tracee, keyed by their address ranges.

use rangemap::RangeMap;
use vstd::prelude::*;

verus! {

/// `rangemap::RangeMap`, a map whose keys are half-open ranges.
#[verifier::external_type_specification]
#[verifier::external_body]
#[verifier::reject_recursive_types(K)]
#[verifier::reject_recursive_types(V)]
pub struct ExRangeMap<K, V>(RangeMap<K, V>);

/// What a range map of segments holds: for each address that lies in one of
/// its ranges, the bytes stored for that range.
pub uninterp spec fn segments(map: RangeMap<u64, Vec<u8>>) -> Map<u64, Seq<u8>>;

/// A map of segments that holds nothing.
pub open spec fn no_segments() -> Map<u64, Seq<u8>> {
    Map::empty()
}

/// `contents` after `bytes` have been stored for the addresses from `begin`
/// up to, and not including, `end`.
pub open spec fn with_segment(contents: Map<u64, Seq<u8>>, begin: u64, end: u64, bytes: Seq<u8>) -> Map<
    u64,
    Seq<u8>,
> {
    Map::new(
        |address: u64| begin <= address < end || contents.contains_key(address),
        |address: u64|
            if begin <= address < end {
                bytes
            } else {
                contents[address]
            },
    )
}

/// `RangeMap::new`: a map that holds nothing.
#[verifier::external_body]
fn range_map_new() -> (pages: RangeMap<u64, Vec<u8>>)
    ensures
        segments(pages) == no_segments(),
{
    RangeMap::new()
}

/// `RangeMap::insert` of the range `begin..end`: the addresses of the range
/// now map to `bytes`, whatever they mapped to before, and every other
/// address keeps what it had. The range must not be empty.
#[verifier::external_body]
fn range_map_insert(map: &mut RangeMap<u64, Vec<u8>>, begin: u64, end: u64, bytes: Vec<u8>)
    requires
        begin < end,
    ensures
        segments(*final(map)) == with_segment(segments(*old(map)), begin, end, bytes@),
{
    map.insert(begin..end, bytes)
}

/// `RangeMap::get`: the value stored for the range in which `address` lies,
/// if it lies in one.
#[verifier::external_body]
fn range_map_get(map: &RangeMap<u64, Vec<u8>>, address: u64) -> (found: Option<&Vec<u8>>)
    ensures
        found is Some <==> segments(*map).contains_key(address),
        found is Some ==> found->Some_0@ == segments(*map)[address],
{
    map.get(&address)
}

/// One line of a process's memory map: an address range and whether it
/// may be executed.
#[derive(Clone, Copy, Debug, PartialEq, Eq, Structural)]
pub struct Segment {
    pub begin: u64,
    pub end: u64,
    pub executable: bool,
}

/// A lookup structure keyed by half-open address ranges, mapping to the byte
/// contents of each executable segment of the tracee.
pub struct ExecutableMap {
    pages: RangeMap<u64, Vec<u8>>,
}

impl View for ExecutableMap {
    type V = Map<u64, Seq<u8>>;

    closed spec fn view(&self) -> Map<u64, Seq<u8>> {
        segments(self.pages)
    }
}

impl ExecutableMap {
    /// A map of no segments.
    pub fn new() -> (map: ExecutableMap)
        ensures
            map@ == no_segments(),
    {
        ExecutableMap { pages: range_map_new() }
    }

    /// Stores `bytes` as the contents of the segment from `begin` up to, and
    /// not including, `end`, over whatever the map held for these addresses.
    pub fn insert(&mut self, begin: u64, end: u64, bytes: Vec<u8>)
        requires
            begin < end,
        ensures
            final(self)@ == with_segment(old(self)@, begin, end, bytes@),
    {
        range_map_insert(&mut self.pages, begin, end, bytes);
    }

    /// The contents of the segment in which `address` lies, if it lies in
    /// one.
    pub fn get(&self, address: u64) -> (found: Option<&Vec<u8>>)
        ensures
            found is Some <==> self@.contains_key(address),
            found is Some ==> found->Some_0@ == self@[address],
    {
        range_map_get(&self.pages, address)
    }
}

} // verus!
