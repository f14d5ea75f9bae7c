//! Fixed-size records and the generic reader of a typed array of them.
use vstd::prelude::*;
use crate::array::{array_fits, record_offset, read_array};
use crate::cursor::{Endian, u32_of, in_bounds, read_u32};
use crate::error::EdbError;
use crate::header::ArrayPointer;

verus! {

/// A record of fixed size whose layout may depend on the format version.
pub trait Record: Sized {
    /// Bytes per record in files of `version`.
    spec fn size(version: u32) -> int;

    /// The record stored at `at`.
    spec fn parse(b: Seq<u8>, e: Endian, version: u32, at: int) -> Self;

    fn record_size(version: u32) -> (r: usize)
        ensures
            r as int == Self::size(version),
            r > 0,
    ;

    fn read(b: &[u8], e: Endian, version: u32, at: usize) -> (r: Self)
        requires
            in_bounds(b@.len() as int, at as int, Self::size(version)),
            b@.len() <= usize::MAX,
        ensures
            r == Self::parse(b@, e, version, at as int),
    ;
}

/// The records of an array, in order.
pub open spec fn records_spec<T: Record>(b: Seq<u8>, e: Endian, version: u32, p: ArrayPointer) -> Seq<T> {
    Seq::new(p.count as nat, |i: int| T::parse(b, e, version, record_offset(p, T::size(version), i)))
}

/// Reads every record of the array that `p` locates. Fails with
/// `InvalidReference`, before reading any record, when the array passes the end
/// of the buffer.
pub fn read_records<T: Record>(b: &[u8], e: Endian, version: u32, p: ArrayPointer) -> (r: Result<Vec<T>, EdbError>)
    ensures
        r is Err <==> !array_fits(b@.len() as int, p, T::size(version)),
        r is Err ==> r == Err::<Vec<T>, EdbError>(EdbError::InvalidReference),
        r matches Ok(v) ==> v@ == records_spec::<T>(b@, e, version, p),
{
    let size = T::record_size(version);
    let len = b.len();
    let offsets = match read_array(len, p, size) {
        Ok(o) => o,
        Err(err) => return Err(err),
    };
    let mut out: Vec<T> = Vec::new();
    let mut i: usize = 0;
    while i < offsets.len()
        invariant
            size as int == T::size(version),
            size > 0,
            offsets@.len() == p.count,
            forall|j: int| 0 <= j < offsets@.len() ==> #[trigger] offsets@[j] == record_offset(p, size as int, j),
            forall|j: int| 0 <= j < offsets@.len() ==>
                p.address <= #[trigger] offsets@[j] && offsets@[j] + size
                    <= p.address as int + p.count as int * size,
            array_fits(b@.len() as int, p, size as int),
            b@.len() <= usize::MAX,
            i <= offsets@.len(),
            out@.len() == i,
            forall|j: int| 0 <= j < i ==> #[trigger] out@[j] == records_spec::<T>(b@, e, version, p)[j],
        decreases offsets@.len() - i,
    {
        let at = offsets[i];
        let rec = T::read(b, e, version, at);
        out.push(rec);
        i = i + 1;
    }
    proof {
        assert(out@ =~= records_spec::<T>(b@, e, version, p));
    }
    Ok(out)
}

fn word(b: &[u8], at: usize, e: Endian) -> (r: u32)
    requires
        in_bounds(b@.len() as int, at as int, 4),
        b@.len() <= usize::MAX,
    ensures
        r == u32_of(b@, at as int, e),
{
    read_u32(b, at, e).unwrap()
}

/// Three components, each kept as the bits of its stored value.
#[derive(Clone, Copy, Debug, PartialEq, Eq, Structural)]
pub struct Vec3Bits {
    pub x: u32,
    pub y: u32,
    pub z: u32,
}

pub open spec fn vec3_spec(b: Seq<u8>, e: Endian, at: int) -> Vec3Bits {
    Vec3Bits { x: u32_of(b, at, e), y: u32_of(b, at + 4, e), z: u32_of(b, at + 8, e) }
}

fn read_vec3(b: &[u8], e: Endian, at: usize) -> (r: Vec3Bits)
    requires
        in_bounds(b@.len() as int, at as int, 12),
        b@.len() <= usize::MAX,
    ensures
        r == vec3_spec(b@, e, at as int),
{
    Vec3Bits { x: word(b, at, e), y: word(b, at + 4, e), z: word(b, at + 8, e) }
}

/// Four raw words.
#[derive(Clone, Copy, Debug, PartialEq, Eq, Structural)]
pub struct Words4 {
    pub w0: u32,
    pub w1: u32,
    pub w2: u32,
    pub w3: u32,
}

pub open spec fn words4_spec(b: Seq<u8>, e: Endian, at: int) -> Words4 {
    Words4 { w0: u32_of(b, at, e), w1: u32_of(b, at + 4, e), w2: u32_of(b, at + 8, e), w3: u32_of(b, at + 12, e) }
}

fn read_words4(b: &[u8], e: Endian, at: usize) -> (r: Words4)
    requires
        in_bounds(b@.len() as int, at as int, 16),
        b@.len() <= usize::MAX,
    ensures
        r == words4_spec(b@, e, at as int),
{
    Words4 { w0: word(b, at, e), w1: word(b, at + 4, e), w2: word(b, at + 8, e), w3: word(b, at + 12, e) }
}

/// One entry of the file's map or entity list: an item's hashcode and address.
#[derive(Clone, Copy, Debug, PartialEq, Eq, Structural)]
pub struct ListEntry {
    pub hashcode: u32,
    pub address: u32,
}

impl Record for ListEntry {
    open spec fn size(version: u32) -> int { 8 }

    open spec fn parse(b: Seq<u8>, e: Endian, version: u32, at: int) -> ListEntry {
        ListEntry { hashcode: u32_of(b, at, e), address: u32_of(b, at + 4, e) }
    }

    fn record_size(version: u32) -> (r: usize) { 8 }

    fn read(b: &[u8], e: Endian, version: u32, at: usize) -> (r: ListEntry) {
        ListEntry { hashcode: word(b, at, e), address: word(b, at + 4, e) }
    }
}

/// A path through a map: its points lie in an array of their own.
#[derive(Clone, Copy, Debug, PartialEq, Eq, Structural)]
pub struct Path {
    pub hashcode: u32,
    pub point_count: u32,
    pub point_address: u32,
    pub flags: u32,
}

impl Record for Path {
    open spec fn size(version: u32) -> int { 16 }

    open spec fn parse(b: Seq<u8>, e: Endian, version: u32, at: int) -> Path {
        Path {
            hashcode: u32_of(b, at, e),
            point_count: u32_of(b, at + 4, e),
            point_address: u32_of(b, at + 8, e),
            flags: u32_of(b, at + 12, e),
        }
    }

    fn record_size(version: u32) -> (r: usize) { 16 }

    fn read(b: &[u8], e: Endian, version: u32, at: usize) -> (r: Path) {
        Path {
            hashcode: word(b, at, e),
            point_count: word(b, at + 4, e),
            point_address: word(b, at + 8, e),
            flags: word(b, at + 12, e),
        }
    }
}

/// An entity placed in a map.
#[derive(Clone, Copy, Debug, PartialEq, Eq, Structural)]
pub struct Placement {
    pub entity_hashcode: u32,
    pub flags: u32,
    pub position: Vec3Bits,
    pub rotation: Vec3Bits,
}

impl Record for Placement {
    open spec fn size(version: u32) -> int { 32 }

    open spec fn parse(b: Seq<u8>, e: Endian, version: u32, at: int) -> Placement {
        Placement {
            entity_hashcode: u32_of(b, at, e),
            flags: u32_of(b, at + 4, e),
            position: vec3_spec(b, e, at + 8),
            rotation: vec3_spec(b, e, at + 20),
        }
    }

    fn record_size(version: u32) -> (r: usize) { 32 }

    fn read(b: &[u8], e: Endian, version: u32, at: usize) -> (r: Placement) {
        Placement {
            entity_hashcode: word(b, at, e),
            flags: word(b, at + 4, e),
            position: read_vec3(b, e, at + 8),
            rotation: read_vec3(b, e, at + 20),
        }
    }
}

/// A light of a map.
#[derive(Clone, Copy, Debug, PartialEq, Eq, Structural)]
pub struct Light {
    pub kind: u32,
    pub color: u32,
    pub position: Vec3Bits,
}

impl Record for Light {
    open spec fn size(version: u32) -> int { 20 }

    open spec fn parse(b: Seq<u8>, e: Endian, version: u32, at: int) -> Light {
        Light { kind: u32_of(b, at, e), color: u32_of(b, at + 4, e), position: vec3_spec(b, e, at + 8) }
    }

    fn record_size(version: u32) -> (r: usize) { 20 }

    fn read(b: &[u8], e: Endian, version: u32, at: usize) -> (r: Light) {
        Light { kind: word(b, at, e), color: word(b, at + 4, e), position: read_vec3(b, e, at + 8) }
    }
}

/// A zone of a map; its geometry is the entity behind a reference slot.
#[derive(Clone, Copy, Debug, PartialEq, Eq, Structural)]
pub struct ZoneDescriptor {
    pub hashcode: u32,
    pub entity_refptr: u32,
}

impl Record for ZoneDescriptor {
    open spec fn size(version: u32) -> int { 8 }

    open spec fn parse(b: Seq<u8>, e: Endian, version: u32, at: int) -> ZoneDescriptor {
        ZoneDescriptor { hashcode: u32_of(b, at, e), entity_refptr: u32_of(b, at + 4, e) }
    }

    fn record_size(version: u32) -> (r: usize) { 8 }

    fn read(b: &[u8], e: Endian, version: u32, at: usize) -> (r: ZoneDescriptor) {
        ZoneDescriptor { hashcode: word(b, at, e), entity_refptr: word(b, at + 4, e) }
    }
}

/// An entry of a map's trigger type table.
#[derive(Clone, Copy, Debug, PartialEq, Eq, Structural)]
pub struct TriggerType {
    pub trig_type: u32,
    pub trig_subtype: u32,
}

impl Record for TriggerType {
    open spec fn size(version: u32) -> int { 8 }

    open spec fn parse(b: Seq<u8>, e: Endian, version: u32, at: int) -> TriggerType {
        TriggerType { trig_type: u32_of(b, at, e), trig_subtype: u32_of(b, at + 4, e) }
    }

    fn record_size(version: u32) -> (r: usize) { 8 }

    fn read(b: &[u8], e: Endian, version: u32, at: usize) -> (r: TriggerType) {
        TriggerType { trig_type: word(b, at, e), trig_subtype: word(b, at + 4, e) }
    }
}

/// From this version on a trigger record ends with a list of links.
pub const TRIGGER_LINKS_VERSION: u32 = 248;

/// A trigger as stored: its type is an index into the map's type table.
#[derive(Clone, Copy, Debug, PartialEq, Eq, Structural)]
pub struct TriggerRecord {
    pub type_index: u32,
    pub game_flags: u32,
    pub trig_flags: u32,
    pub link_ref: u32,
    pub position: Vec3Bits,
    pub rotation: Vec3Bits,
    pub scale: Vec3Bits,
    pub data: Words4,
    /// All zero before `TRIGGER_LINKS_VERSION`.
    pub links: Words4,
}

impl Record for TriggerRecord {
    open spec fn size(version: u32) -> int {
        if version >= TRIGGER_LINKS_VERSION { 84 } else { 68 }
    }

    open spec fn parse(b: Seq<u8>, e: Endian, version: u32, at: int) -> TriggerRecord {
        TriggerRecord {
            type_index: u32_of(b, at, e),
            game_flags: u32_of(b, at + 4, e),
            trig_flags: u32_of(b, at + 8, e),
            link_ref: u32_of(b, at + 12, e),
            position: vec3_spec(b, e, at + 16),
            rotation: vec3_spec(b, e, at + 28),
            scale: vec3_spec(b, e, at + 40),
            data: words4_spec(b, e, at + 52),
            links: if version >= TRIGGER_LINKS_VERSION {
                words4_spec(b, e, at + 68)
            } else {
                Words4 { w0: 0, w1: 0, w2: 0, w3: 0 }
            },
        }
    }

    fn record_size(version: u32) -> (r: usize) {
        if version >= TRIGGER_LINKS_VERSION { 84 } else { 68 }
    }

    fn read(b: &[u8], e: Endian, version: u32, at: usize) -> (r: TriggerRecord) {
        TriggerRecord {
            type_index: word(b, at, e),
            game_flags: word(b, at + 4, e),
            trig_flags: word(b, at + 8, e),
            link_ref: word(b, at + 12, e),
            position: read_vec3(b, e, at + 16),
            rotation: read_vec3(b, e, at + 28),
            scale: read_vec3(b, e, at + 40),
            data: read_words4(b, e, at + 52),
            links: if version >= TRIGGER_LINKS_VERSION {
                read_words4(b, e, at + 68)
            } else {
                Words4 { w0: 0, w1: 0, w2: 0, w3: 0 }
            },
        }
    }
}

} // verus!
