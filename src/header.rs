//! The fixed preamble of a file: byte order, version, platform and directory.
use vstd::prelude::*;
use crate::cursor::{Endian, u32_of, in_bounds, read_u8, read_u32};
use crate::error::EdbError;

verus! {

/// Marker byte at offset 0 that selects big-endian decoding.
pub const BIG_ENDIAN_MARKER: u8 = 0x47;
/// The first four bytes of every file, read in the file's own byte order.
pub const MAGIC: u32 = 0x47454F4D;
/// Oldest format version this reader understands.
pub const MIN_VERSION: u32 = 156;
/// Newest format version this reader understands.
pub const MAX_VERSION: u32 = 263;
/// From this version on the directory carries a spreadsheet list.
pub const SPREADSHEET_VERSION: u32 = 248;
/// Offset of the first directory entry.
pub const DIRECTORY_START: usize = 12;
/// Bytes per directory entry: a count and an address.
pub const DIRECTORY_ENTRY_SIZE: usize = 8;

/// Console or computer a file was built for.
#[derive(Clone, Copy, Debug, PartialEq, Eq, Structural)]
pub enum Platform {
    Pc,
    Xbox,
    Xbox360,
    Ps2,
    Ps3,
    GameCube,
    Wii,
    WiiU,
}

/// Platform names as a user may give them, with their aliases.
#[derive(Clone, Copy, Debug, PartialEq, Eq, Structural)]
pub enum PlatformArg {
    Pc,
    Xb,
    Xbox,
    Xbox360,
    Ps2,
    Ps3,
    Gc,
    Gamecube,
    Wii,
    WiiU,
}

pub open spec fn platform_of_arg(a: PlatformArg) -> Platform {
    match a {
        PlatformArg::Pc => Platform::Pc,
        PlatformArg::Xb | PlatformArg::Xbox => Platform::Xbox,
        PlatformArg::Xbox360 => Platform::Xbox360,
        PlatformArg::Ps2 => Platform::Ps2,
        PlatformArg::Ps3 => Platform::Ps3,
        PlatformArg::Gc | PlatformArg::Gamecube => Platform::GameCube,
        PlatformArg::Wii => Platform::Wii,
        PlatformArg::WiiU => Platform::WiiU,
    }
}

impl From<PlatformArg> for Platform {
    fn from(val: PlatformArg) -> (r: Platform)
        ensures
            r == platform_of_arg(val),
    {
        match val {
            PlatformArg::Pc => Platform::Pc,
            PlatformArg::Xbox | PlatformArg::Xb => Platform::Xbox,
            PlatformArg::Xbox360 => Platform::Xbox360,
            PlatformArg::Ps2 => Platform::Ps2,
            PlatformArg::Ps3 => Platform::Ps3,
            PlatformArg::Gamecube | PlatformArg::Gc => Platform::GameCube,
            PlatformArg::Wii => Platform::Wii,
            PlatformArg::WiiU => Platform::WiiU,
        }
    }
}

impl vstd::std_specs::convert::FromSpecImpl<PlatformArg> for Platform {
    open spec fn obeys_from_spec() -> bool {
        true
    }

    open spec fn from_spec(v: PlatformArg) -> Platform {
        platform_of_arg(v)
    }
}

/// Platform named by a tag; `None` for a tag with no platform.
pub open spec fn platform_of_tag(tag: u32) -> Option<Platform> {
    if tag == 0 { Some(Platform::Pc) }
    else if tag == 1 { Some(Platform::Xbox) }
    else if tag == 2 { Some(Platform::Xbox360) }
    else if tag == 3 { Some(Platform::Ps2) }
    else if tag == 4 { Some(Platform::Ps3) }
    else if tag == 5 { Some(Platform::GameCube) }
    else if tag == 6 { Some(Platform::Wii) }
    else if tag == 7 { Some(Platform::WiiU) }
    else { None }
}

/// Platforms for which a pixel codec exists.
pub open spec fn has_codec(p: Platform) -> bool {
    match p {
        Platform::Pc | Platform::Xbox | Platform::Ps2 | Platform::GameCube | Platform::Wii => true,
        _ => false,
    }
}

/// Location of a typed record array: `count` records starting at absolute `address`.
#[derive(Clone, Copy, Debug, PartialEq, Eq, Structural)]
pub struct ArrayPointer {
    pub count: u32,
    pub address: u32,
}

/// The parsed preamble of a file.
#[derive(Clone, Copy, Debug, PartialEq, Eq, Structural)]
pub struct Header {
    pub endian: Endian,
    pub version: u32,
    pub platform: Platform,
    pub texture_list: ArrayPointer,
    pub entity_list: ArrayPointer,
    pub map_list: ArrayPointer,
    pub refpointer_list: ArrayPointer,
    pub script_list: ArrayPointer,
    pub animation_list: ArrayPointer,
    /// Empty before `SPREADSHEET_VERSION`.
    pub spreadsheet_list: ArrayPointer,
}

/// Byte order selected by the first byte.
pub open spec fn endian_of_marker(m: u8) -> Endian {
    if m == BIG_ENDIAN_MARKER { Endian::Big } else { Endian::Little }
}

/// Number of directory entries a version carries.
pub open spec fn directory_len(version: u32) -> int {
    if version >= SPREADSHEET_VERSION { 7 } else { 6 }
}

/// Size of the preamble for a version.
pub open spec fn header_size(version: u32) -> int {
    DIRECTORY_START as int + directory_len(version) * DIRECTORY_ENTRY_SIZE as int
}

/// Directory entry `k`.
pub open spec fn pointer_at(b: Seq<u8>, e: Endian, k: int) -> ArrayPointer {
    ArrayPointer {
        count: u32_of(b, DIRECTORY_START as int + k * DIRECTORY_ENTRY_SIZE as int, e),
        address: u32_of(b, DIRECTORY_START as int + k * DIRECTORY_ENTRY_SIZE as int + 4, e),
    }
}

/// What the preamble of `b` says, or why it says nothing.
pub open spec fn header_spec(b: Seq<u8>) -> Result<Header, EdbError> {
    if b.len() < DIRECTORY_START {
        Err(EdbError::CorruptHeader)
    } else {
        let e = endian_of_marker(b[0]);
        let version = u32_of(b, 4, e);
        if u32_of(b, 0, e) != MAGIC || version < MIN_VERSION || version > MAX_VERSION
            || b.len() < header_size(version) {
            Err(EdbError::CorruptHeader)
        } else {
            match platform_of_tag(u32_of(b, 8, e)) {
                Some(p) if has_codec(p) => Ok(Header {
                    endian: e,
                    version,
                    platform: p,
                    texture_list: pointer_at(b, e, 0),
                    entity_list: pointer_at(b, e, 1),
                    map_list: pointer_at(b, e, 2),
                    refpointer_list: pointer_at(b, e, 3),
                    script_list: pointer_at(b, e, 4),
                    animation_list: pointer_at(b, e, 5),
                    spreadsheet_list: if version >= SPREADSHEET_VERSION {
                        pointer_at(b, e, 6)
                    } else {
                        ArrayPointer { count: 0, address: 0 }
                    },
                }),
                _ => Err(EdbError::UnsupportedPlatform),
            }
        }
    }
}

/// Maps a platform tag to its platform, if it names one.
pub fn platform_from_tag(tag: u32) -> (r: Option<Platform>)
    ensures
        r == platform_of_tag(tag),
{
    match tag {
        0 => Some(Platform::Pc),
        1 => Some(Platform::Xbox),
        2 => Some(Platform::Xbox360),
        3 => Some(Platform::Ps2),
        4 => Some(Platform::Ps3),
        5 => Some(Platform::GameCube),
        6 => Some(Platform::Wii),
        7 => Some(Platform::WiiU),
        _ => None,
    }
}

/// Whether this reader can decode the pixels of a platform.
pub fn platform_has_codec(p: Platform) -> (r: bool)
    ensures
        r == has_codec(p),
{
    match p {
        Platform::Pc | Platform::Xbox | Platform::Ps2 | Platform::GameCube | Platform::Wii => true,
        _ => false,
    }
}

fn read_pointer(b: &[u8], e: Endian, k: usize) -> (r: ArrayPointer)
    requires
        k < 7,
        b@.len() >= DIRECTORY_START + (k + 1) * DIRECTORY_ENTRY_SIZE,
    ensures
        r == pointer_at(b@, e, k as int),
{
    let at = DIRECTORY_START + k * DIRECTORY_ENTRY_SIZE;
    let count = read_u32(b, at, e).unwrap();
    let address = read_u32(b, at + 4, e).unwrap();
    ArrayPointer { count, address }
}

/// Parses the preamble: the marker byte picks the byte order, then magic, version,
/// platform tag and the directory follow in that order.
pub fn parse_header(b: &[u8]) -> (r: Result<Header, EdbError>)
    ensures
        r == header_spec(b@),
{
    if b.len() < DIRECTORY_START {
        return Err(EdbError::CorruptHeader);
    }
    let marker = read_u8(b, 0).unwrap();
    let e = if marker == BIG_ENDIAN_MARKER { Endian::Big } else { Endian::Little };
    let magic = read_u32(b, 0, e).unwrap();
    let version = read_u32(b, 4, e).unwrap();
    let n_entries: usize = if version >= SPREADSHEET_VERSION { 7 } else { 6 };
    if magic != MAGIC || version < MIN_VERSION || version > MAX_VERSION
        || b.len() < DIRECTORY_START + n_entries * DIRECTORY_ENTRY_SIZE {
        return Err(EdbError::CorruptHeader);
    }
    let tag = read_u32(b, 8, e).unwrap();
    let platform = match platform_from_tag(tag) {
        Some(p) => p,
        None => return Err(EdbError::UnsupportedPlatform),
    };
    if !platform_has_codec(platform) {
        return Err(EdbError::UnsupportedPlatform);
    }
    let spreadsheet_list = if version >= SPREADSHEET_VERSION {
        read_pointer(b, e, 6)
    } else {
        ArrayPointer { count: 0, address: 0 }
    };
    Ok(Header {
        endian: e,
        version,
        platform,
        texture_list: read_pointer(b, e, 0),
        entity_list: read_pointer(b, e, 1),
        map_list: read_pointer(b, e, 2),
        refpointer_list: read_pointer(b, e, 3),
        script_list: read_pointer(b, e, 4),
        animation_list: read_pointer(b, e, 5),
        spreadsheet_list,
    })
}

/// The marker byte alone fixes the byte order of a parsed header, every field
/// after it is read in that order, and parsing the same bytes twice gives the
/// same header.
pub proof fn lemma_header_endian_deterministic(b1: Seq<u8>, b2: Seq<u8>)
    requires
        header_spec(b1) is Ok,
        b1 == b2,
    ensures
        header_spec(b1)->Ok_0.endian == endian_of_marker(b1[0]),
        header_spec(b1)->Ok_0.endian == Endian::Big <==> b1[0] == BIG_ENDIAN_MARKER,
        header_spec(b1)->Ok_0.version == u32_of(b1, 4, endian_of_marker(b1[0])),
        platform_of_tag(u32_of(b1, 8, endian_of_marker(b1[0]))) == Some(header_spec(b1)->Ok_0.platform),
        forall|k: int| 0 <= k < 6 ==> (
            #[trigger] pointer_at(b1, endian_of_marker(b1[0]), k) == (if k == 0 { header_spec(b1)->Ok_0.texture_list }
                else if k == 1 { header_spec(b1)->Ok_0.entity_list }
                else if k == 2 { header_spec(b1)->Ok_0.map_list }
                else if k == 3 { header_spec(b1)->Ok_0.refpointer_list }
                else if k == 4 { header_spec(b1)->Ok_0.script_list }
                else { header_spec(b1)->Ok_0.animation_list })
        ),
        header_spec(b1) == header_spec(b2),
{
}

} // verus!
