//! Texture records of a file and the decoding of all frames of one record.
use vstd::prelude::*;
use vstd::slice::slice_subrange;
use crate::cursor::{Endian, u16_of, u32_of, in_bounds, read_u8, read_u16, read_u32};
use crate::error::EdbError;
use crate::header::Header;
use crate::texture::{Codec, TextureFormat, format_of_tag, format_from_tag, size_of, decoded};

verus! {

/// Bytes per texture record.
pub const TEXTURE_RECORD_SIZE: usize = 0x20;
/// From this version on a record may store its raw data size.
pub const DATA_SIZE_VERSION: u32 = 240;

/// One texture: its shape, format, and the absolute offset of each frame's data.
#[derive(Debug)]
pub struct TextureRecord {
    pub hashcode: u32,
    pub width: u16,
    pub height: u16,
    pub depth: u16,
    pub format: TextureFormat,
    /// Absolute offsets, one per frame, in declared order.
    pub frame_offsets: Vec<u64>,
    /// Stored size of each frame's raw data, which takes precedence over the
    /// format's own size.
    pub data_size: Option<u32>,
}

/// Absolute offset of frame `i`: each table slot holds an offset relative to itself.
pub open spec fn frame_offset(b: Seq<u8>, e: Endian, table: int, i: int) -> int {
    table + 4 * i + u32_of(b, table + 4 * i, e)
}

pub open spec fn frame_count(b: Seq<u8>, at: int) -> int {
    b[at + 11] as int
}

pub open spec fn frame_table(b: Seq<u8>, e: Endian, at: int) -> int {
    u32_of(b, at + 12, e) as int
}

/// Whether the record at `at` lies in the buffer, with its frame table and every
/// frame offset.
pub open spec fn record_in_bounds(b: Seq<u8>, e: Endian, at: int) -> bool {
    &&& in_bounds(b.len() as int, at, TEXTURE_RECORD_SIZE as int)
    &&& in_bounds(b.len() as int, frame_table(b, e, at), 4 * frame_count(b, at))
    &&& forall|i: int| 0 <= i < frame_count(b, at) ==> #[trigger] frame_offset(b, e, frame_table(b, e, at), i) <= b.len()
}

/// What reading the texture record at `at` gives, apart from its frame list.
pub open spec fn record_matches(b: Seq<u8>, h: Header, at: int, t: TextureRecord) -> bool {
    let e = h.endian;
    &&& t.hashcode == u32_of(b, at, e)
    &&& t.width == u16_of(b, at + 4, e)
    &&& t.height == u16_of(b, at + 6, e)
    &&& t.depth == u16_of(b, at + 8, e)
    &&& format_of_tag(b[at + 10]) == Some(t.format)
    &&& t.frame_offsets@.len() == frame_count(b, at)
    &&& forall|i: int| 0 <= i < frame_count(b, at) ==>
        #[trigger] t.frame_offsets@[i] as int == frame_offset(b, e, frame_table(b, e, at), i)
    &&& t.data_size == (if h.version >= DATA_SIZE_VERSION && u32_of(b, at + 16, e) != 0 {
            Some(u32_of(b, at + 16, e))
        } else {
            None::<u32>
        })
}

/// Reads the texture record at `at`.
pub fn read_texture(b: &[u8], h: &Header, at: usize) -> (r: Result<TextureRecord, EdbError>)
    ensures
        !in_bounds(b@.len() as int, at as int, TEXTURE_RECORD_SIZE as int) ==> r == Err::<TextureRecord, EdbError>(EdbError::InvalidReference),
        in_bounds(b@.len() as int, at as int, TEXTURE_RECORD_SIZE as int) && format_of_tag(b@[at + 10]) is None
            ==> r == Err::<TextureRecord, EdbError>(EdbError::UnsupportedTextureFormat),
        in_bounds(b@.len() as int, at as int, TEXTURE_RECORD_SIZE as int) && format_of_tag(b@[at + 10]) is Some
            ==> (r is Ok <==> record_in_bounds(b@, h.endian, at as int)),
        in_bounds(b@.len() as int, at as int, TEXTURE_RECORD_SIZE as int) && format_of_tag(b@[at + 10]) is Some
            && !record_in_bounds(b@, h.endian, at as int) ==> r == Err::<TextureRecord, EdbError>(EdbError::InvalidReference),
        r is Err ==> r == Err::<TextureRecord, EdbError>(EdbError::InvalidReference)
            || r == Err::<TextureRecord, EdbError>(EdbError::UnsupportedTextureFormat),
        r matches Ok(t) ==> record_matches(b@, *h, at as int, t),
{
    if at > b.len() || b.len() - at < TEXTURE_RECORD_SIZE {
        return Err(EdbError::InvalidReference);
    }
    let e = h.endian;
    let hashcode = read_u32(b, at, e).unwrap();
    let width = read_u16(b, at + 4, e).unwrap();
    let height = read_u16(b, at + 6, e).unwrap();
    let depth = read_u16(b, at + 8, e).unwrap();
    let format = match format_from_tag(read_u8(b, at + 10).unwrap()) {
        Some(f) => f,
        None => return Err(EdbError::UnsupportedTextureFormat),
    };
    let count = read_u8(b, at + 11).unwrap() as usize;
    let table = read_u32(b, at + 12, e).unwrap() as usize;
    let stored = read_u32(b, at + 16, e).unwrap();
    let data_size = if h.version >= DATA_SIZE_VERSION && stored != 0 { Some(stored) } else { None };
    if table > b.len() || b.len() - table < 4 * count {
        return Err(EdbError::InvalidReference);
    }
    let mut frame_offsets: Vec<u64> = Vec::new();
    let len = b.len();
    let mut i: usize = 0;
    while i < count
        invariant
            len == b@.len(),
            in_bounds(b@.len() as int, at as int, TEXTURE_RECORD_SIZE as int),
            format_of_tag(b@[at + 10]) == Some(format),
            e == h.endian,
            count == frame_count(b@, at as int),
            table == frame_table(b@, e, at as int),
            table + 4 * count <= b@.len(),
            i <= count,
            frame_offsets@.len() == i,
            forall|j: int| 0 <= j < i ==>
                #[trigger] frame_offsets@[j] as int == frame_offset(b@, e, frame_table(b@, e, at as int), j),
            forall|j: int| 0 <= j < i ==> #[trigger] frame_offset(b@, e, frame_table(b@, e, at as int), j) <= b@.len(),
        decreases count - i,
    {
        let pos = table + 4 * i;
        let rel = read_u32(b, pos, e).unwrap() as usize;
        if rel > b.len() || pos > b.len() - rel {
            assert(!(frame_offset(b@, e, frame_table(b@, e, at as int), i as int) <= b@.len()));
            return Err(EdbError::InvalidReference);
        }
        frame_offsets.push((pos + rel) as u64);
        i = i + 1;
    }
    Ok(TextureRecord { hashcode, width, height, depth, format, frame_offsets, data_size })
}

/// Size of each frame's raw data: the stored size when there is one, else the format's.
pub open spec fn frame_size(t: TextureRecord) -> int {
    match t.data_size {
        Some(s) => s as int,
        None => size_of(t.format, t.width as int, t.height as int, t.depth as int),
    }
}

/// Absolute start of each frame, as integers.
pub open spec fn frame_starts(t: TextureRecord) -> Seq<int> {
    t.frame_offsets@.map_values(|o: u64| o as int)
}

/// Why decoding frames that start at `starts`, each `fs` bytes long, out of a
/// buffer of `len` bytes fails, or `None` when it succeeds. Frames are taken in
/// order: the first frame's span is checked, then its size against the format's,
/// then the span of every other frame.
pub open spec fn frames_error(
    len: int,
    supported: bool,
    f: TextureFormat,
    w: int,
    h: int,
    d: int,
    starts: Seq<int>,
    fs: int,
) -> Option<EdbError> {
    if !supported {
        Some(EdbError::UnsupportedTextureFormat)
    } else if starts.len() == 0 {
        None
    } else if starts[0] + fs > len {
        Some(EdbError::InvalidReference)
    } else if fs < size_of(f, w, h, d) {
        Some(EdbError::DecodeError)
    } else if exists|j: int| 0 <= j < starts.len() && #[trigger] starts[j] + fs > len {
        Some(EdbError::InvalidReference)
    } else {
        None
    }
}

/// `frames_error` for a texture record.
pub open spec fn record_frames_error(len: int, codec: Codec, t: TextureRecord) -> Option<EdbError> {
    frames_error(len, codec.supports(t.format), t.format, t.width as int, t.height as int, t.depth as int,
        frame_starts(t), frame_size(t))
}

/// Decodes every frame of a texture, in declared order, into RGBA8 buffers of
/// `width * height * depth * 4` bytes each. Frame `i` is decoded from the
/// `frame_size` bytes at its offset, which must lie in the buffer.
pub fn decode_frames(b: &[u8], codec: &Codec, t: &TextureRecord) -> (r: Result<Vec<Vec<u8>>, EdbError>)
    requires
        4 * (t.width * t.height * t.depth) <= usize::MAX,
    ensures
        r is Err <==> record_frames_error(b@.len() as int, *codec, *t) is Some,
        r matches Err(err) ==> record_frames_error(b@.len() as int, *codec, *t) == Some(err),
        r matches Ok(v) ==> {
            &&& v@.len() == t.frame_offsets@.len()
            &&& forall|i: int| 0 <= i < v@.len() ==> #[trigger] t.frame_offsets@[i] as int + frame_size(*t) <= b@.len()
            &&& forall|i: int| 0 <= i < v@.len() ==> #[trigger] v@[i]@ == decoded(t.format,
                    b@.subrange(t.frame_offsets@[i] as int, t.frame_offsets@[i] as int + frame_size(*t)),
                    t.width as int, t.height as int, t.depth as int)
            &&& forall|i: int| 0 <= i < v@.len() ==>
                    #[trigger] v@[i]@.len() == 4 * (t.width as int * t.height as int * t.depth as int)
        },
{
    let calculated = match codec.get_data_size(t.width, t.height, t.depth, t.format) {
        Ok(s) => s,
        Err(e) => return Err(e),
    };
    let size: u64 = match t.data_size {
        Some(s) => s as u64,
        None => calculated,
    };
    let mut frames: Vec<Vec<u8>> = Vec::new();
    let mut i: usize = 0;
    while i < t.frame_offsets.len()
        invariant
            codec.supports(t.format),
            4 * (t.width * t.height * t.depth) <= usize::MAX,
            size as int == frame_size(*t),
            calculated as int == size_of(t.format, t.width as int, t.height as int, t.depth as int),
            i <= t.frame_offsets@.len(),
            frames@.len() == i,
            forall|j: int| 0 <= j < i ==> #[trigger] t.frame_offsets@[j] as int + frame_size(*t) <= b@.len(),
            size >= calculated ==> forall|j: int| 0 <= j < i ==> #[trigger] frames@[j]@ == decoded(t.format,
                    b@.subrange(t.frame_offsets@[j] as int, t.frame_offsets@[j] as int + frame_size(*t)),
                    t.width as int, t.height as int, t.depth as int),
            forall|j: int| 0 <= j < i ==>
                    #[trigger] frames@[j]@.len() == 4 * (t.width as int * t.height as int * t.depth as int),
            i > 0 ==> size >= calculated,
        decreases t.frame_offsets@.len() - i,
    {
        let off = t.frame_offsets[i];
        if off > b.len() as u64 || size > b.len() as u64 - off {
            proof {
                assert(frame_starts(*t)[i as int] + frame_size(*t) > b@.len());
                if i > 0 {
                    assert(frame_starts(*t)[0] + frame_size(*t) <= b@.len());
                }
            }
            return Err(EdbError::InvalidReference);
        }
        let raw = slice_subrange(b, off as usize, (off + size) as usize);
        let frame = match codec.decode(raw, t.width, t.height, t.depth, t.format) {
            Ok(v) => v,
            Err(e) => {
                proof {
                    assert(frame_starts(*t)[0] + frame_size(*t) <= b@.len());
                }
                return Err(e);
            },
        };
        frames.push(frame);
        i = i + 1;
    }
    proof {
        if t.frame_offsets@.len() > 0 {
            assert(frame_starts(*t)[0] + frame_size(*t) <= b@.len());
        }
        assert(!exists|j: int| 0 <= j < frame_starts(*t).len() && #[trigger] frame_starts(*t)[j] + frame_size(*t) > b@.len());
    }
    Ok(frames)
}

} // verus!

verus! {

/// A texture record with every frame decoded.
#[derive(Debug)]
pub struct DecodedTexture {
    pub record: TextureRecord,
    /// One RGBA8 buffer per frame, in declared order.
    pub frames: Vec<Vec<u8>>,
}

/// Whether an RGBA8 buffer of this shape can be allocated.
pub open spec fn shape_fits(w: u16, h: u16, d: u16) -> bool {
    4 * (w * h * d) <= usize::MAX
}

/// Raw data size of each frame of the record at `at` in format `f`: the stored
/// size when the version has one and it is not zero, else the format's.
pub open spec fn stored_frame_size(b: Seq<u8>, h: Header, at: int, f: TextureFormat) -> int {
    let e = h.endian;
    let s = u32_of(b, at + 16, e);
    if h.version >= DATA_SIZE_VERSION && s != 0 {
        s as int
    } else {
        size_of(f, u16_of(b, at + 4, e) as int, u16_of(b, at + 6, e) as int, u16_of(b, at + 8, e) as int)
    }
}

/// Absolute start of each frame of the record at `at`.
pub open spec fn record_frame_starts(b: Seq<u8>, e: Endian, at: int) -> Seq<int> {
    Seq::new(frame_count(b, at) as nat, |j: int| frame_offset(b, e, frame_table(b, e, at), j))
}

/// Why the texture record at `at` cannot be read and decoded with `codec`, or
/// `None` when it can.
pub open spec fn texture_slot_error(b: Seq<u8>, h: Header, codec: Codec, at: int) -> Option<EdbError> {
    let e = h.endian;
    if !in_bounds(b.len() as int, at, TEXTURE_RECORD_SIZE as int) {
        Some(EdbError::InvalidReference)
    } else {
        match format_of_tag(b[at + 10]) {
            None => Some(EdbError::UnsupportedTextureFormat),
            Some(f) => {
                let w = u16_of(b, at + 4, e) as int;
                let hh = u16_of(b, at + 6, e) as int;
                let d = u16_of(b, at + 8, e) as int;
                if !record_in_bounds(b, e, at) {
                    Some(EdbError::InvalidReference)
                } else if 4 * (w * hh * d) > usize::MAX {
                    Some(EdbError::DecodeError)
                } else {
                    frames_error(b.len() as int, codec.supports(f), f, w, hh, d,
                        record_frame_starts(b, e, at), stored_frame_size(b, h, at, f))
                }
            },
        }
    }
}

/// What holds of a slot of `extract_textures` for the record at `at`.
pub open spec fn texture_slot(b: Seq<u8>, h: Header, codec: Codec, at: int, slot: Result<DecodedTexture, EdbError>) -> bool {
    &&& slot is Err <==> texture_slot_error(b, h, codec, at) is Some
    &&& slot matches Err(err) ==> texture_slot_error(b, h, codec, at) == Some(err)
    &&& slot matches Ok(t) ==> {
        &&& record_matches(b, h, at, t.record)
        &&& t.frames@.len() == t.record.frame_offsets@.len()
        &&& forall|j: int| 0 <= j < t.frames@.len() ==>
                #[trigger] t.record.frame_offsets@[j] as int + frame_size(t.record) <= b.len()
        &&& forall|j: int| 0 <= j < t.frames@.len() ==> #[trigger] t.frames@[j]@ == decoded(t.record.format,
                b.subrange(t.record.frame_offsets@[j] as int, t.record.frame_offsets@[j] as int + frame_size(t.record)),
                t.record.width as int, t.record.height as int, t.record.depth as int)
        &&& forall|j: int| 0 <= j < t.frames@.len() ==> #[trigger] t.frames@[j]@.len()
                == 4 * (t.record.width as int * t.record.height as int * t.record.depth as int)
    }
}

/// Reads and decodes every texture of the file's texture list. The whole call
/// fails, with `InvalidReference`, only when the list leaves the buffer; a record
/// that fails yields its own error in its slot and the others still decode.
pub fn extract_textures(b: &[u8], h: &Header, codec: &Codec) -> (r: Result<Vec<Result<DecodedTexture, EdbError>>, EdbError>)
    ensures
        r is Err <==> !crate::array::array_fits(b@.len() as int, h.texture_list, TEXTURE_RECORD_SIZE as int),
        r is Err ==> r == Err::<Vec<Result<DecodedTexture, EdbError>>, EdbError>(EdbError::InvalidReference),
        r matches Ok(v) ==> {
            &&& v@.len() == h.texture_list.count
            &&& forall|i: int| 0 <= i < v@.len() ==> texture_slot(b@, *h, *codec,
                    crate::array::record_offset(h.texture_list, TEXTURE_RECORD_SIZE as int, i), #[trigger] v@[i])
        },
{
    let offsets = match crate::array::read_array(b.len(), h.texture_list, TEXTURE_RECORD_SIZE) {
        Ok(o) => o,
        Err(err) => return Err(err),
    };
    let mut out: Vec<Result<DecodedTexture, EdbError>> = Vec::new();
    let mut i: usize = 0;
    while i < offsets.len()
        invariant
            offsets@.len() == h.texture_list.count,
            forall|j: int| 0 <= j < offsets@.len() ==>
                #[trigger] offsets@[j] == crate::array::record_offset(h.texture_list, TEXTURE_RECORD_SIZE as int, j),
            i <= offsets@.len(),
            out@.len() == i,
            forall|k: int| 0 <= k < i ==> texture_slot(b@, *h, *codec,
                crate::array::record_offset(h.texture_list, TEXTURE_RECORD_SIZE as int, k), #[trigger] out@[k]),
        decreases offsets@.len() - i,
    {
        let item = match read_texture(b, h, offsets[i]) {
            Err(err) => Err(err),
            Ok(record) => {
                proof {
                    let (w, hh, d) = (record.width as int, record.height as int, record.depth as int);
                    assert(w * hh <= 65535 * 65535) by (nonlinear_arith) requires 0 <= w <= 65535, 0 <= hh <= 65535;
                    assert(w * hh * d <= 65535 * 65535 * 65535) by (nonlinear_arith)
                        requires 0 <= w * hh <= 65535 * 65535, 0 <= d <= 65535;
                }
                let texels = record.width as u64 * record.height as u64 * record.depth as u64;
                if texels > (usize::MAX / 4) as u64 {
                    Err(EdbError::DecodeError)
                } else {
                    proof {
                        let at = offsets@[i as int] as int;
                        assert(frame_starts(record) =~= record_frame_starts(b@, h.endian, at));
                        assert(frame_size(record) == stored_frame_size(b@, *h, at, record.format));
                    }
                    match decode_frames(b, codec, &record) {
                        Err(err) => Err(err),
                        Ok(frames) => Ok(DecodedTexture { record, frames }),
                    }
                }
            },
        };
        assert(texture_slot(b@, *h, *codec, offsets@[i as int] as int, item));
        out.push(item);
        i = i + 1;
    }
    Ok(out)
}

} // verus!
