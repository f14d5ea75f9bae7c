use eurochef::array::{read_array, resolve};
use eurochef::cursor::Endian;
use eurochef::entity::{decode_entity, extract_entities, EntityKind, INSTANCE_TAG, MAPZONE_TAG, MESH_TAG};
use eurochef::error::EdbError;
use eurochef::header::{parse_header, ArrayPointer, Header, Platform, PlatformArg};
use eurochef::map::{assemble_map, resolve_trigger, subtype_of, NO_SUBTYPE};
use eurochef::records::{TriggerRecord, TriggerType, Vec3Bits, Words4};
use eurochef::texture::{create_for_platform, Codec, TextureFormat};
use eurochef::texture_list::{extract_textures, read_texture};

fn put32(b: &mut Vec<u8>, at: usize, v: u32, big: bool) {
    if b.len() < at + 4 {
        b.resize(at + 4, 0);
    }
    let bytes = if big { v.to_be_bytes() } else { v.to_le_bytes() };
    b[at..at + 4].copy_from_slice(&bytes);
}

fn put16(b: &mut Vec<u8>, at: usize, v: u16) {
    if b.len() < at + 2 {
        b.resize(at + 2, 0);
    }
    b[at..at + 2].copy_from_slice(&v.to_le_bytes());
}

/// A version-200 little-endian PC file with the given directory (count, address) pairs.
fn base_file(dir: &[(u32, u32)], len: usize, big: bool) -> Vec<u8> {
    let mut b = vec![0u8; len];
    put32(&mut b, 0, 0x47454F4D, big);
    put32(&mut b, 4, 200, big);
    put32(&mut b, 8, 0, big);
    for (k, (c, a)) in dir.iter().enumerate() {
        put32(&mut b, 12 + 8 * k, *c, big);
        put32(&mut b, 16 + 8 * k, *a, big);
    }
    b
}

#[test]
fn header_little_endian() {
    let b = base_file(&[(2, 0x40), (0, 0), (0, 0), (0, 0), (0, 0), (0, 0)], 0x40, false);
    let h = parse_header(&b).unwrap();
    assert_eq!(h.endian, Endian::Little);
    assert_eq!(h.version, 200);
    assert_eq!(h.platform, Platform::Pc);
    assert_eq!(h.texture_list, ArrayPointer { count: 2, address: 0x40 });
    assert_eq!(h.spreadsheet_list, ArrayPointer { count: 0, address: 0 });
}

#[test]
fn header_big_endian_marker() {
    let b = base_file(&[(3, 0x100), (0, 0), (0, 0), (0, 0), (0, 0), (0, 0)], 0x40, true);
    assert_eq!(b[0], 0x47);
    let h = parse_header(&b).unwrap();
    assert_eq!(h.endian, Endian::Big);
    assert_eq!(h.version, 200);
    assert_eq!(h.texture_list, ArrayPointer { count: 3, address: 0x100 });
    // The same bytes parse to the same header.
    assert_eq!(parse_header(&b), parse_header(&b.clone()));
}

#[test]
fn header_with_spreadsheets_from_version_248() {
    let mut b = base_file(&[(0, 0); 6], 0x44, false);
    put32(&mut b, 4, 250, false);
    put32(&mut b, 12 + 48, 5, false);
    put32(&mut b, 16 + 48, 0x80, false);
    let h = parse_header(&b).unwrap();
    assert_eq!(h.spreadsheet_list, ArrayPointer { count: 5, address: 0x80 });
    // One byte short of the longer directory.
    assert_eq!(parse_header(&b[..0x43]), Err(EdbError::CorruptHeader));
}

#[test]
fn header_errors() {
    let mut b = base_file(&[(0, 0); 6], 0x40, false);
    assert_eq!(parse_header(&b[..8]), Err(EdbError::CorruptHeader));
    put32(&mut b, 4, 999, false);
    assert_eq!(parse_header(&b), Err(EdbError::CorruptHeader));
    put32(&mut b, 4, 200, false);
    put32(&mut b, 8, 2, false);
    assert_eq!(parse_header(&b), Err(EdbError::UnsupportedPlatform));
    put32(&mut b, 8, 40, false);
    assert_eq!(parse_header(&b), Err(EdbError::UnsupportedPlatform));
    put32(&mut b, 8, 3, false);
    assert_eq!(parse_header(&b).unwrap().platform, Platform::Ps2);
    put32(&mut b, 0, 0x12345678, false);
    assert_eq!(parse_header(&b), Err(EdbError::CorruptHeader));
}

#[test]
fn platform_arg_aliases() {
    assert_eq!(Platform::from(PlatformArg::Xb), Platform::Xbox);
    assert_eq!(Platform::from(PlatformArg::Xbox), Platform::Xbox);
    assert_eq!(Platform::from(PlatformArg::Gc), Platform::GameCube);
    assert_eq!(Platform::from(PlatformArg::Gamecube), Platform::GameCube);
    assert_eq!(Platform::from(PlatformArg::WiiU), Platform::WiiU);
    assert_eq!(Platform::from(PlatformArg::Ps3), Platform::Ps3);
}

fn refs_file() -> (Vec<u8>, Header) {
    // Three reference slots at 0x40.
    let mut b = base_file(&[(0, 0), (0, 0), (0, 0), (3, 0x40), (0, 0), (0, 0)], 0x80, false);
    put32(&mut b, 0x40, 0x50, false);
    put32(&mut b, 0x44, 0x7F, false);
    put32(&mut b, 0x48, 0x80, false);
    let h = parse_header(&b).unwrap();
    (b, h)
}

#[test]
fn resolve_in_and_out_of_range() {
    let (b, h) = refs_file();
    assert_eq!(resolve(&b, &h, 0), Ok(0x50));
    assert_eq!(resolve(&b, &h, 1), Ok(0x7F));
    // Slot 2 points at the end of the file.
    assert_eq!(resolve(&b, &h, 2), Err(EdbError::InvalidReference));
    assert_eq!(resolve(&b, &h, 3), Err(EdbError::InvalidReference));
    assert_eq!(resolve(&b, &h, u32::MAX), Err(EdbError::InvalidReference));
}

#[test]
fn read_array_bounds() {
    let p = ArrayPointer { count: 2, address: 0x40 };
    assert_eq!(read_array(0x80, p, 0x20), Ok(vec![0x40, 0x60]));
    assert_eq!(read_array(0x7F, p, 0x20), Err(EdbError::InvalidReference));
    assert_eq!(read_array(0x30, p, 0x20), Err(EdbError::InvalidReference));
    let huge = ArrayPointer { count: u32::MAX, address: 0 };
    assert_eq!(read_array(0x80, huge, 0x20), Err(EdbError::InvalidReference));
    assert_eq!(read_array(0x40, ArrayPointer { count: 0, address: 0x40 }, 4), Ok(vec![]));
}

/// Two BC3 64x64 texture records at 0x40 and 0x60, each with one frame.
fn texture_file() -> Vec<u8> {
    let mut b = base_file(&[(2, 0x40), (0, 0), (0, 0), (0, 0), (0, 0), (0, 0)], 0x2100, false);
    for (i, at) in [0x40usize, 0x60].iter().enumerate() {
        put32(&mut b, *at, 0x1000 + i as u32, false);
        put16(&mut b, at + 4, 64);
        put16(&mut b, at + 6, 64);
        put16(&mut b, at + 8, 1);
        b[at + 10] = 2;
        b[at + 11] = 1;
        let table = 0x80 + 4 * i;
        put32(&mut b, at + 12, table as u32, false);
        let data = 0x100 + 4096 * i;
        put32(&mut b, table, (data - table) as u32, false);
    }
    b
}

#[test]
fn two_block_compressed_textures_decode_independently() {
    let b = texture_file();
    let h = parse_header(&b).unwrap();
    let codec = create_for_platform(h.platform).unwrap();
    let out = extract_textures(&b, &h, &codec).unwrap();
    assert_eq!(out.len(), 2);
    for (i, t) in out.iter().enumerate() {
        let t = t.as_ref().unwrap();
        assert_eq!(t.record.hashcode, 0x1000 + i as u32);
        assert_eq!(t.record.format, TextureFormat::BlockCompressed4x4A);
        assert_eq!(t.record.frame_offsets, vec![0x100 + 4096 * i as u64]);
        assert_eq!(t.frames.len(), 1);
        assert_eq!(t.frames[0].len(), 16384);
    }
}

#[test]
fn failing_texture_record_does_not_stop_siblings() {
    let mut b = texture_file();
    b[0x40 + 10] = 9;
    let h = parse_header(&b).unwrap();
    let out = extract_textures(&b, &h, &Codec::Pc).unwrap();
    assert!(matches!(out[0], Err(EdbError::UnsupportedTextureFormat)));
    assert_eq!(out[1].as_ref().unwrap().frames[0].len(), 16384);
    // A PS2 codec lacks block compression.
    let out = extract_textures(&texture_file(), &h, &Codec::Ps2).unwrap();
    assert!(matches!(out[1], Err(EdbError::UnsupportedTextureFormat)));
}

#[test]
fn texture_list_past_the_end() {
    let b = texture_file();
    let h = parse_header(&b).unwrap();
    assert!(matches!(extract_textures(&b[..0x70], &h, &Codec::Pc), Err(EdbError::InvalidReference)));
    assert!(matches!(read_texture(&b, &h, 0x2100 - 0x10), Err(EdbError::InvalidReference)));
}

#[test]
fn animated_texture_yields_one_buffer_per_frame() {
    let mut b = texture_file();
    // Record 0 as a 3-frame 4x4 RGBA texture.
    put16(&mut b, 0x44, 4);
    put16(&mut b, 0x46, 4);
    b[0x40 + 10] = 0;
    b[0x40 + 11] = 3;
    put32(&mut b, 0x4C, 0x90, false);
    for k in 0..3usize {
        let slot = 0x90 + 4 * k;
        put32(&mut b, slot, (0x200 + 64 * k - slot) as u32, false);
        for j in 0..64 {
            b[0x200 + 64 * k + j] = (k * 64 + j) as u8;
        }
    }
    let h = parse_header(&b).unwrap();
    let out = extract_textures(&b, &h, &Codec::Pc).unwrap();
    let t = out[0].as_ref().unwrap();
    assert_eq!(t.frames.len(), 3);
    for k in 0..3usize {
        assert_eq!(t.frames[k].len(), 64);
        assert_eq!(t.frames[k][0], (k * 64) as u8);
        assert_eq!(t.frames[k][63], (k * 64 + 63) as u8);
    }
}

#[test]
fn data_sizes_by_format() {
    assert_eq!(Codec::Pc.get_data_size(64, 64, 1, TextureFormat::Rgba8), Ok(16384));
    assert_eq!(Codec::Pc.get_data_size(64, 64, 1, TextureFormat::BlockCompressed4x4), Ok(2048));
    assert_eq!(Codec::Pc.get_data_size(64, 64, 1, TextureFormat::BlockCompressed4x4A), Ok(4096));
    assert_eq!(Codec::Pc.get_data_size(5, 5, 1, TextureFormat::BlockCompressed4x4), Ok(32));
    assert_eq!(Codec::Ps2.get_data_size(16, 16, 1, TextureFormat::Indexed8), Ok(256 + 1024));
    assert_eq!(Codec::Ps2.get_data_size(3, 3, 1, TextureFormat::Indexed4), Ok(5 + 64));
    assert_eq!(Codec::GameCube.get_data_size(8, 8, 2, TextureFormat::Rgb5A3), Ok(256));
    assert_eq!(
        Codec::GameCube.get_data_size(8, 8, 1, TextureFormat::Indexed8),
        Err(EdbError::UnsupportedTextureFormat)
    );
    assert_eq!(create_for_platform(Platform::Xbox360), None);
    assert_eq!(create_for_platform(Platform::Wii), Some(Codec::GameCube));
}

#[test]
fn block_compressed_colors() {
    // Endpoints red and blue; row 0 index 0, row 1 index 1, row 2 index 2, row 3 index 3.
    let raw = [0x00, 0xF8, 0x1F, 0x00, 0x00, 0x55, 0xAA, 0xFF];
    let out = Codec::Pc.decode(&raw, 4, 4, 1, TextureFormat::BlockCompressed4x4).unwrap();
    assert_eq!(out.len(), 64);
    assert_eq!(&out[0..4], &[255, 0, 0, 255]);
    assert_eq!(&out[16..20], &[0, 0, 255, 255]);
    assert_eq!(&out[32..36], &[170, 0, 85, 255]);
    assert_eq!(&out[48..52], &[85, 0, 170, 255]);
    // Endpoints in the other order: three colours and transparent black.
    let raw = [0x1F, 0x00, 0x00, 0xF8, 0xFF, 0xFF, 0xFF, 0xFF];
    let out = Codec::Pc.decode(&raw, 4, 4, 1, TextureFormat::BlockCompressed4x4).unwrap();
    assert_eq!(&out[0..4], &[0, 0, 0, 0]);
}

#[test]
fn block_compressed_alpha() {
    let mut raw = vec![0u8; 16];
    raw[0] = 255;
    raw[1] = 0;
    // Texel 0 index 0, texel 1 index 1, texel 2 index 2.
    raw[2] = 0b1000_1000;
    raw[3] = 0;
    raw[8..10].copy_from_slice(&[0xFF, 0xFF]);
    let out = Codec::Pc.decode(&raw, 4, 4, 1, TextureFormat::BlockCompressed4x4A).unwrap();
    assert_eq!(out[3], 255);
    assert_eq!(out[7], 0);
    assert_eq!(out[11], 218);
    assert_eq!(&out[0..3], &[255, 255, 255]);
}

#[test]
fn packed_texels_in_tiles() {
    let mut raw = vec![0u8; 32];
    raw[0..2].copy_from_slice(&[0xFF, 0xFF]);
    raw[2..4].copy_from_slice(&[0x70, 0x00]);
    raw[8..10].copy_from_slice(&[0x3F, 0x00]);
    let out = Codec::GameCube.decode(&raw, 4, 4, 1, TextureFormat::Rgb5A3).unwrap();
    assert_eq!(&out[0..4], &[255, 255, 255, 255]);
    assert_eq!(&out[4..8], &[0, 0, 0, 255]);
    // Texel 4 is the first of the second row.
    assert_eq!(&out[16..20], &[255, 0, 0, 109]);
}

#[test]
fn paletted_texels() {
    let mut raw = vec![0u8; 4 + 1024];
    raw[0] = 8;
    raw[1] = 16;
    raw[4 + 16 * 4..4 + 16 * 4 + 4].copy_from_slice(&[1, 2, 3, 4]);
    raw[4 + 8 * 4..4 + 8 * 4 + 4].copy_from_slice(&[5, 6, 7, 8]);
    let out = Codec::Ps2.decode(&raw, 2, 2, 1, TextureFormat::Indexed8).unwrap();
    assert_eq!(&out[0..4], &[1, 2, 3, 4]);
    assert_eq!(&out[4..8], &[5, 6, 7, 8]);
    let mut raw = vec![0u8; 2 + 64];
    raw[0] = 0x21;
    raw[2 + 4..2 + 8].copy_from_slice(&[9, 9, 9, 9]);
    raw[2 + 8..2 + 12].copy_from_slice(&[7, 7, 7, 7]);
    let out = Codec::Ps2.decode(&raw, 2, 2, 1, TextureFormat::Indexed4).unwrap();
    assert_eq!(&out[0..4], &[9, 9, 9, 9]);
    assert_eq!(&out[4..8], &[7, 7, 7, 7]);
}

#[test]
fn decode_errors() {
    let raw = [0u8; 7];
    assert_eq!(Codec::Pc.decode(&raw, 4, 4, 1, TextureFormat::BlockCompressed4x4), Err(EdbError::DecodeError));
    assert_eq!(Codec::Pc.decode(&raw, 1, 1, 1, TextureFormat::Rgb5A3), Err(EdbError::UnsupportedTextureFormat));
    assert_eq!(Codec::Pc.decode(&raw, 1, 1, 1, TextureFormat::Rgba8), Ok(vec![0, 0, 0, 0]));
    assert_eq!(Codec::Pc.decode(&raw, 0, 4, 1, TextureFormat::Rgba8), Ok(vec![]));
}

#[test]
fn decoding_is_deterministic() {
    let raw: Vec<u8> = (0..64u32).map(|i| (i * 37 % 251) as u8).collect();
    let a = Codec::Pc.decode(&raw, 8, 8, 1, TextureFormat::BlockCompressed4x4A).unwrap();
    let b = Codec::Pc.decode(&raw.clone(), 8, 8, 1, TextureFormat::BlockCompressed4x4A).unwrap();
    assert_eq!(a, b);
    assert_eq!(a.len(), 8 * 8 * 4);
}

fn entity_at(b: &mut Vec<u8>, at: usize, tag: u32, size: u32, payload: &[u32]) {
    put32(b, at, tag, false);
    put32(b, at + 4, 0xABCD, false);
    put32(b, at + 8, size, false);
    put32(b, at + 28, 7, false);
    for (i, w) in payload.iter().enumerate() {
        put32(b, at + 0x20 + 4 * i, *w, false);
    }
}

#[test]
fn unknown_entity_tag_is_opaque() {
    let mut b = vec![0u8; 0x100];
    entity_at(&mut b, 0x40, 0x9999, 0x30, &[1, 2, 3, 4]);
    let e = decode_entity(&b, Endian::Little, 200, 0x40).unwrap();
    assert_eq!(e.hashcode, 0xABCD);
    assert_eq!(e.flags, 7);
    assert_eq!(e.kind, EntityKind::Unknown { tag: 0x9999, start: 0x60, len: 0x10 });
}

#[test]
fn entity_variants_and_bounds() {
    let mut b = vec![0u8; 0x100];
    entity_at(&mut b, 0x00, MESH_TAG, 0x34, &[10, 0x80, 20, 0x90, 3]);
    let e = decode_entity(&b, Endian::Little, 250, 0).unwrap();
    match e.kind {
        EntityKind::Mesh(m) => {
            assert_eq!((m.vertex_count, m.vertex_address, m.index_count, m.index_address), (10, 0x80, 20, 0x90));
            assert_eq!(m.material_count, 3);
        }
        _ => panic!("not a mesh"),
    }
    match decode_entity(&b, Endian::Little, 200, 0).unwrap().kind {
        EntityKind::Mesh(m) => assert_eq!(m.material_count, 0),
        _ => panic!("not a mesh"),
    }
    assert_eq!(decode_entity(&b, Endian::Little, 200, 0xF0), Err(EdbError::InvalidReference));
    entity_at(&mut b, 0x80, MESH_TAG, 0x24, &[]);
    assert_eq!(decode_entity(&b, Endian::Little, 200, 0x80), Err(EdbError::InvalidReference));
    entity_at(&mut b, 0xC0, 0x9999, 0x80, &[]);
    assert_eq!(decode_entity(&b, Endian::Little, 200, 0xC0), Err(EdbError::InvalidReference));
}

/// A file whose one map has two zones and three triggers.
fn map_file(second_zone_tag: u32) -> Vec<u8> {
    let mut b = base_file(&[(0, 0), (0, 0), (1, 0x40), (2, 0x48), (0, 0), (0, 0)], 0x400, false);
    put32(&mut b, 0x40, 0x77, false);
    put32(&mut b, 0x44, 0x100, false);
    put32(&mut b, 0x48, 0x200, false);
    put32(&mut b, 0x4C, 0x240, false);
    entity_at(&mut b, 0x200, MAPZONE_TAG, 0x2C, &[0, 5, 0x300]);
    entity_at(&mut b, 0x240, second_zone_tag, 0x2C, &[1, 6, 0x310]);
    // Map header at 0x100: paths, placements, lights, zones, trigger types, triggers.
    let ptrs = [(1, 0x140), (1, 0x150), (0, 0), (2, 0x170), (2, 0x180), (3, 0x190)];
    for (k, (c, a)) in ptrs.iter().enumerate() {
        put32(&mut b, 0x100 + 8 * k, *c, false);
        put32(&mut b, 0x104 + 8 * k, *a, false);
    }
    put32(&mut b, 0x140, 0x5A7, false);
    put32(&mut b, 0x150, 0xE17, false);
    put32(&mut b, 0x170, 0x21, false);
    put32(&mut b, 0x174, 0, false);
    put32(&mut b, 0x178, 0x22, false);
    put32(&mut b, 0x17C, 1, false);
    put32(&mut b, 0x180, 11, false);
    put32(&mut b, 0x184, 0x42000001, false);
    put32(&mut b, 0x188, 12, false);
    put32(&mut b, 0x18C, 99, false);
    for (i, ti) in [0u32, 1, 0].iter().enumerate() {
        let at = 0x190 + 68 * i;
        put32(&mut b, at, *ti, false);
        put32(&mut b, at + 12, 100 + i as u32, false);
    }
    b
}

#[test]
fn map_zones_and_triggers() {
    let b = map_file(MAPZONE_TAG);
    let h = parse_header(&b).unwrap();
    let m = assemble_map(&b, &h, 0x100).unwrap();
    assert_eq!(m.paths.len(), 1);
    assert_eq!(m.paths[0].hashcode, 0x5A7);
    assert_eq!(m.placements[0].entity_hashcode, 0xE17);
    assert!(m.lights.is_empty());
    assert_eq!(m.zones.len(), 2);
    // Each zone is what decoding at its resolved address gives.
    assert_eq!(Ok(m.zones[0]), decode_entity(&b, h.endian, h.version, resolve(&b, &h, 0).unwrap() as usize));
    assert_eq!(Ok(m.zones[1]), decode_entity(&b, h.endian, h.version, 0x240));
    assert!(matches!(m.zones[1].kind, EntityKind::MapZone(z) if z.mesh_count == 6));
    assert_eq!(m.triggers.len(), 3);
    let t: Vec<_> = m.triggers.iter().map(|t| t.unwrap()).collect();
    assert_eq!((t[0].ttype, t[0].tsubtype), (11, None));
    assert_eq!((t[1].ttype, t[1].tsubtype), (12, Some(99)));
    assert_eq!((t[2].ttype, t[2].tsubtype), (11, None));
    assert_eq!(t[1].link_ref, 101);
}

#[test]
fn zone_reference_to_other_entity_fails() {
    let b = map_file(INSTANCE_TAG);
    let h = parse_header(&b).unwrap();
    assert!(matches!(assemble_map(&b, &h, 0x100), Err(EdbError::InvalidZoneReference)));
    assert!(matches!(assemble_map(&b, &h, 0x3F0), Err(EdbError::InvalidReference)));
}

fn trigger(type_index: u32) -> TriggerRecord {
    let z = Vec3Bits { x: 0, y: 0, z: 0 };
    let w = Words4 { w0: 0, w1: 0, w2: 0, w3: 0 };
    TriggerRecord {
        type_index,
        game_flags: 1,
        trig_flags: 2,
        link_ref: 3,
        position: z,
        rotation: z,
        scale: Vec3Bits { x: 1, y: 1, z: 1 },
        data: w,
        links: w,
    }
}

#[test]
fn three_triggers_resolve_from_their_type_entries() {
    let types = vec![
        TriggerType { trig_type: 5, trig_subtype: 0 },
        TriggerType { trig_type: 6, trig_subtype: 0x1234 },
    ];
    let recs = [trigger(0), trigger(1), trigger(0)];
    let forward: Vec<_> = recs.iter().map(|r| resolve_trigger(&types, r).unwrap()).collect();
    let backward: Vec<_> = recs.iter().rev().map(|r| resolve_trigger(&types, r).unwrap()).collect();
    assert_eq!((forward[0].ttype, forward[0].tsubtype), (5, None));
    assert_eq!((forward[1].ttype, forward[1].tsubtype), (6, Some(0x1234)));
    assert_eq!((forward[2].ttype, forward[2].tsubtype), (5, None));
    assert_eq!(forward[0], backward[2]);
    assert_eq!(forward[1], backward[1]);
    assert_eq!(resolve_trigger(&types, &trigger(2)), Err(EdbError::InvalidReference));
}

#[test]
fn subtype_sentinels() {
    assert_eq!(subtype_of(0), None);
    assert_eq!(subtype_of(NO_SUBTYPE), None);
    assert_eq!(subtype_of(1), Some(1));
    assert_eq!(subtype_of(0x42000002), Some(0x42000002));
}

#[test]
fn entity_list_isolates_failures() {
    let mut b = base_file(&[(0, 0), (2, 0x40), (0, 0), (0, 0), (0, 0), (0, 0)], 0x100, false);
    put32(&mut b, 0x40, 1, false);
    put32(&mut b, 0x44, 0x80, false);
    put32(&mut b, 0x48, 2, false);
    put32(&mut b, 0x4C, 0xFF0, false);
    entity_at(&mut b, 0x80, MAPZONE_TAG, 0x2C, &[3, 4, 5]);
    let h = parse_header(&b).unwrap();
    let out = extract_entities(&b, &h).unwrap();
    assert_eq!(out.len(), 2);
    assert!(matches!(out[0], Ok(e) if matches!(e.kind, EntityKind::MapZone(z) if z.zone_index == 3)));
    assert_eq!(out[1], Err(EdbError::InvalidReference));
    assert!(matches!(extract_entities(&b[..0x44], &h), Err(EdbError::InvalidReference)));
}

#[test]
fn tiled_block_compression() {
    let mut raw = vec![0u8; 32];
    raw[0..4].copy_from_slice(&[0xF8, 0x00, 0x00, 0x1F]);
    raw[8..12].copy_from_slice(&[0x07, 0xE0, 0x00, 0x00]);
    raw[16..20].copy_from_slice(&[0xF8, 0x00, 0x00, 0x1F]);
    raw[20] = 0x40;
    let out = Codec::GameCube.decode(&raw, 8, 8, 1, TextureFormat::TiledBlockCompressed4x4).unwrap();
    assert_eq!(out.len(), 256);
    assert_eq!(&out[0..4], &[255, 0, 0, 255]);
    assert_eq!(&out[16..20], &[0, 255, 0, 255]);
    assert_eq!(&out[128..132], &[0, 0, 255, 255]);
    assert_eq!(&out[132..136], &[255, 0, 0, 255]);
    assert_eq!(Codec::GameCube.get_data_size(9, 9, 1, TextureFormat::TiledBlockCompressed4x4), Ok(128));
    assert_eq!(
        Codec::Pc.decode(&raw, 8, 8, 1, TextureFormat::TiledBlockCompressed4x4),
        Err(EdbError::UnsupportedTextureFormat)
    );
}
