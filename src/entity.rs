//! Entity records: a common header, then a payload chosen by the type tag.
use vstd::prelude::*;
use crate::cursor::{Endian, u32_of, in_bounds, read_u32};
use crate::error::EdbError;

verus! {

/// Bytes of the header that every entity record starts with.
pub const ENTITY_HEADER_SIZE: usize = 0x20;
/// From this version on a mesh states how many materials it uses.
pub const MESH_MATERIALS_VERSION: u32 = 248;

pub const MESH_TAG: u32 = 0x601;
pub const SPLIT_TAG: u32 = 0x602;
pub const MAPZONE_TAG: u32 = 0x603;
pub const INSTANCE_TAG: u32 = 0x604;

/// A bounding sphere, each component kept as the bits of its stored value.
#[derive(Clone, Copy, Debug, PartialEq, Eq, Structural)]
pub struct BoundingSphere {
    pub x: u32,
    pub y: u32,
    pub z: u32,
    pub radius: u32,
}

/// Geometry: vertex and index buffers located by absolute offsets.
#[derive(Clone, Copy, Debug, PartialEq, Eq, Structural)]
pub struct MeshEntity {
    pub vertex_count: u32,
    pub vertex_address: u32,
    pub index_count: u32,
    pub index_address: u32,
    /// Zero before `MESH_MATERIALS_VERSION`.
    pub material_count: u32,
}

/// The geometry of one zone of a map.
#[derive(Clone, Copy, Debug, PartialEq, Eq, Structural)]
pub struct MapZoneEntity {
    pub zone_index: u32,
    pub mesh_count: u32,
    pub mesh_address: u32,
}

/// The payload of an entity, by type tag.
#[derive(Clone, Copy, Debug, PartialEq, Eq, Structural)]
pub enum EntityKind {
    Mesh(MeshEntity),
    /// An array of child entities.
    Split { child_count: u32, child_address: u32 },
    MapZone(MapZoneEntity),
    /// Another entity, by hashcode and by reference slot.
    Instance { base_hashcode: u32, base_refptr: u32 },
    /// A tag this reader does not know: the tag and the span of payload bytes.
    Unknown { tag: u32, start: u64, len: u32 },
}

/// A decoded entity record.
#[derive(Clone, Copy, Debug, PartialEq, Eq, Structural)]
pub struct Entity {
    pub hashcode: u32,
    pub bounds: BoundingSphere,
    pub flags: u32,
    pub kind: EntityKind,
}

/// Bytes of payload that a tag needs.
pub open spec fn payload_size(tag: u32, version: u32) -> int {
    if tag == MESH_TAG {
        if version >= MESH_MATERIALS_VERSION { 20 } else { 16 }
    } else if tag == SPLIT_TAG || tag == INSTANCE_TAG {
        8
    } else if tag == MAPZONE_TAG {
        12
    } else {
        0
    }
}

/// Payload of the record at `at` whose payload starts at `p`.
pub open spec fn kind_spec(b: Seq<u8>, e: Endian, version: u32, tag: u32, p: int, len: int) -> EntityKind {
    if tag == MESH_TAG {
        EntityKind::Mesh(MeshEntity {
            vertex_count: u32_of(b, p, e),
            vertex_address: u32_of(b, p + 4, e),
            index_count: u32_of(b, p + 8, e),
            index_address: u32_of(b, p + 12, e),
            material_count: if version >= MESH_MATERIALS_VERSION { u32_of(b, p + 16, e) } else { 0 },
        })
    } else if tag == SPLIT_TAG {
        EntityKind::Split { child_count: u32_of(b, p, e), child_address: u32_of(b, p + 4, e) }
    } else if tag == MAPZONE_TAG {
        EntityKind::MapZone(MapZoneEntity {
            zone_index: u32_of(b, p, e),
            mesh_count: u32_of(b, p + 4, e),
            mesh_address: u32_of(b, p + 8, e),
        })
    } else if tag == INSTANCE_TAG {
        EntityKind::Instance { base_hashcode: u32_of(b, p, e), base_refptr: u32_of(b, p + 4, e) }
    } else {
        EntityKind::Unknown { tag, start: p as u64, len: len as u32 }
    }
}

/// What decoding the entity record at `at` gives. The record spans the `size`
/// bytes that its header states; it must hold the header and the tag's payload.
pub open spec fn entity_spec(b: Seq<u8>, e: Endian, version: u32, at: int) -> Result<Entity, EdbError> {
    if !in_bounds(b.len() as int, at, ENTITY_HEADER_SIZE as int) {
        Err(EdbError::InvalidReference)
    } else {
        let tag = u32_of(b, at, e);
        let size = u32_of(b, at + 8, e) as int;
        if size < ENTITY_HEADER_SIZE + payload_size(tag, version) || !in_bounds(b.len() as int, at, size) {
            Err(EdbError::InvalidReference)
        } else {
            Ok(Entity {
                hashcode: u32_of(b, at + 4, e),
                bounds: BoundingSphere {
                    x: u32_of(b, at + 12, e),
                    y: u32_of(b, at + 16, e),
                    z: u32_of(b, at + 20, e),
                    radius: u32_of(b, at + 24, e),
                },
                flags: u32_of(b, at + 28, e),
                kind: kind_spec(b, e, version, tag, at + ENTITY_HEADER_SIZE, size - ENTITY_HEADER_SIZE),
            })
        }
    }
}

fn word(b: &[u8], at: usize, e: Endian) -> (r: u32)
    requires
        in_bounds(b@.len() as int, at as int, 4),
    ensures
        r == u32_of(b@, at as int, e),
{
    read_u32(b, at, e).unwrap()
}

/// Decodes the entity record at `at`. A tag this reader does not know gives the
/// `Unknown` payload rather than an error; an offset or stated size that leaves
/// the buffer gives `InvalidReference`.
pub fn decode_entity(b: &[u8], e: Endian, version: u32, at: usize) -> (r: Result<Entity, EdbError>)
    ensures
        r == entity_spec(b@, e, version, at as int),
{
    if at > b.len() || b.len() - at < ENTITY_HEADER_SIZE {
        return Err(EdbError::InvalidReference);
    }
    let tag = word(b, at, e);
    let size = word(b, at + 8, e) as usize;
    let need: usize = if tag == MESH_TAG {
        if version >= MESH_MATERIALS_VERSION { 20 } else { 16 }
    } else if tag == SPLIT_TAG || tag == INSTANCE_TAG {
        8
    } else if tag == MAPZONE_TAG {
        12
    } else {
        0
    };
    if size < ENTITY_HEADER_SIZE + need || size > b.len() - at {
        return Err(EdbError::InvalidReference);
    }
    let p = at + ENTITY_HEADER_SIZE;
    let kind = if tag == MESH_TAG {
        EntityKind::Mesh(MeshEntity {
            vertex_count: word(b, p, e),
            vertex_address: word(b, p + 4, e),
            index_count: word(b, p + 8, e),
            index_address: word(b, p + 12, e),
            material_count: if version >= MESH_MATERIALS_VERSION { word(b, p + 16, e) } else { 0 },
        })
    } else if tag == SPLIT_TAG {
        EntityKind::Split { child_count: word(b, p, e), child_address: word(b, p + 4, e) }
    } else if tag == MAPZONE_TAG {
        EntityKind::MapZone(MapZoneEntity {
            zone_index: word(b, p, e),
            mesh_count: word(b, p + 4, e),
            mesh_address: word(b, p + 8, e),
        })
    } else if tag == INSTANCE_TAG {
        EntityKind::Instance { base_hashcode: word(b, p, e), base_refptr: word(b, p + 4, e) }
    } else {
        EntityKind::Unknown { tag, start: p as u64, len: (size - ENTITY_HEADER_SIZE) as u32 }
    };
    Ok(Entity {
        hashcode: word(b, at + 4, e),
        bounds: BoundingSphere {
            x: word(b, at + 12, e),
            y: word(b, at + 16, e),
            z: word(b, at + 20, e),
            radius: word(b, at + 24, e),
        },
        flags: word(b, at + 28, e),
        kind,
    })
}

/// A record with a tag outside the known ones decodes, when it fits, to the opaque
/// payload carrying that tag and the span of its payload bytes.
pub proof fn lemma_unknown_tag_is_opaque(b: Seq<u8>, e: Endian, version: u32, at: int)
    requires
        in_bounds(b.len() as int, at, ENTITY_HEADER_SIZE as int),
        u32_of(b, at, e) != MESH_TAG && u32_of(b, at, e) != SPLIT_TAG
            && u32_of(b, at, e) != MAPZONE_TAG && u32_of(b, at, e) != INSTANCE_TAG,
        u32_of(b, at + 8, e) >= ENTITY_HEADER_SIZE,
        in_bounds(b.len() as int, at, u32_of(b, at + 8, e) as int),
    ensures
        entity_spec(b, e, version, at) matches Ok(ent) && ent.kind == (EntityKind::Unknown {
            tag: u32_of(b, at, e),
            start: (at + ENTITY_HEADER_SIZE) as u64,
            len: (u32_of(b, at + 8, e) - ENTITY_HEADER_SIZE) as u32,
        }),
{
}

} // verus!

verus! {

/// Decodes every entity of the file's entity list. The whole call fails, with
/// `InvalidReference`, only when the list leaves the buffer; an entity that fails
/// yields its own error in its slot and the others still decode.
pub fn extract_entities(b: &[u8], h: &crate::header::Header) -> (r: Result<Vec<Result<Entity, EdbError>>, EdbError>)
    ensures
        r is Err <==> !crate::array::array_fits(b@.len() as int, h.entity_list,
            <crate::records::ListEntry as crate::records::Record>::size(h.version)),
        r is Err ==> r == Err::<Vec<Result<Entity, EdbError>>, EdbError>(EdbError::InvalidReference),
        r matches Ok(v) ==> {
            let entries = crate::records::records_spec::<crate::records::ListEntry>(b@, h.endian, h.version, h.entity_list);
            &&& v@.len() == entries.len()
            &&& forall|i: int| 0 <= i < v@.len() ==>
                #[trigger] v@[i] == entity_spec(b@, h.endian, h.version, entries[i].address as int)
        },
{
    let entries = match crate::records::read_records::<crate::records::ListEntry>(b, h.endian, h.version, h.entity_list) {
        Ok(x) => x,
        Err(err) => return Err(err),
    };
    let mut out: Vec<Result<Entity, EdbError>> = Vec::new();
    let mut i: usize = 0;
    while i < entries.len()
        invariant
            i <= entries@.len(),
            out@.len() == i,
            forall|j: int| 0 <= j < i ==>
                #[trigger] out@[j] == entity_spec(b@, h.endian, h.version, entries@[j].address as int),
        decreases entries@.len() - i,
    {
        out.push(decode_entity(b, h.endian, h.version, entries[i].address as usize));
        i = i + 1;
    }
    Ok(out)
}

} // verus!
