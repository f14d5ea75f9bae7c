//! Assembly of a map: its record arrays, the geometry of its zones, and its
//! triggers with their types resolved.
use vstd::prelude::*;
use crate::array::{array_fits, resolve, resolve_spec};
use crate::cursor::{Endian, u32_of, in_bounds, read_u32};
use crate::entity::{Entity, EntityKind, decode_entity, entity_spec};
use crate::error::EdbError;
use crate::header::{ArrayPointer, Header};
use crate::records::{
    Light, Path, Placement, Record, TriggerRecord, TriggerType, Vec3Bits, Words4, ZoneDescriptor,
    read_records, records_spec,
};

verus! {

/// Bytes of a map's own header: six array pointers.
pub const MAP_HEADER_SIZE: usize = 48;
/// Subtype value that, like zero, means a trigger has no subtype.
pub const NO_SUBTYPE: u32 = 0x42000001;

/// The arrays that make up one map.
#[derive(Clone, Copy, Debug, PartialEq, Eq, Structural)]
pub struct MapHeader {
    pub paths: ArrayPointer,
    pub placements: ArrayPointer,
    pub lights: ArrayPointer,
    pub zones: ArrayPointer,
    pub trigger_types: ArrayPointer,
    pub triggers: ArrayPointer,
}

pub open spec fn pointer_spec(b: Seq<u8>, e: Endian, at: int) -> ArrayPointer {
    ArrayPointer { count: u32_of(b, at, e), address: u32_of(b, at + 4, e) }
}

pub open spec fn map_header_spec(b: Seq<u8>, e: Endian, at: int) -> MapHeader {
    MapHeader {
        paths: pointer_spec(b, e, at),
        placements: pointer_spec(b, e, at + 8),
        lights: pointer_spec(b, e, at + 16),
        zones: pointer_spec(b, e, at + 24),
        trigger_types: pointer_spec(b, e, at + 32),
        triggers: pointer_spec(b, e, at + 40),
    }
}

fn read_pointer(b: &[u8], e: Endian, at: usize) -> (r: ArrayPointer)
    requires
        in_bounds(b@.len() as int, at as int, 8),
        b@.len() <= usize::MAX,
    ensures
        r == pointer_spec(b@, e, at as int),
{
    ArrayPointer { count: read_u32(b, at, e).unwrap(), address: read_u32(b, at + 4, e).unwrap() }
}

/// Reads the header of the map at `at`.
pub fn read_map_header(b: &[u8], e: Endian, at: usize) -> (r: Result<MapHeader, EdbError>)
    ensures
        r == (if in_bounds(b@.len() as int, at as int, MAP_HEADER_SIZE as int) {
            Ok(map_header_spec(b@, e, at as int))
        } else {
            Err(EdbError::InvalidReference)
        }),
{
    if at > b.len() || b.len() - at < MAP_HEADER_SIZE {
        return Err(EdbError::InvalidReference);
    }
    Ok(MapHeader {
        paths: read_pointer(b, e, at),
        placements: read_pointer(b, e, at + 8),
        lights: read_pointer(b, e, at + 16),
        zones: read_pointer(b, e, at + 24),
        trigger_types: read_pointer(b, e, at + 32),
        triggers: read_pointer(b, e, at + 40),
    })
}

/// The subtype a stored value stands for: none for zero and for `NO_SUBTYPE`.
pub open spec fn subtype_spec(raw: u32) -> Option<u32> {
    if raw == 0 || raw == NO_SUBTYPE { None } else { Some(raw) }
}

pub fn subtype_of(raw: u32) -> (r: Option<u32>)
    ensures
        r == subtype_spec(raw),
        r is None <==> (raw == 0 || raw == NO_SUBTYPE),
{
    if raw != 0 && raw != NO_SUBTYPE { Some(raw) } else { None }
}

/// A trigger with its type and subtype taken from the map's type table.
#[derive(Clone, Copy, Debug, PartialEq, Eq, Structural)]
pub struct Trigger {
    pub ttype: u32,
    pub tsubtype: Option<u32>,
    pub link_ref: u32,
    pub game_flags: u32,
    pub trig_flags: u32,
    pub position: Vec3Bits,
    pub rotation: Vec3Bits,
    pub scale: Vec3Bits,
    pub data: Words4,
    pub links: Words4,
}

/// The trigger a record stands for, given the type table; an index past the table
/// is an `InvalidReference`.
pub open spec fn trigger_spec(types: Seq<TriggerType>, t: TriggerRecord) -> Result<Trigger, EdbError> {
    if t.type_index >= types.len() {
        Err(EdbError::InvalidReference)
    } else {
        let ty = types[t.type_index as int];
        Ok(Trigger {
            ttype: ty.trig_type,
            tsubtype: subtype_spec(ty.trig_subtype),
            link_ref: t.link_ref,
            game_flags: t.game_flags,
            trig_flags: t.trig_flags,
            position: t.position,
            rotation: t.rotation,
            scale: t.scale,
            data: t.data,
            links: t.links,
        })
    }
}

/// Resolves a trigger's type and subtype through the type table.
pub fn resolve_trigger(types: &Vec<TriggerType>, t: &TriggerRecord) -> (r: Result<Trigger, EdbError>)
    ensures
        r == trigger_spec(types@, *t),
{
    if t.type_index as usize >= types.len() {
        return Err(EdbError::InvalidReference);
    }
    let ty = types[t.type_index as usize];
    Ok(Trigger {
        ttype: ty.trig_type,
        tsubtype: subtype_of(ty.trig_subtype),
        link_ref: t.link_ref,
        game_flags: t.game_flags,
        trig_flags: t.trig_flags,
        position: t.position,
        rotation: t.rotation,
        scale: t.scale,
        data: t.data,
        links: t.links,
    })
}

/// The map-zone entity behind reference slot `index`.
pub open spec fn zone_spec(b: Seq<u8>, h: Header, index: u32) -> Result<Entity, EdbError> {
    match resolve_spec(b, h, index as int) {
        Err(err) => Err(err),
        Ok(addr) => match entity_spec(b, h.endian, h.version, addr as int) {
            Err(err) => Err(err),
            Ok(ent) => if ent.kind is MapZone { Ok(ent) } else { Err(EdbError::InvalidZoneReference) },
        },
    }
}

/// Decodes the geometry of a zone: resolves its reference slot, decodes the
/// entity there, and requires it to be a map zone.
pub fn resolve_zone(b: &[u8], h: &Header, zone: &ZoneDescriptor) -> (r: Result<Entity, EdbError>)
    ensures
        r == zone_spec(b@, *h, zone.entity_refptr),
{
    let addr = match resolve(b, h, zone.entity_refptr) {
        Ok(a) => a,
        Err(err) => return Err(err),
    };
    let ent = match decode_entity(b, h.endian, h.version, addr as usize) {
        Ok(ent) => ent,
        Err(err) => return Err(err),
    };
    match ent.kind {
        EntityKind::MapZone(_) => Ok(ent),
        _ => Err(EdbError::InvalidZoneReference),
    }
}

/// A map with its zones decoded and its triggers resolved.
#[derive(Debug)]
pub struct GeoMap {
    pub paths: Vec<Path>,
    pub placements: Vec<Placement>,
    pub lights: Vec<Light>,
    /// The map-zone entity of each zone, in zone order.
    pub zones: Vec<Entity>,
    pub trigger_types: Vec<TriggerType>,
    /// One result per trigger record: a record that fails does not stop the others.
    pub triggers: Vec<Result<Trigger, EdbError>>,
}

/// Whether every array of the map lies in the buffer.
pub open spec fn arrays_fit(n: int, version: u32, m: MapHeader) -> bool {
    &&& array_fits(n, m.paths, Path::size(version))
    &&& array_fits(n, m.placements, Placement::size(version))
    &&& array_fits(n, m.lights, Light::size(version))
    &&& array_fits(n, m.zones, ZoneDescriptor::size(version))
    &&& array_fits(n, m.trigger_types, TriggerType::size(version))
    &&& array_fits(n, m.triggers, TriggerRecord::size(version))
}

/// Whether every zone of the map leads to a map-zone entity.
pub open spec fn zones_resolve(b: Seq<u8>, h: Header, m: MapHeader) -> bool {
    forall|i: int| 0 <= i < m.zones.count ==>
        #[trigger] zone_spec(b, h, records_spec::<ZoneDescriptor>(b, h.endian, h.version, m.zones)[i].entity_refptr) is Ok
}

/// Whether `err` is the error of the first zone of the map that does not lead to
/// a map-zone entity.
pub open spec fn first_zone_error(b: Seq<u8>, h: Header, m: MapHeader, err: EdbError) -> bool {
    let zones = records_spec::<ZoneDescriptor>(b, h.endian, h.version, m.zones);
    exists|k: int| 0 <= k < zones.len()
        && (forall|j: int| 0 <= j < k ==> #[trigger] zone_spec(b, h, zones[j].entity_refptr) is Ok)
        && #[trigger] zone_spec(b, h, zones[k].entity_refptr) == Err::<Entity, EdbError>(err)
}

proof fn lemma_first_zone_error(b: Seq<u8>, h: Header, m: MapHeader, found: Seq<Entity>, k: int, err: EdbError)
    requires
        0 <= k < m.zones.count,
        found.len() == k,
        forall|j: int| 0 <= j < k ==> Ok::<Entity, EdbError>(#[trigger] found[j]) == zone_spec(b, h,
            records_spec::<ZoneDescriptor>(b, h.endian, h.version, m.zones)[j].entity_refptr),
        zone_spec(b, h, records_spec::<ZoneDescriptor>(b, h.endian, h.version, m.zones)[k].entity_refptr)
            == Err::<Entity, EdbError>(err),
    ensures
        first_zone_error(b, h, m, err),
{
    let zones = records_spec::<ZoneDescriptor>(b, h.endian, h.version, m.zones);
    assert forall|j: int| 0 <= j < k implies #[trigger] zone_spec(b, h, zones[j].entity_refptr) is Ok by {
        assert(Ok::<Entity, EdbError>(found[j]) == zone_spec(b, h, zones[j].entity_refptr));
    }
}

/// Assembles the map whose header lies at `at`. Fails with `InvalidReference`
/// when the header or one of its arrays leaves the buffer, and with the zone's own
/// error when a zone does not lead to a map-zone entity.
pub fn assemble_map(b: &[u8], h: &Header, at: usize) -> (r: Result<GeoMap, EdbError>)
    ensures
        r is Ok <==> in_bounds(b@.len() as int, at as int, MAP_HEADER_SIZE as int)
            && arrays_fit(b@.len() as int, h.version, map_header_spec(b@, h.endian, at as int))
            && zones_resolve(b@, *h, map_header_spec(b@, h.endian, at as int)),
        !(in_bounds(b@.len() as int, at as int, MAP_HEADER_SIZE as int)
            && arrays_fit(b@.len() as int, h.version, map_header_spec(b@, h.endian, at as int)))
            ==> r == Err::<GeoMap, EdbError>(EdbError::InvalidReference),
        in_bounds(b@.len() as int, at as int, MAP_HEADER_SIZE as int)
            && arrays_fit(b@.len() as int, h.version, map_header_spec(b@, h.endian, at as int))
            && r is Err ==> first_zone_error(b@, *h, map_header_spec(b@, h.endian, at as int), r->Err_0),
        r matches Ok(map) ==> {
            let mh = map_header_spec(b@, h.endian, at as int);
            let (e, v) = (h.endian, h.version);
            let zones = records_spec::<ZoneDescriptor>(b@, e, v, mh.zones);
            let records = records_spec::<TriggerRecord>(b@, e, v, mh.triggers);
            &&& map.paths@ == records_spec::<Path>(b@, e, v, mh.paths)
            &&& map.placements@ == records_spec::<Placement>(b@, e, v, mh.placements)
            &&& map.lights@ == records_spec::<Light>(b@, e, v, mh.lights)
            &&& map.trigger_types@ == records_spec::<TriggerType>(b@, e, v, mh.trigger_types)
            &&& map.zones@.len() == zones.len()
            &&& forall|i: int| 0 <= i < zones.len() ==>
                Ok::<Entity, EdbError>(#[trigger] map.zones@[i]) == zone_spec(b@, *h, zones[i].entity_refptr)
            &&& map.triggers@.len() == records.len()
            &&& forall|i: int| 0 <= i < records.len() ==>
                #[trigger] map.triggers@[i] == trigger_spec(map.trigger_types@, records[i])
        },
{
    let e = h.endian;
    let v = h.version;
    let mh = match read_map_header(b, e, at) {
        Ok(m) => m,
        Err(err) => return Err(err),
    };
    let paths = match read_records::<Path>(b, e, v, mh.paths) {
        Ok(x) => x,
        Err(err) => return Err(err),
    };
    let placements = match read_records::<Placement>(b, e, v, mh.placements) {
        Ok(x) => x,
        Err(err) => return Err(err),
    };
    let lights = match read_records::<Light>(b, e, v, mh.lights) {
        Ok(x) => x,
        Err(err) => return Err(err),
    };
    let zone_list = match read_records::<ZoneDescriptor>(b, e, v, mh.zones) {
        Ok(x) => x,
        Err(err) => return Err(err),
    };
    let trigger_types = match read_records::<TriggerType>(b, e, v, mh.trigger_types) {
        Ok(x) => x,
        Err(err) => return Err(err),
    };
    let records = match read_records::<TriggerRecord>(b, e, v, mh.triggers) {
        Ok(x) => x,
        Err(err) => return Err(err),
    };
    assert(arrays_fit(b@.len() as int, h.version, mh));
    let mut zones: Vec<Entity> = Vec::new();
    let mut i: usize = 0;
    while i < zone_list.len()
        invariant
            zone_list@ == records_spec::<ZoneDescriptor>(b@, e, v, mh.zones),
            mh == map_header_spec(b@, h.endian, at as int),
            in_bounds(b@.len() as int, at as int, MAP_HEADER_SIZE as int),
            arrays_fit(b@.len() as int, h.version, mh),
            e == h.endian,
            v == h.version,
            i <= zone_list@.len(),
            zones@.len() == i,
            forall|j: int| 0 <= j < i ==>
                Ok::<Entity, EdbError>(#[trigger] zones@[j]) == zone_spec(b@, *h, zone_list@[j].entity_refptr),
        decreases zone_list@.len() - i,
    {
        match resolve_zone(b, h, &zone_list[i]) {
            Ok(ent) => zones.push(ent),
            Err(err) => {
                assert(zone_spec(b@, *h, records_spec::<ZoneDescriptor>(b@, h.endian, h.version, mh.zones)[i as int].entity_refptr) is Err);
                proof {
                    lemma_first_zone_error(b@, *h, mh, zones@, i as int, err);
                }
                return Err(err);
            },
        }
        i = i + 1;
    }
    assert(zones_resolve(b@, *h, mh)) by {
        assert forall|j: int| 0 <= j < mh.zones.count implies
            #[trigger] zone_spec(b@, *h, records_spec::<ZoneDescriptor>(b@, h.endian, h.version, mh.zones)[j].entity_refptr) is Ok by {
            assert(Ok::<Entity, EdbError>(zones@[j]) == zone_spec(b@, *h, zone_list@[j].entity_refptr));
        }
    }
    let mut triggers: Vec<Result<Trigger, EdbError>> = Vec::new();
    let mut k: usize = 0;
    while k < records.len()
        invariant
            k <= records@.len(),
            triggers@.len() == k,
            forall|j: int| 0 <= j < k ==> #[trigger] triggers@[j] == trigger_spec(trigger_types@, records@[j]),
        decreases records@.len() - k,
    {
        triggers.push(resolve_trigger(&trigger_types, &records[k]));
        k = k + 1;
    }
    Ok(GeoMap { paths, placements, lights, zones, trigger_types, triggers })
}

/// A zone's geometry is exactly the entity decoded at the address its reference
/// slot holds; when that entity is not a map zone the zone fails with
/// `InvalidZoneReference`.
pub proof fn lemma_zone_is_direct_decode(b: Seq<u8>, h: Header, index: u32)
    ensures
        zone_spec(b, h, index) matches Ok(ent) ==> (resolve_spec(b, h, index as int) matches Ok(addr)
            && entity_spec(b, h.endian, h.version, addr as int) == Ok::<Entity, EdbError>(ent)
            && ent.kind is MapZone),
        resolve_spec(b, h, index as int) matches Ok(addr) ==> (
            entity_spec(b, h.endian, h.version, addr as int) matches Ok(ent) ==> (
                ent.kind is MapZone ==> zone_spec(b, h, index) == Ok::<Entity, EdbError>(ent))
                && (!(ent.kind is MapZone) ==> zone_spec(b, h, index) == Err::<Entity, EdbError>(EdbError::InvalidZoneReference))),
{
}

/// A subtype of zero or `NO_SUBTYPE` is always absent, and any other value is
/// kept; a trigger's type and subtype come from its type table entry alone.
pub proof fn lemma_subtype_rule(types: Seq<TriggerType>, t: TriggerRecord)
    requires
        t.type_index < types.len(),
    ensures
        trigger_spec(types, t) matches Ok(tr) && tr.ttype == types[t.type_index as int].trig_type
            && (tr.tsubtype is None <==> (types[t.type_index as int].trig_subtype == 0
                || types[t.type_index as int].trig_subtype == NO_SUBTYPE))
            && (tr.tsubtype is Some ==> tr.tsubtype == Some(types[t.type_index as int].trig_subtype)),
{
}

} // verus!
