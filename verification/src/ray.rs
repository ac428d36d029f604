//! Single-ray query records: their initialization and the interpretation of
//! the kernel's sentinel-based "no hit" answer.

use vstd::prelude::*;

verus! {

/// The kernel's reserved geometry identifier meaning "no geometry": a query
/// record whose hit still carries it after an intersect call found nothing.
pub const INVALID_GEOMETRY_ID: u32 = 0xFFFF_FFFF;

/// Bit pattern of the single-precision value zero.
pub const F32_ZERO_BITS: u32 = 0;

/// Bit pattern of the largest finite single-precision value, used as the far
/// distance of an unbounded ray.
pub const F32_MAX_BITS: u32 = 0x7F7F_FFFF;

/// The ray half of a query record. Single-precision fields are carried as
/// IEEE-754 bit patterns; this layer never computes with them.
#[derive(Clone, Copy, PartialEq, Eq, Structural, Debug)]
pub struct Ray {
    pub org_x: u32,
    pub org_y: u32,
    pub org_z: u32,
    pub dir_x: u32,
    pub dir_y: u32,
    pub dir_z: u32,
    pub time: u32,
    pub tnear: u32,
    pub tfar: u32,
    pub mask: u32,
    pub id: u32,
    pub flags: u32,
}

/// The hit half of a query record, filled in by the kernel when a ray meets a
/// geometry: geometric normal, barycentric coordinates, and the identifiers of
/// what was hit.
#[derive(Clone, Copy, PartialEq, Eq, Structural, Debug)]
pub struct Hit {
    pub ng_x: u32,
    pub ng_y: u32,
    pub ng_z: u32,
    pub u: u32,
    pub v: u32,
    pub prim_id: u32,
    pub geom_id: u32,
    pub inst_id: u32,
    pub inst_prim_id: u32,
}

/// A combined single-ray query record, passed to the kernel's intersect entry
/// point and read back afterward.
#[derive(Clone, Copy, PartialEq, Eq, Structural, Debug)]
pub struct RayHit {
    pub ray: Ray,
    pub hit: Hit,
}

/// The exact record a query starts from: the given origin and direction, time
/// zero, the full `[0, largest finite]` distance range, an all-bits-set mask,
/// zero id and flags, and every hit field at its "no hit" starting value.
pub open spec fn initial_ray_hit(ray: (u32, u32, u32, u32, u32, u32)) -> RayHit {
    RayHit {
        ray: Ray {
            org_x: ray.0,
            org_y: ray.1,
            org_z: ray.2,
            dir_x: ray.3,
            dir_y: ray.4,
            dir_z: ray.5,
            time: F32_ZERO_BITS,
            tnear: F32_ZERO_BITS,
            tfar: F32_MAX_BITS,
            mask: 0xFFFF_FFFF,
            id: 0,
            flags: 0,
        },
        hit: Hit {
            ng_x: F32_ZERO_BITS,
            ng_y: F32_ZERO_BITS,
            ng_z: F32_ZERO_BITS,
            u: F32_ZERO_BITS,
            v: F32_ZERO_BITS,
            prim_id: 0,
            geom_id: INVALID_GEOMETRY_ID,
            inst_id: INVALID_GEOMETRY_ID,
            inst_prim_id: INVALID_GEOMETRY_ID,
        },
    }
}

/// Whether a record that came back from the kernel reports an intersection:
/// the kernel signals "nothing found" by leaving the geometry identifier at
/// its sentinel.
pub open spec fn hit_found(rayhit: RayHit) -> bool {
    rayhit.hit.geom_id != INVALID_GEOMETRY_ID
}

/// Builds the query record for a ray given as origin and direction bit
/// patterns `(org_x, org_y, org_z, dir_x, dir_y, dir_z)`.
pub fn new_ray_hit(ray: (u32, u32, u32, u32, u32, u32)) -> (r: RayHit)
    ensures
        r == initial_ray_hit(ray),
{
    RayHit {
        ray: Ray {
            org_x: ray.0,
            org_y: ray.1,
            org_z: ray.2,
            dir_x: ray.3,
            dir_y: ray.4,
            dir_z: ray.5,
            time: F32_ZERO_BITS,
            tnear: F32_ZERO_BITS,
            tfar: F32_MAX_BITS,
            mask: 0xFFFF_FFFF,
            id: 0,
            flags: 0,
        },
        hit: Hit {
            ng_x: F32_ZERO_BITS,
            ng_y: F32_ZERO_BITS,
            ng_z: F32_ZERO_BITS,
            u: F32_ZERO_BITS,
            v: F32_ZERO_BITS,
            prim_id: 0,
            geom_id: INVALID_GEOMETRY_ID,
            inst_id: INVALID_GEOMETRY_ID,
            inst_prim_id: INVALID_GEOMETRY_ID,
        },
    }
}

/// Turns a record that came back from the kernel into an explicit optional
/// result: the populated record when a geometry was hit, and `None` — rather
/// than a record the caller must probe for sentinels — when nothing was.
pub fn resolve_hit(rayhit: RayHit) -> (r: Option<RayHit>)
    ensures
        hit_found(rayhit) ==> r == Some(rayhit),
        !hit_found(rayhit) ==> r == None::<RayHit>,
{
    if rayhit.hit.geom_id != INVALID_GEOMETRY_ID {
        Some(rayhit)
    } else {
        None
    }
}

/// A record the kernel has not written a hit into still carries the sentinel,
/// so resolving it reports that no intersection was found. This is the whole
/// of a query against a scene with no geometry to hit, as far as this layer
/// computes it.
pub proof fn lemma_initial_record_reports_miss(ray: (u32, u32, u32, u32, u32, u32))
    ensures
        !hit_found(initial_ray_hit(ray)),
{
}

} // verus!
