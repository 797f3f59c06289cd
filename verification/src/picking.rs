//! Choosing what a ray from the cursor points at.
//!
//! Distances along the ray are in millionths of a world unit.

use vstd::prelude::*;
use crate::components::Position;
use crate::entity::EntityId;
use crate::ray::{ray_box_intersection, ray_box_spec, Ray};

verus! {

/// The largest distance that can be told. Nothing at or beyond it is
/// picked.
pub const FARTHEST: u64 = u64::MAX;

/// One object tested against the ray.
#[derive(Clone, Copy, Debug, PartialEq, Eq, Structural)]
pub struct Probe {
    pub entity: EntityId,
    /// Whether the object takes part in picking at all.
    pub selectable: bool,
    /// Distance of the point where the ray enters the object, if it does.
    pub hit: Option<u64>,
}

/// What was picked: its place among the probes, its identity, its distance.
#[derive(Clone, Copy, Debug, PartialEq, Eq, Structural)]
pub struct Picked {
    pub index: usize,
    pub entity: EntityId,
    pub distance: u64,
}

/// A probe competes when it is selectable and hit nearer than `limit`.
pub open spec fn competes(p: Probe, limit: u64) -> bool {
    p.selectable && p.hit is Some && p.hit->0 < limit
}

/// `k` is the winner among `probes`: it competes, nothing competing is
/// nearer, and nothing before it is as near.
pub open spec fn is_closest(probes: Seq<Probe>, limit: u64, k: int) -> bool {
    &&& 0 <= k < probes.len()
    &&& competes(probes[k], limit)
    &&& forall|j: int|
        0 <= j < probes.len() && competes(#[trigger] probes[j], limit) ==> probes[k].hit->0
            <= probes[j].hit->0
    &&& forall|j: int|
        0 <= j < k && competes(#[trigger] probes[j], limit) ==> probes[k].hit->0 < probes[j].hit->0
}

/// The pick that `closest` owes for `probes`.
pub open spec fn closest_spec(probes: Seq<Probe>, limit: u64) -> Option<Picked> {
    if exists|k: int| is_closest(probes, limit, k) {
        let k = choose|k: int| is_closest(probes, limit, k);
        Some(Picked { index: k as usize, entity: probes[k].entity, distance: probes[k].hit->0 })
    } else {
        None
    }
}

/// At most one probe is the winner.
pub proof fn lemma_closest_unique(probes: Seq<Probe>, limit: u64, a: int, b: int)
    requires
        is_closest(probes, limit, a),
        is_closest(probes, limit, b),
    ensures
        a == b,
{
    if a < b {
        assert(competes(probes[a], limit));
    } else if b < a {
        assert(competes(probes[b], limit));
    }
}

/// The nearest competing probe, the earliest one among equals.
pub fn closest(probes: &Vec<Probe>, limit: u64) -> (picked: Option<Picked>)
    ensures
        picked == closest_spec(probes@, limit),
        picked is None <==> forall|j: int|
            0 <= j < probes.len() ==> !competes(#[trigger] probes[j], limit),
        picked matches Some(p) ==> is_closest(probes@, limit, p.index as int) && p.entity
            == probes[p.index as int].entity && p.distance == probes[p.index as int].hit->0,
{
    let mut best: Option<Picked> = None;
    let mut bound: u64 = limit;
    let mut i: usize = 0;
    while i < probes.len()
        invariant
            i <= probes.len(),
            bound <= limit,
            best is None ==> bound == limit && forall|j: int|
                0 <= j < i ==> !competes(#[trigger] probes[j], limit),
            best matches Some(p) ==> {
                &&& p.index < i
                &&& p.distance == bound
                &&& p.entity == probes[p.index as int].entity
                &&& competes(probes[p.index as int], limit)
                &&& probes[p.index as int].hit->0 == bound
                &&& forall|j: int|
                    0 <= j < i && competes(#[trigger] probes[j], limit) ==> bound
                        <= probes[j].hit->0
                &&& forall|j: int|
                    0 <= j < p.index && competes(#[trigger] probes[j], limit) ==> bound
                        < probes[j].hit->0
            },
        decreases probes.len() - i,
    {
        let p = probes[i];
        if p.selectable {
            match p.hit {
                Some(d) => {
                    if d < bound {
                        bound = d;
                        best = Some(Picked { index: i, entity: p.entity, distance: d });
                    }
                },
                None => {},
            }
        }
        i += 1;
    }
    proof {
        match best {
            Some(p) => {
                assert(is_closest(probes@, limit, p.index as int));
                let k = choose|k: int| is_closest(probes@, limit, k);
                lemma_closest_unique(probes@, limit, k, p.index as int);
            },
            None => {
                assert forall|k: int| !is_closest(probes@, limit, k) by {
                    if 0 <= k < probes.len() {
                        assert(!competes(probes[k], limit));
                    }
                }
            },
        }
    }
    best
}

/// Something that a ray can be tested against: a box round `center`.
#[derive(Clone, Copy, Debug, PartialEq, Eq, Structural)]
pub struct Target {
    pub entity: EntityId,
    /// Whether the object takes part in picking at all.
    pub selectable: bool,
    pub center: Position,
}

/// The probe of one target: where the ray enters the cube that reaches
/// `half_size` from the target's centre along each axis.
pub open spec fn probe_of(ray: Ray, target: Target, half_size: i64) -> Probe {
    Probe {
        entity: target.entity,
        selectable: target.selectable,
        hit: ray_box_spec(
            ray,
            target.center,
            Position { x: half_size, y: half_size, z: half_size },
        ),
    }
}

/// The probes of the targets, in their order.
pub open spec fn cast_spec(ray: Ray, targets: Seq<Target>, half_size: i64) -> Seq<Probe> {
    Seq::new(targets.len(), |i: int| probe_of(ray, targets[i], half_size))
}

/// Tests the ray against every target.
pub fn cast(ray: &Ray, targets: &Vec<Target>, half_size: i64) -> (probes: Vec<Probe>)
    ensures
        probes@ == cast_spec(*ray, targets@, half_size),
{
    let mut probes: Vec<Probe> = Vec::new();
    let mut i: usize = 0;
    while i < targets.len()
        invariant
            i <= targets.len(),
            probes.len() == i,
            forall|j: int| 0 <= j < i ==> probes[j] == probe_of(*ray, targets[j], half_size),
        decreases targets.len() - i,
    {
        let target = targets[i];
        let hit = ray_box_intersection(
            ray,
            target.center,
            Position { x: half_size, y: half_size, z: half_size },
        );
        probes.push(Probe { entity: target.entity, selectable: target.selectable, hit: hit });
        i += 1;
    }
    assert(probes@ =~= cast_spec(*ray, targets@, half_size));
    probes
}

} // verus!
