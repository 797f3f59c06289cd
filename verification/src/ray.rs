//! Rays against boxes and planes, in whole numbers.
//!
//! Places are in millionths of a world unit. The direction of a ray is in
//! millionths too: a ray that points along x has direction (1000000, 0, 0).
//! A point of the ray is its origin plus a multiple of its direction; the
//! multiple is the distance where the direction has length one.

use vstd::prelude::*;
use crate::components::{clamp_i64, clamp_to_i64, Position};

verus! {

/// The direction of a ray, in millionths.
#[derive(Clone, Copy, Debug, PartialEq, Eq, Structural)]
pub struct Direction {
    pub x: i32,
    pub y: i32,
    pub z: i32,
}

/// A ray: the points `origin + t * direction` for `t` from 0 on.
#[derive(Clone, Copy, Debug, PartialEq, Eq, Structural)]
pub struct Ray {
    pub origin: Position,
    pub direction: Direction,
}

/// A fraction; its denominator is positive wherever it is used.
pub struct Ratio {
    pub num: int,
    pub den: int,
}

/// `a` is no more than `b`.
pub open spec fn ratio_le(a: Ratio, b: Ratio) -> bool {
    a.num * b.den <= b.num * a.den
}

/// The stretch of one axis that a box takes up, seen from the origin of the
/// ray, and the ray's direction along that axis.
pub struct Slab {
    /// From the origin to the lower side of the box.
    pub lo: int,
    /// From the origin to the upper side of the box.
    pub hi: int,
    /// The direction of the ray along the axis.
    pub d: int,
}

/// The slab of a box along one axis.
pub open spec fn slab(origin: i64, direction: i32, center: i64, half: i64) -> Slab {
    Slab { lo: center - half - origin, hi: center + half - origin, d: direction as int }
}

impl Slab {
    /// Where a ray that moves along the axis gets into the slab.
    pub open spec fn near(self) -> Ratio {
        if self.d > 0 {
            Ratio { num: self.lo, den: self.d }
        } else {
            Ratio { num: -self.hi, den: -self.d }
        }
    }

    /// Where a ray that moves along the axis gets out of the slab.
    pub open spec fn far(self) -> Ratio {
        if self.d > 0 {
            Ratio { num: self.hi, den: self.d }
        } else {
            Ratio { num: -self.lo, den: -self.d }
        }
    }

    /// A ray that does not move along the axis stays in the slab when it
    /// starts in it.
    pub open spec fn holds_still_ray(self) -> bool {
        self.d != 0 || self.lo <= 0 <= self.hi
    }
}

/// The later of an entry so far, if any, and the entry into one more slab.
pub open spec fn later_entry(so_far: Option<Ratio>, s: Slab) -> Option<Ratio> {
    if s.d == 0 {
        so_far
    } else {
        match so_far {
            Some(t) => if ratio_le(t, s.near()) {
                Some(s.near())
            } else {
                so_far
            },
            None => Some(s.near()),
        }
    }
}

/// The earlier of an exit so far, if any, and the exit from one more slab.
pub open spec fn earlier_exit(so_far: Option<Ratio>, s: Slab) -> Option<Ratio> {
    if s.d == 0 {
        so_far
    } else {
        match so_far {
            Some(t) => if ratio_le(s.far(), t) {
                Some(s.far())
            } else {
                so_far
            },
            None => Some(s.far()),
        }
    }
}

/// Where the ray is inside all three slabs for the first time: the latest of
/// its entries. `None` where it moves along no axis.
pub open spec fn entry(x: Slab, y: Slab, z: Slab) -> Option<Ratio> {
    later_entry(later_entry(later_entry(None, x), y), z)
}

/// Where the ray is inside all three slabs for the last time: the earliest
/// of its exits. `None` where it moves along no axis.
pub open spec fn exit(x: Slab, y: Slab, z: Slab) -> Option<Ratio> {
    earlier_exit(earlier_exit(earlier_exit(None, x), y), z)
}

/// Whether the ray meets the box: it gets into all the slabs before it gets
/// out of any, and does not leave the box behind its origin.
pub open spec fn meets(x: Slab, y: Slab, z: Slab) -> bool {
    &&& x.holds_still_ray()
    &&& y.holds_still_ray()
    &&& z.holds_still_ray()
    &&& match (entry(x, y, z), exit(x, y, z)) {
        (Some(t_enter), Some(t_exit)) => ratio_le(t_enter, t_exit),
        _ => true,
    }
    &&& match exit(x, y, z) {
        Some(t_exit) => t_exit.num >= 0,
        None => true,
    }
}

/// A multiple of the direction in millionths, rounded down, and no more
/// than `u64::MAX`; 0 for a multiple that is negative or absent.
pub open spec fn reach(t: Option<Ratio>) -> u64 {
    match t {
        Some(r) => if r.num <= 0 {
            0
        } else if r.num * 1_000_000 / r.den > u64::MAX {
            u64::MAX
        } else {
            (r.num * 1_000_000 / r.den) as u64
        },
        None => 0,
    }
}

/// What `ray_box_intersection` owes.
pub open spec fn ray_box_spec(ray: Ray, box_center: Position, half_extents: Position) -> Option<
    u64,
> {
    let (x, y, z) = slabs(ray, box_center, half_extents);
    if meets(x, y, z) {
        Some(reach(entry(x, y, z)))
    } else {
        None
    }
}

/// The point of the ray at the multiple `t` of its direction lies within
/// the slab.
pub open spec fn in_slab(s: Slab, t: Ratio) -> bool {
    s.lo * t.den <= s.d * t.num <= s.hi * t.den
}

/// The point of the ray at the multiple `t` of its direction lies in the
/// box.
pub open spec fn in_box(x: Slab, y: Slab, z: Slab, t: Ratio) -> bool {
    in_slab(x, t) && in_slab(y, t) && in_slab(z, t)
}

/// The multiple at which a ray that meets the box is in it for the first
/// time: its entry, or 0 where it starts inside.
pub open spec fn first_inside(x: Slab, y: Slab, z: Slab) -> Ratio {
    match entry(x, y, z) {
        Some(t) => if t.num > 0 {
            t
        } else {
            Ratio { num: 0, den: 1 }
        },
        None => Ratio { num: 0, den: 1 },
    }
}

proof fn lemma_ratio_le_transitive(a: Ratio, b: Ratio, c: Ratio)
    requires
        a.den > 0,
        b.den > 0,
        c.den > 0,
        ratio_le(a, b),
        ratio_le(b, c),
    ensures
        ratio_le(a, c),
{
    assert(a.num * c.den <= c.num * a.den) by (nonlinear_arith)
        requires
            a.den > 0,
            b.den > 0,
            c.den > 0,
            a.num * b.den <= b.num * a.den,
            b.num * c.den <= c.num * b.den,
    {
        assert((a.num * b.den) * c.den <= (b.num * a.den) * c.den);
        assert((b.num * c.den) * a.den <= (c.num * b.den) * a.den);
        assert((a.num * c.den) * b.den <= (c.num * a.den) * b.den);
    }
}

/// Along an axis on which the ray moves, the point at `t` lies within the
/// slab just when `t` lies between the entry into the slab and the exit from
/// it.
proof fn lemma_in_slab_between(s: Slab, t: Ratio)
    requires
        s.d != 0,
        t.den > 0,
    ensures
        in_slab(s, t) <==> ratio_le(s.near(), t) && ratio_le(t, s.far()),
        s.near().den > 0,
        s.far().den > 0,
{
    let (lo, hi, d, p, q) = (s.lo, s.hi, s.d, t.num, t.den);
    if d > 0 {
        assert(lo * q <= d * p <==> lo * q <= p * d) by (nonlinear_arith);
        assert(d * p <= hi * q <==> p * d <= hi * q) by (nonlinear_arith);
    } else {
        assert(lo * q <= d * p <==> p * (-d) <= (-lo) * q) by (nonlinear_arith);
        assert(d * p <= hi * q <==> (-hi) * q <= p * (-d)) by (nonlinear_arith);
    }
}

/// A bound below the entry so far stays a bound below the entry when one
/// more slab is taken in.
proof fn lemma_later_entry_keeps(so_far: Option<Ratio>, s: Slab, a: Ratio)
    requires
        a.den > 0,
        so_far is Some,
        so_far->0.den > 0,
        ratio_le(a, so_far->0),
    ensures
        later_entry(so_far, s) is Some,
        later_entry(so_far, s)->0.den > 0,
        ratio_le(a, later_entry(so_far, s)->0),
{
    if s.d != 0 && ratio_le(so_far->0, s.near()) {
        lemma_ratio_le_transitive(a, so_far->0, s.near());
    }
}

/// A bound above the exit so far stays a bound above the exit when one more
/// slab is taken in.
proof fn lemma_earlier_exit_keeps(so_far: Option<Ratio>, s: Slab, a: Ratio)
    requires
        a.den > 0,
        so_far is Some,
        so_far->0.den > 0,
        ratio_le(so_far->0, a),
    ensures
        earlier_exit(so_far, s) is Some,
        earlier_exit(so_far, s)->0.den > 0,
        ratio_le(earlier_exit(so_far, s)->0, a),
{
    if s.d != 0 && ratio_le(s.far(), so_far->0) {
        lemma_ratio_le_transitive(s.far(), so_far->0, a);
    }
}

/// The entry into the box is the entry into one of the slabs, and no entry
/// into a slab is later.
proof fn lemma_entry_is_latest(x: Slab, y: Slab, z: Slab)
    ensures
        entry(x, y, z) is None <==> x.d == 0 && y.d == 0 && z.d == 0,
        entry(x, y, z) matches Some(t) ==> {
            &&& t.den > 0
            &&& (x.d != 0 && t == x.near()) || (y.d != 0 && t == y.near()) || (z.d != 0 && t
                == z.near())
            &&& x.d != 0 ==> ratio_le(x.near(), t)
            &&& y.d != 0 ==> ratio_le(y.near(), t)
            &&& z.d != 0 ==> ratio_le(z.near(), t)
        },
{
    let e1 = later_entry(None, x);
    let e2 = later_entry(e1, y);
    let e3 = later_entry(e2, z);
    assert(e3 == entry(x, y, z));
    if x.d != 0 {
        assert(e1 == Some(x.near()));
        lemma_later_entry_keeps(e1, y, x.near());
        lemma_later_entry_keeps(e2, z, x.near());
    }
    if y.d != 0 {
        assert(e2 is Some && e2->0.den > 0 && ratio_le(y.near(), e2->0));
        lemma_later_entry_keeps(e2, z, y.near());
    }
}

/// The exit from the box is the exit from one of the slabs, and no exit
/// from a slab is earlier.
proof fn lemma_exit_is_earliest(x: Slab, y: Slab, z: Slab)
    ensures
        exit(x, y, z) is None <==> x.d == 0 && y.d == 0 && z.d == 0,
        exit(x, y, z) matches Some(t) ==> {
            &&& t.den > 0
            &&& (x.d != 0 && t == x.far()) || (y.d != 0 && t == y.far()) || (z.d != 0 && t
                == z.far())
            &&& x.d != 0 ==> ratio_le(t, x.far())
            &&& y.d != 0 ==> ratio_le(t, y.far())
            &&& z.d != 0 ==> ratio_le(t, z.far())
        },
{
    let e1 = earlier_exit(None, x);
    let e2 = earlier_exit(e1, y);
    let e3 = earlier_exit(e2, z);
    assert(e3 == exit(x, y, z));
    if x.d != 0 {
        assert(e1 == Some(x.far()));
        lemma_earlier_exit_keeps(e1, y, x.far());
        lemma_earlier_exit_keeps(e2, z, x.far());
    }
    if y.d != 0 {
        assert(e2 is Some && e2->0.den > 0 && ratio_le(e2->0, y.far()));
        lemma_earlier_exit_keeps(e2, z, y.far());
    }
}

/// With the first multiple inside between the entry and the exit of the
/// box, the point there lies within a slab.
proof fn lemma_first_inside_in_slab(x: Slab, y: Slab, z: Slab, s: Slab)
    requires
        meets(x, y, z),
        s == x || s == y || s == z,
    ensures
        in_slab(s, first_inside(x, y, z)),
{
    lemma_entry_is_latest(x, y, z);
    lemma_exit_is_earliest(x, y, z);
    let t = first_inside(x, y, z);
    if s.d == 0 {
        assert(s.lo <= 0 <= s.hi);
        assert(s.lo * t.den <= 0 <= s.hi * t.den) by (nonlinear_arith)
            requires
                s.lo <= 0 <= s.hi,
                t.den > 0,
        ;
        assert(s.d * t.num == 0) by (nonlinear_arith)
            requires
                s.d == 0,
        ;
    } else {
        let e = entry(x, y, z)->0;
        let f = exit(x, y, z)->0;
        lemma_in_slab_between(s, t);
        // The entry is no later than the first multiple inside.
        assert(ratio_le(e, t)) by {
            if e.num > 0 {
            } else {
                assert(e.num * 1 <= 0 * e.den) by (nonlinear_arith)
                    requires
                        e.num <= 0,
                        e.den > 0,
                ;
            }
        }
        lemma_ratio_le_transitive(s.near(), e, t);
        // The first multiple inside is no later than the exit.
        assert(ratio_le(t, f)) by {
            if e.num > 0 {
            } else {
                assert(0 * f.den <= f.num * 1) by (nonlinear_arith)
                    requires
                        f.num >= 0,
                        f.den > 0,
                ;
            }
        }
        lemma_ratio_le_transitive(t, f, s.far());
    }
}

/// A ray that meets the box, as `ray_box_intersection` tells it, has a point
/// ahead of its origin in the box: the point at the first multiple inside.
proof fn lemma_meets_gives_point_in_box(x: Slab, y: Slab, z: Slab)
    requires
        meets(x, y, z),
    ensures
        first_inside(x, y, z).den > 0,
        first_inside(x, y, z).num >= 0,
        in_box(x, y, z, first_inside(x, y, z)),
{
    lemma_entry_is_latest(x, y, z);
    lemma_first_inside_in_slab(x, y, z, x);
    lemma_first_inside_in_slab(x, y, z, y);
    lemma_first_inside_in_slab(x, y, z, z);
}

/// A ray with a point ahead of its origin in the box meets the box, as
/// `ray_box_intersection` tells it, and no such point comes before the first
/// multiple inside.
proof fn lemma_point_in_box_gives_meets(x: Slab, y: Slab, z: Slab, t: Ratio)
    requires
        t.den > 0,
        t.num >= 0,
        in_box(x, y, z, t),
    ensures
        meets(x, y, z),
        ratio_le(first_inside(x, y, z), t),
{
    lemma_entry_is_latest(x, y, z);
    lemma_exit_is_earliest(x, y, z);
    assert forall|s: Slab| (s == x || s == y || s == z) && s.d == 0 implies s.lo <= 0 <= s.hi by {
        assert(s.d * t.num == 0) by (nonlinear_arith)
            requires
                s.d == 0,
        ;
        assert(s.lo <= 0 <= s.hi) by (nonlinear_arith)
            requires
                s.lo * t.den <= 0 <= s.hi * t.den,
                t.den > 0,
        ;
    }
    if x.d != 0 {
        lemma_in_slab_between(x, t);
    }
    if y.d != 0 {
        lemma_in_slab_between(y, t);
    }
    if z.d != 0 {
        lemma_in_slab_between(z, t);
    }
    if entry(x, y, z) is Some {
        let e = entry(x, y, z)->0;
        let f = exit(x, y, z)->0;
        assert(ratio_le(e, t));
        assert(ratio_le(t, f));
        lemma_ratio_le_transitive(e, t, f);
        assert(f.num >= 0) by (nonlinear_arith)
            requires
                t.num * f.den <= f.num * t.den,
                t.num >= 0,
                f.den > 0,
                t.den > 0,
        ;
        if e.num > 0 {
        } else {
            assert(0 * t.den <= t.num * 1) by (nonlinear_arith)
                requires
                    t.num >= 0,
            ;
        }
    } else {
        assert(0 * t.den <= t.num * 1) by (nonlinear_arith)
            requires
                t.num >= 0,
        ;
    }
}

/// The three slabs of a box, seen from a ray.
pub open spec fn slabs(ray: Ray, box_center: Position, half_extents: Position) -> (Slab, Slab, Slab) {
    (
        slab(ray.origin.x, ray.direction.x, box_center.x, half_extents.x),
        slab(ray.origin.y, ray.direction.y, box_center.y, half_extents.y),
        slab(ray.origin.z, ray.direction.z, box_center.z, half_extents.z),
    )
}

/// `ray_box_intersection` tells a hit just when some point of the ray, at
/// its origin or ahead of it, lies in the box. The distance it then gives
/// is that of the first such point, in millionths and rounded down.
pub proof fn lemma_hit_is_first_point_in_box(ray: Ray, box_center: Position, half_extents: Position)
    ensures
        ({
            let (x, y, z) = slabs(ray, box_center, half_extents);
            let hit = ray_box_spec(ray, box_center, half_extents);
            &&& hit is Some <==> exists|t: Ratio|
                t.den > 0 && t.num >= 0 && #[trigger] in_box(x, y, z, t)
            &&& hit is Some ==> {
                &&& first_inside(x, y, z).den > 0
                &&& first_inside(x, y, z).num >= 0
                &&& in_box(x, y, z, first_inside(x, y, z))
                &&& hit == Some(reach(Some(first_inside(x, y, z))))
                &&& forall|t: Ratio|
                    t.den > 0 && t.num >= 0 && #[trigger] in_box(x, y, z, t) ==> ratio_le(
                        first_inside(x, y, z),
                        t,
                    )
            }
        }),
{
    let (x, y, z) = slabs(ray, box_center, half_extents);
    if meets(x, y, z) {
        lemma_meets_gives_point_in_box(x, y, z);
        assert(in_box(x, y, z, first_inside(x, y, z)));
    }
    assert forall|t: Ratio| t.den > 0 && t.num >= 0 && #[trigger] in_box(x, y, z, t) implies meets(
        x,
        y,
        z,
    ) && ratio_le(first_inside(x, y, z), t) by {
        lemma_point_in_box_gives_meets(x, y, z, t);
    }
}

/// A fraction in the machine.
struct Frac {
    num: i128,
    den: i128,
}

/// The fraction is small enough for its products to fit the machine.
spec fn frac_ok(f: Frac) -> bool {
    &&& -0x4_0000_0000_0000_0000 <= f.num <= 0x4_0000_0000_0000_0000
    &&& 0 < f.den <= 0x8000_0000
}

spec fn frac_view(f: Frac) -> Ratio {
    Ratio { num: f.num as int, den: f.den as int }
}

spec fn opt_view(f: Option<Frac>) -> Option<Ratio> {
    match f {
        Some(f) => Some(frac_view(f)),
        None => None,
    }
}

spec fn opt_ok(f: Option<Frac>) -> bool {
    f matches Some(f) ==> frac_ok(f)
}

proof fn lemma_product_fits(num: int, den: int)
    requires
        -0x4_0000_0000_0000_0000 <= num <= 0x4_0000_0000_0000_0000,
        0 < den <= 0x8000_0000,
    ensures
        -0x2_0000_0000_0000_0000_0000_0000 <= num * den <= 0x2_0000_0000_0000_0000_0000_0000,
{
    assert(-0x4_0000_0000_0000_0000 * 0x8000_0000 <= num * den <= 0x4_0000_0000_0000_0000
        * 0x8000_0000) by (nonlinear_arith)
        requires
            -0x4_0000_0000_0000_0000 <= num <= 0x4_0000_0000_0000_0000,
            0 < den <= 0x8000_0000,
    ;
}

fn frac_le(a: &Frac, b: &Frac) -> (le: bool)
    requires
        frac_ok(*a),
        frac_ok(*b),
    ensures
        le == ratio_le(frac_view(*a), frac_view(*b)),
{
    proof {
        lemma_product_fits(a.num as int, b.den as int);
        lemma_product_fits(b.num as int, a.den as int);
    }
    a.num * b.den <= b.num * a.den
}

/// The slab of a box along one axis, in the machine: from the origin to the
/// lower side, from the origin to the upper side.
fn slab_sides(origin: i64, center: i64, half: i64) -> (sides: (i128, i128))
    ensures
        sides.0 == center - half - origin,
        sides.1 == center + half - origin,
{
    (
        center as i128 - half as i128 - origin as i128,
        center as i128 + half as i128 - origin as i128,
    )
}

fn near_of(lo: i128, hi: i128, d: i32) -> (f: Frac)
    requires
        d != 0,
        -0x4_0000_0000_0000_0000 <= lo <= 0x4_0000_0000_0000_0000,
        -0x4_0000_0000_0000_0000 <= hi <= 0x4_0000_0000_0000_0000,
    ensures
        frac_ok(f),
        frac_view(f) == (Slab { lo: lo as int, hi: hi as int, d: d as int }).near(),
{
    if d > 0 {
        Frac { num: lo, den: d as i128 }
    } else {
        Frac { num: -hi, den: -(d as i128) }
    }
}

fn far_of(lo: i128, hi: i128, d: i32) -> (f: Frac)
    requires
        d != 0,
        -0x4_0000_0000_0000_0000 <= lo <= 0x4_0000_0000_0000_0000,
        -0x4_0000_0000_0000_0000 <= hi <= 0x4_0000_0000_0000_0000,
    ensures
        frac_ok(f),
        frac_view(f) == (Slab { lo: lo as int, hi: hi as int, d: d as int }).far(),
{
    if d > 0 {
        Frac { num: hi, den: d as i128 }
    } else {
        Frac { num: -lo, den: -(d as i128) }
    }
}

/// Takes one more slab into the entry and the exit so far. Gives `false`
/// where the ray does not move along the axis and starts outside the slab.
fn take_slab(
    t_enter: Option<Frac>,
    t_exit: Option<Frac>,
    origin: i64,
    direction: i32,
    center: i64,
    half: i64,
) -> (taken: (bool, Option<Frac>, Option<Frac>))
    requires
        opt_ok(t_enter),
        opt_ok(t_exit),
    ensures
        taken.0 == slab(origin, direction, center, half).holds_still_ray(),
        opt_ok(taken.1),
        opt_ok(taken.2),
        opt_view(taken.1) == later_entry(opt_view(t_enter), slab(origin, direction, center, half)),
        opt_view(taken.2) == earlier_exit(opt_view(t_exit), slab(origin, direction, center, half)),
{
    let (lo, hi) = slab_sides(origin, center, half);
    if direction == 0 {
        return (lo <= 0 && 0 <= hi, t_enter, t_exit);
    }
    let near = near_of(lo, hi, direction);
    let far = far_of(lo, hi, direction);
    let new_enter = match t_enter {
        Some(t) => if frac_le(&t, &near) {
            Some(near)
        } else {
            Some(t)
        },
        None => Some(near),
    };
    let new_exit = match t_exit {
        Some(t) => if frac_le(&far, &t) {
            Some(far)
        } else {
            Some(t)
        },
        None => Some(far),
    };
    (true, new_enter, new_exit)
}

/// A multiple of the direction in millionths.
fn reach_of(t: &Option<Frac>) -> (r: u64)
    requires
        opt_ok(*t),
    ensures
        r == reach(opt_view(*t)),
{
    match t {
        Some(f) => {
            if f.num <= 0 {
                0
            } else {
                let scaled: i128 = f.num * 1_000_000;
                let q: i128 = scaled / f.den;
                if q > u64::MAX as i128 {
                    u64::MAX
                } else {
                    q as u64
                }
            }
        },
        None => 0,
    }
}

/// Where a ray enters a box with its sides along the axes: the multiple of
/// the ray's direction at which it gets into the box, in millionths, or 0
/// where it starts inside. `None` where the ray misses the box. The box
/// reaches `half_extents` from `box_center` along each axis, both ways, and
/// its faces belong to it.
pub fn ray_box_intersection(ray: &Ray, box_center: Position, half_extents: Position) -> (hit:
    Option<u64>)
    ensures
        hit == ray_box_spec(*ray, box_center, half_extents),
{
    let (in_x, t_enter, t_exit) = take_slab(
        None,
        None,
        ray.origin.x,
        ray.direction.x,
        box_center.x,
        half_extents.x,
    );
    let (in_y, t_enter, t_exit) = take_slab(
        t_enter,
        t_exit,
        ray.origin.y,
        ray.direction.y,
        box_center.y,
        half_extents.y,
    );
    let (in_z, t_enter, t_exit) = take_slab(
        t_enter,
        t_exit,
        ray.origin.z,
        ray.direction.z,
        box_center.z,
        half_extents.z,
    );
    proof {
        let x = slab(ray.origin.x, ray.direction.x, box_center.x, half_extents.x);
        let y = slab(ray.origin.y, ray.direction.y, box_center.y, half_extents.y);
        let z = slab(ray.origin.z, ray.direction.z, box_center.z, half_extents.z);
        assert(opt_view(None::<Frac>) == None::<Ratio>);
        assert(opt_view(t_enter) == entry(x, y, z));
        assert(opt_view(t_exit) == exit(x, y, z));
    }
    if !(in_x && in_y && in_z) {
        return None;
    }
    let ordered = match &t_enter {
        Some(first) => match &t_exit {
            Some(last) => frac_le(first, last),
            None => true,
        },
        None => true,
    };
    let ahead = match &t_exit {
        Some(last) => last.num >= 0,
        None => true,
    };
    proof {
        let x = slab(ray.origin.x, ray.direction.x, box_center.x, half_extents.x);
        let y = slab(ray.origin.y, ray.direction.y, box_center.y, half_extents.y);
        let z = slab(ray.origin.z, ray.direction.z, box_center.z, half_extents.z);
        assert((ordered && ahead) == meets(x, y, z));
    }
    if ordered && ahead {
        Some(reach_of(&t_enter))
    } else {
        None
    }
}

/// The size of a number.
pub open spec fn magnitude(value: int) -> int {
    if value < 0 {
        -value
    } else {
        value
    }
}

/// How far a ray has moved along an axis on which its direction is `along`
/// when it has risen by `rise` on an axis on which its direction is `up`:
/// `along * rise / up`, rounded towards zero. `rise` and `up` have the same
/// sign and are not 0.
pub open spec fn run_spec(along: int, rise: int, up: int) -> int {
    let size = magnitude(along) * magnitude(rise) / magnitude(up);
    if along < 0 {
        -size
    } else {
        size
    }
}

/// Whether a ray reaches a height ahead of its origin: it does where it
/// rises towards a height above it or sinks towards a height below it.
pub open spec fn reaches_height(ray: Ray, height: i64) -> bool {
    ||| height > ray.origin.y && ray.direction.y > 0
    ||| height < ray.origin.y && ray.direction.y < 0
}

/// What `ray_at_height` owes.
pub open spec fn ray_at_height_spec(ray: Ray, height: i64) -> Option<Position> {
    if reaches_height(ray, height) {
        Some(
            Position {
                x: clamp_i64(
                    ray.origin.x + run_spec(
                        ray.direction.x as int,
                        height - ray.origin.y,
                        ray.direction.y as int,
                    ),
                ) as i64,
                y: height,
                z: clamp_i64(
                    ray.origin.z + run_spec(
                        ray.direction.z as int,
                        height - ray.origin.y,
                        ray.direction.y as int,
                    ),
                ) as i64,
            },
        )
    } else {
        None
    }
}

fn run(along: i32, rise: i128, up: i32) -> (moved: i128)
    requires
        up != 0,
        -0x1_0000_0000_0000_0000 <= rise <= 0x1_0000_0000_0000_0000,
    ensures
        moved == run_spec(along as int, rise as int, up as int),
        -0x8000_0000_0000_0000_0000_0000 <= moved <= 0x8000_0000_0000_0000_0000_0000,
{
    let a: i128 = if along < 0 {
        -(along as i128)
    } else {
        along as i128
    };
    let r: i128 = if rise < 0 {
        -rise
    } else {
        rise
    };
    let u: i128 = if up < 0 {
        -(up as i128)
    } else {
        up as i128
    };
    assert(0 <= a * r <= 0x8000_0000 * 0x1_0000_0000_0000_0000) by (nonlinear_arith)
        requires
            0 <= a <= 0x8000_0000,
            0 <= r <= 0x1_0000_0000_0000_0000,
    ;
    let size: i128 = a * r / u;
    assert(0 <= size <= a * r) by (nonlinear_arith)
        requires
            size == (a * r) / (u as int),
            0 <= a * r,
            u >= 1,
    ;
    if along < 0 {
        -size
    } else {
        size
    }
}

/// Where a ray ahead of its origin reaches a height: the point of the ray
/// with that y, its x and z rounded towards the origin and kept within the
/// range of `i64`. `None` where the ray runs level or away from the height,
/// or starts at it.
pub fn ray_at_height(ray: &Ray, height: i64) -> (point: Option<Position>)
    ensures
        point == ray_at_height_spec(*ray, height),
{
    let up = ray.direction.y;
    let rises = height > ray.origin.y && up > 0;
    let sinks = height < ray.origin.y && up < 0;
    if !(rises || sinks) {
        return None;
    }
    let rise: i128 = height as i128 - ray.origin.y as i128;
    let x = clamp_to_i64(ray.origin.x as i128 + run(ray.direction.x, rise, up));
    let z = clamp_to_i64(ray.origin.z as i128 + run(ray.direction.z, rise, up));
    Some(Position { x: x, y: height, z: z })
}

} // verus!
