//! The force accumulator: for an immutable snapshot of every body's name,
//! mass and position, it computes the net gravitational force vector on each
//! body from every other body.
//!
//! For one ordered pair the force on `i` from `j` is, per axis,
//!
//! ```text
//! F = G * m_i * m_j / r^3 * (p_j - p_i)
//! ```
//!
//! with `r` the Euclidean distance.  In fixed point this becomes the exact
//! integer computation of [`force_magnitude_axis`]: distances in
//! milli-meters, forces in milli-newtons, and the scalar term
//! `G * m_i * m_j / r^3` folded together with the absolute per-axis
//! positional difference so that no precision is lost to an early division.
//! The magnitude is computed from the unordered pair of masses (smaller and
//! larger), so the two directions of a pair give exactly opposite vectors;
//! see [`crate::laws`].
//!
//! Pairs closer than [`MIN_SEPARATION_MILLI`](crate::MIN_SEPARATION_MILLI)
//! contribute nothing: the documented guard for the degenerate
//! zero-separation case.

use crate::body::{BodyState, SolarSystemObjectData};
use crate::numeric::{isqrt, mul_div_floor, sqrt_floor, tdiv};
use crate::{
    GRAV_NUMERATOR, MAX_BODIES, MAX_COORDINATE_NANO, MAX_MASS_KG, MIN_SEPARATION_MILLI,
    NANOS_PER_MILLI, PAIR_FORCE_PER_KG,
};
use vstd::arithmetic::div_mod::{lemma_div_pos_is_pos, lemma_multiply_divide_le};
use vstd::math::{abs, max, min};
use vstd::prelude::*;

verus! {

/// Ghost mirror of one snapshot entry.
pub struct SnapState {
    pub name: Seq<char>,
    pub mass: int,
    pub px: int,
    pub py: int,
    pub pz: int,
}

/// What the force computation reads of a body.
pub open spec fn snap_of_state(b: BodyState) -> SnapState {
    SnapState { name: b.name, mass: b.mass, px: b.px, py: b.py, pz: b.pz }
}

/// Mass and position ranges under which the force computation is exact.
pub open spec fn snap_valid(s: SnapState) -> bool {
    &&& 1 <= s.mass <= MAX_MASS_KG
    &&& -MAX_COORDINATE_NANO <= s.px <= MAX_COORDINATE_NANO
    &&& -MAX_COORDINATE_NANO <= s.py <= MAX_COORDINATE_NANO
    &&& -MAX_COORDINATE_NANO <= s.pz <= MAX_COORDINATE_NANO
}

/// One entry of the immutable per-tick snapshot: name, mass and position of
/// a body at the start of the tick.
pub struct ObjectSnapshot {
    pub name: String,
    pub mass_kg: u128,
    pub position_x: i128,
    pub position_y: i128,
    pub position_z: i128,
}

impl ObjectSnapshot {
    /// The ghost state this snapshot entry holds.
    pub open spec fn state(self) -> SnapState {
        SnapState {
            name: self.name@,
            mass: self.mass_kg as int,
            px: self.position_x as int,
            py: self.position_y as int,
            pz: self.position_z as int,
        }
    }
}

/// The ghost states of a snapshot, in order.
pub open spec fn snap_states(snap: Seq<ObjectSnapshot>) -> Seq<SnapState> {
    Seq::new(snap.len(), |i: int| snap[i].state())
}

/// Positional difference `to - from`, taken from nano-meters to
/// milli-meters (truncated toward zero).
pub open spec fn diff_milli(from: int, to: int) -> int {
    tdiv(to - from, NANOS_PER_MILLI as int)
}

/// Squared distance between two snapshot entries, in milli-meters squared.
pub open spec fn separation_sq(on: SnapState, from: SnapState) -> int {
    let dx = diff_milli(on.px, from.px);
    let dy = diff_milli(on.py, from.py);
    let dz = diff_milli(on.pz, from.pz);
    dx * dx + dy * dy + dz * dz
}

/// Magnitude of one axis component of a pair force, in milli-newtons:
/// the exact integer form of `G * small * big * d_abs / r^3`, computed from
/// the unordered pair of masses.
///
/// Unit algebra: with `d_abs` and `r` in milli-meters, the SI force is
/// `(66743/1e15) * small * big * (d_abs/1e3) / (r/1e3)^3` newtons, which is
/// `66743 * small * big * d_abs / (1e9 * r^3)`; times `1e3` for
/// milli-newtons gives `66743 * small * big * d_abs / (1e6 * r^3)`.  The
/// two divisions below realize `/ r` and `/ (1e6 * r^2)` of that quotient.
pub open spec fn force_magnitude_axis(small: int, big: int, d_abs: int, r: int) -> int {
    let inner = (GRAV_NUMERATOR * big * d_abs) / r;
    (inner * small) / (NANOS_PER_MILLI * r * r)
}

/// One signed axis component of a pair force.
pub open spec fn force_axis(small: int, big: int, d: int, r: int) -> int {
    if d >= 0 {
        force_magnitude_axis(small, big, d, r)
    } else {
        -force_magnitude_axis(small, big, -d, r)
    }
}

/// The force vector exerted on `on` by `from`, in milli-newtons.
pub open spec fn pair_force(on: SnapState, from: SnapState) -> (int, int, int) {
    let ssq = separation_sq(on, from);
    if ssq < MIN_SEPARATION_MILLI * MIN_SEPARATION_MILLI {
        (0, 0, 0)
    } else {
        let r = sqrt_floor(ssq as nat) as int;
        let small = min(on.mass, from.mass);
        let big = max(on.mass, from.mass);
        (
            force_axis(small, big, diff_milli(on.px, from.px), r),
            force_axis(small, big, diff_milli(on.py, from.py), r),
            force_axis(small, big, diff_milli(on.pz, from.pz), r),
        )
    }
}

/// Net force on entry `i` from entries `0 .. n`, excluding entries that
/// carry `i`'s own name (a body never computes force against itself).
pub open spec fn net_force_prefix(snaps: Seq<SnapState>, i: int, n: int) -> (int, int, int)
    decreases n,
{
    if n <= 0 {
        (0, 0, 0)
    } else {
        let rest = net_force_prefix(snaps, i, n - 1);
        if snaps[n - 1].name == snaps[i].name {
            rest
        } else {
            let f = pair_force(snaps[i], snaps[n - 1]);
            (rest.0 + f.0, rest.1 + f.1, rest.2 + f.2)
        }
    }
}

/// Net force on entry `i` from every other entry, in milli-newtons.
pub open spec fn net_force(snaps: Seq<SnapState>, i: int) -> (int, int, int) {
    net_force_prefix(snaps, i, snaps.len() as int)
}

/// A pair force component never exceeds the smaller mass (hence either
/// mass) times `PAIR_FORCE_PER_KG`.
pub proof fn lemma_axis_magnitude_bound(small: int, big: int, d_abs: int, r: int)
    requires
        1 <= small <= big <= MAX_MASS_KG,
        MIN_SEPARATION_MILLI <= r,
        0 <= d_abs <= r,
    ensures
        0 <= (GRAV_NUMERATOR * big * d_abs) / r <= GRAV_NUMERATOR * big,
        0 <= force_magnitude_axis(small, big, d_abs, r) <= small * PAIR_FORCE_PER_KG,
{
    let gb = GRAV_NUMERATOR * big;
    assert(GRAV_NUMERATOR * big * d_abs <= r * gb && gb >= 0 && GRAV_NUMERATOR * big * d_abs >= 0)
        by (nonlinear_arith)
        requires
            0 <= d_abs <= r && gb == GRAV_NUMERATOR * big && big >= 1,
    ;
    lemma_div_pos_is_pos(GRAV_NUMERATOR * big * d_abs, r);
    lemma_multiply_divide_le(GRAV_NUMERATOR * big * d_abs, r, gb);
    let inner = (GRAV_NUMERATOR * big * d_abs) / r;
    let den = NANOS_PER_MILLI * r * r;
    assert(inner * small >= 0 && den > 0 && inner * small <= den * (small * PAIR_FORCE_PER_KG))
        by (nonlinear_arith)
        requires
            0 <= inner <= GRAV_NUMERATOR * big
                && 1 <= small <= big <= MAX_MASS_KG
                && MIN_SEPARATION_MILLI <= r
                && den == NANOS_PER_MILLI * r * r,
    ;
    lemma_div_pos_is_pos(inner * small, den);
    lemma_multiply_divide_le(inner * small, den, small * PAIR_FORCE_PER_KG);
}

/// Positional difference of one axis, in milli-meters.
fn diff_milli_exec(from: i128, to: i128) -> (d: i128)
    requires
        -MAX_COORDINATE_NANO <= from <= MAX_COORDINATE_NANO,
        -MAX_COORDINATE_NANO <= to <= MAX_COORDINATE_NANO,
    ensures
        d == diff_milli(from as int, to as int),
        abs(d as int) <= 10_000_000_000_000_000int,
{
    let delta: i128 = to - from;
    proof {
        if delta >= 0 {
            lemma_multiply_divide_le(delta as int, NANOS_PER_MILLI as int, 10_000_000_000_000_000int);
            lemma_div_pos_is_pos(delta as int, NANOS_PER_MILLI as int);
        } else {
            lemma_multiply_divide_le(-delta as int, NANOS_PER_MILLI as int, 10_000_000_000_000_000int);
            lemma_div_pos_is_pos(-delta as int, NANOS_PER_MILLI as int);
        }
    }
    if delta >= 0 {
        ((delta as u128) / 1_000_000) as i128
    } else {
        -((((-delta) as u128) / 1_000_000) as i128)
    }
}

/// One signed axis component of the force between a pair, in milli-newtons.
fn axis_component(small: u128, big: u128, d: i128, r: u128) -> (c: i128)
    requires
        1 <= small <= big <= MAX_MASS_KG,
        MIN_SEPARATION_MILLI <= r <= 20_000_000_000_000_000u128,
        r * r <= 300_000_000_000_000_000_000_000_000_000_000u128,
        abs(d as int) <= r,
    ensures
        c == force_axis(small as int, big as int, d as int, r as int),
        abs(c as int) <= small * PAIR_FORCE_PER_KG,
{
    let dabs: u128 = if d >= 0 {
        d as u128
    } else {
        (-d) as u128
    };
    proof {
        lemma_axis_magnitude_bound(small as int, big as int, dabs as int, r as int);
    }
    let gm = GRAV_NUMERATOR * big;
    let den = 1_000_000u128 * (r * r);
    proof {
        assert(den == NANOS_PER_MILLI * (r as int) * (r as int) && den > 0) by (nonlinear_arith)
            requires
                den == 1_000_000int * ((r as int) * (r as int)) && NANOS_PER_MILLI == 1_000_000u128
                    && r >= 1,
        ;
    }
    let inner = mul_div_floor(gm, dabs, r);
    let mag = mul_div_floor(inner, small, den);
    if d >= 0 {
        mag as i128
    } else {
        -(mag as i128)
    }
}

/// The force vector exerted on `on` by `from`.
fn pair_force_exec(on: &ObjectSnapshot, from: &ObjectSnapshot) -> (f: (i128, i128, i128))
    requires
        snap_valid(on.state()),
        snap_valid(from.state()),
    ensures
        f.0 == pair_force(on.state(), from.state()).0,
        f.1 == pair_force(on.state(), from.state()).1,
        f.2 == pair_force(on.state(), from.state()).2,
        abs(f.0 as int) <= on.mass_kg * PAIR_FORCE_PER_KG,
        abs(f.1 as int) <= on.mass_kg * PAIR_FORCE_PER_KG,
        abs(f.2 as int) <= on.mass_kg * PAIR_FORCE_PER_KG,
{
    let dx = diff_milli_exec(on.position_x, from.position_x);
    let dy = diff_milli_exec(on.position_y, from.position_y);
    let dz = diff_milli_exec(on.position_z, from.position_z);
    let dxu: u128 = if dx >= 0 {
        dx as u128
    } else {
        (-dx) as u128
    };
    let dyu: u128 = if dy >= 0 {
        dy as u128
    } else {
        (-dy) as u128
    };
    let dzu: u128 = if dz >= 0 {
        dz as u128
    } else {
        (-dz) as u128
    };
    proof {
        assert(dxu * dxu == dx * dx && dyu * dyu == dy * dy && dzu * dzu == dz * dz
            && dxu * dxu <= 100_000_000_000_000_000_000_000_000_000_000int
            && dyu * dyu <= 100_000_000_000_000_000_000_000_000_000_000int
            && dzu * dzu <= 100_000_000_000_000_000_000_000_000_000_000int) by (nonlinear_arith)
            requires
                dxu == abs(dx as int) && dyu == abs(dy as int) && dzu == abs(dz as int)
                    && dxu <= 10_000_000_000_000_000int
                    && dyu <= 10_000_000_000_000_000int
                    && dzu <= 10_000_000_000_000_000int,
        ;
    }
    let ssq: u128 = dxu * dxu + dyu * dyu + dzu * dzu;
    if ssq < MIN_SEPARATION_MILLI * MIN_SEPARATION_MILLI {
        (0, 0, 0)
    } else {
        let r = isqrt(ssq);
        proof {
            assert(MIN_SEPARATION_MILLI <= r && r <= 20_000_000_000_000_000u128
                && dxu <= r && dyu <= r && dzu <= r)
                by (nonlinear_arith)
                requires
                    r * r <= ssq < (r + 1) * (r + 1)
                        && ssq <= 300_000_000_000_000_000_000_000_000_000_000int
                        && dxu * dxu <= ssq && dyu * dyu <= ssq && dzu * dzu <= ssq
                        && ssq >= MIN_SEPARATION_MILLI * MIN_SEPARATION_MILLI
                        && r >= 0 && dxu >= 0 && dyu >= 0 && dzu >= 0,
            ;
        }
        let small = if on.mass_kg <= from.mass_kg {
            on.mass_kg
        } else {
            from.mass_kg
        };
        let big = if on.mass_kg <= from.mass_kg {
            from.mass_kg
        } else {
            on.mass_kg
        };
        let fx = axis_component(small, big, dx, r);
        let fy = axis_component(small, big, dy, r);
        let fz = axis_component(small, big, dz, r);
        proof {
            assert(small * PAIR_FORCE_PER_KG <= on.mass_kg * PAIR_FORCE_PER_KG)
                by (nonlinear_arith)
                requires
                    0 <= small <= on.mass_kg,
            ;
        }
        (fx, fy, fz)
    }
}

/// Immutable copy of every body's name, mass and position, taken at the
/// start of a tick so that the whole tick computes from the same
/// instant-in-time positions.
pub fn take_snapshot(objects: &Vec<SolarSystemObjectData>) -> (snap: Vec<ObjectSnapshot>)
    ensures
        snap@.len() == objects@.len(),
        forall|i: int|
            0 <= i < objects@.len() ==> (#[trigger] snap@[i]).state() == snap_of_state(
                objects@[i].state(),
            ),
{
    let n = objects.len();
    let mut snap: Vec<ObjectSnapshot> = Vec::new();
    let mut i: usize = 0;
    while i < n
        invariant
            n == objects@.len(),
            i <= n,
            snap@.len() == i,
            forall|j: int|
                0 <= j < i ==> (#[trigger] snap@[j]).state() == snap_of_state(
                    objects@[j].state(),
                ),
        decreases n - i,
    {
        let o = &objects[i];
        let entry = ObjectSnapshot {
            name: o.name.clone(),
            mass_kg: o.mass_kg,
            position_x: o.position_x,
            position_y: o.position_y,
            position_z: o.position_z,
        };
        snap.push(entry);
        i = i + 1;
    }
    snap
}

/// Net gravitational force on snapshot entry `i` from every other entry.
pub fn net_force_on_object(snap: &Vec<ObjectSnapshot>, i: usize) -> (f: (i128, i128, i128))
    requires
        snap@.len() <= MAX_BODIES,
        i < snap@.len(),
        forall|k: int| 0 <= k < snap@.len() ==> snap_valid((#[trigger] snap@[k]).state()),
    ensures
        f.0 == net_force(snap_states(snap@), i as int).0,
        f.1 == net_force(snap_states(snap@), i as int).1,
        f.2 == net_force(snap_states(snap@), i as int).2,
        abs(f.0 as int) <= snap@.len() * (snap@[i as int].mass_kg * PAIR_FORCE_PER_KG),
        abs(f.1 as int) <= snap@.len() * (snap@[i as int].mass_kg * PAIR_FORCE_PER_KG),
        abs(f.2 as int) <= snap@.len() * (snap@[i as int].mass_kg * PAIR_FORCE_PER_KG),
{
    let n = snap.len();
    let ghost states = snap_states(snap@);
    let ghost step = snap@[i as int].mass_kg * PAIR_FORCE_PER_KG;
    proof {
        assert(step <= MAX_MASS_KG * PAIR_FORCE_PER_KG) by (nonlinear_arith)
            requires
                step == snap@[i as int].mass_kg * PAIR_FORCE_PER_KG
                    && 0 <= snap@[i as int].mass_kg <= MAX_MASS_KG,
        ;
    }
    let mut fx: i128 = 0;
    let mut fy: i128 = 0;
    let mut fz: i128 = 0;
    let mut j: usize = 0;
    while j < n
        invariant
            n == snap@.len() <= MAX_BODIES,
            i < n,
            j <= n,
            states == snap_states(snap@),
            step == snap@[i as int].mass_kg * PAIR_FORCE_PER_KG,
            0 <= step <= MAX_MASS_KG * PAIR_FORCE_PER_KG,
            forall|k: int| 0 <= k < snap@.len() ==> snap_valid((#[trigger] snap@[k]).state()),
            fx == net_force_prefix(states, i as int, j as int).0,
            fy == net_force_prefix(states, i as int, j as int).1,
            fz == net_force_prefix(states, i as int, j as int).2,
            abs(fx as int) <= j * step,
            abs(fy as int) <= j * step,
            abs(fz as int) <= j * step,
        decreases n - j,
    {
        proof {
            assert((j + 1) * step == j * step + step) by (nonlinear_arith);
            assert(j * step + step <= MAX_BODIES * (MAX_MASS_KG * PAIR_FORCE_PER_KG))
                by (nonlinear_arith)
                requires
                    0 <= step <= MAX_MASS_KG * PAIR_FORCE_PER_KG && 0 <= j
                        && j + 1 <= MAX_BODIES,
            ;
        }
        if !(snap[j].name == snap[i].name) {
            let pf = pair_force_exec(&snap[i], &snap[j]);
            fx = fx + pf.0;
            fy = fy + pf.1;
            fz = fz + pf.2;
        }
        j = j + 1;
    }
    (fx, fy, fz)
}

/// Net force record for one body, correlated back to the registry by name.
pub struct NetForce {
    pub name: String,
    pub force_x: i128,
    pub force_y: i128,
    pub force_z: i128,
}

/// Net forces on every body of the snapshot, in snapshot order.
pub fn accumulate_forces(snap: &Vec<ObjectSnapshot>) -> (forces: Vec<NetForce>)
    requires
        snap@.len() <= MAX_BODIES,
        forall|k: int| 0 <= k < snap@.len() ==> snap_valid((#[trigger] snap@[k]).state()),
    ensures
        forces@.len() == snap@.len(),
        forall|k: int|
            0 <= k < snap@.len() ==> (#[trigger] forces@[k]).name@ == snap@[k].name@
                && forces@[k].force_x == net_force(snap_states(snap@), k).0
                && forces@[k].force_y == net_force(snap_states(snap@), k).1
                && forces@[k].force_z == net_force(snap_states(snap@), k).2
                && abs(forces@[k].force_x as int) <= snap@.len() * (snap@[k].mass_kg
                    * PAIR_FORCE_PER_KG)
                && abs(forces@[k].force_y as int) <= snap@.len() * (snap@[k].mass_kg
                    * PAIR_FORCE_PER_KG)
                && abs(forces@[k].force_z as int) <= snap@.len() * (snap@[k].mass_kg
                    * PAIR_FORCE_PER_KG),
{
    let n = snap.len();
    let mut forces: Vec<NetForce> = Vec::new();
    let mut i: usize = 0;
    while i < n
        invariant
            n == snap@.len() <= MAX_BODIES,
            i <= n,
            forces@.len() == i,
            forall|k: int| 0 <= k < snap@.len() ==> snap_valid((#[trigger] snap@[k]).state()),
            forall|k: int|
                0 <= k < i ==> (#[trigger] forces@[k]).name@ == snap@[k].name@
                    && forces@[k].force_x == net_force(snap_states(snap@), k).0
                    && forces@[k].force_y == net_force(snap_states(snap@), k).1
                    && forces@[k].force_z == net_force(snap_states(snap@), k).2
                    && abs(forces@[k].force_x as int) <= snap@.len() * (snap@[k].mass_kg
                        * PAIR_FORCE_PER_KG)
                    && abs(forces@[k].force_y as int) <= snap@.len() * (snap@[k].mass_kg
                        * PAIR_FORCE_PER_KG)
                    && abs(forces@[k].force_z as int) <= snap@.len() * (snap@[k].mass_kg
                        * PAIR_FORCE_PER_KG),
        decreases n - i,
    {
        let f = net_force_on_object(snap, i);
        let rec = NetForce { name: snap[i].name.clone(), force_x: f.0, force_y: f.1, force_z: f.2 };
        forces.push(rec);
        i = i + 1;
    }
    forces
}

} // verus!
