//! Laws of the simulation, proved once and for all over the ghost model:
//! Newton's third law for the pair force, zero net force on a lone body,
//! the semi-implicit integration order, and approximate conservation of
//! momentum for a two-body system over any number of ticks.

use crate::body::BodyState;
use crate::force::{
    diff_milli, force_axis, force_magnitude_axis, net_force, net_force_prefix, pair_force,
    separation_sq, SnapState,
};
use crate::integrate::{accel_from_force, integrate_state, time_scaled};
use crate::numeric::{lemma_tdiv_neg, sqrt_floor};
use crate::sim::{snap_projection, tick_states};
use vstd::arithmetic::div_mod::{
    lemma_div_of0, lemma_div_pos_is_pos, lemma_fundamental_div_mod, lemma_mod_pos_bound,
};
use vstd::math::abs;
use vstd::prelude::*;

verus! {

/// A force component of magnitude zero is zero.
proof fn lemma_force_magnitude_of_zero(small: int, big: int, r: int)
    requires
        r >= 1,
    ensures
        force_magnitude_axis(small, big, 0, r) == 0,
{
    assert(crate::GRAV_NUMERATOR * big * 0 == 0) by (nonlinear_arith);
    lemma_div_of0(r);
    assert((crate::GRAV_NUMERATOR * big * 0) / r == 0);
    let den = crate::NANOS_PER_MILLI * r * r;
    assert(den >= 1) by (nonlinear_arith)
        requires
            r >= 1 && den == crate::NANOS_PER_MILLI * r * r,
    ;
    assert(0 * small == 0) by (nonlinear_arith);
    lemma_div_of0(den);
}

/// Negating the positional difference negates the force component.
proof fn lemma_force_axis_negated(small: int, big: int, d: int, r: int)
    requires
        r >= 1,
    ensures
        force_axis(small, big, -d, r) == -force_axis(small, big, d, r),
{
    if d == 0 {
        lemma_force_magnitude_of_zero(small, big, r);
    }
}

/// **Newton's third law.**  The force one body receives from another is the
/// exact negation, component by component, of the force the other receives
/// from it: equal in magnitude and anti-parallel.  This holds for every
/// pair of snapshot entries, whatever their masses and positions.
pub proof fn lemma_newton_third_law(a: SnapState, b: SnapState)
    ensures
        pair_force(a, b).0 == -pair_force(b, a).0,
        pair_force(a, b).1 == -pair_force(b, a).1,
        pair_force(a, b).2 == -pair_force(b, a).2,
{
    lemma_tdiv_neg(b.px - a.px, crate::NANOS_PER_MILLI as int);
    lemma_tdiv_neg(b.py - a.py, crate::NANOS_PER_MILLI as int);
    lemma_tdiv_neg(b.pz - a.pz, crate::NANOS_PER_MILLI as int);
    let dx = diff_milli(a.px, b.px);
    let dy = diff_milli(a.py, b.py);
    let dz = diff_milli(a.pz, b.pz);
    assert(diff_milli(b.px, a.px) == -dx);
    assert(diff_milli(b.py, a.py) == -dy);
    assert(diff_milli(b.pz, a.pz) == -dz);
    assert((-dx) * (-dx) == dx * dx && (-dy) * (-dy) == dy * dy && (-dz) * (-dz) == dz * dz)
        by (nonlinear_arith);
    assert(separation_sq(b, a) == separation_sq(a, b));
    let ssq = separation_sq(a, b);
    if ssq >= crate::MIN_SEPARATION_MILLI * crate::MIN_SEPARATION_MILLI {
        let r = sqrt_floor(ssq as nat) as int;
        crate::numeric::lemma_sqrt_floor_bounds(ssq as nat);
        assert(r >= 1) by (nonlinear_arith)
            requires
                (r + 1) * (r + 1) > ssq
                    && ssq >= crate::MIN_SEPARATION_MILLI * crate::MIN_SEPARATION_MILLI && r >= 0,
        ;
        let small = vstd::math::min(a.mass, b.mass);
        let big = vstd::math::max(a.mass, b.mass);
        lemma_force_axis_negated(small, big, dx, r);
        lemma_force_axis_negated(small, big, dy, r);
        lemma_force_axis_negated(small, big, dz, r);
    }
}

/// In a two-body system the two net forces are exact opposites, so their
/// sum vanishes even though each body's force is computed independently.
pub proof fn lemma_two_body_net_forces_opposite(snaps: Seq<SnapState>)
    requires
        snaps.len() == 2,
    ensures
        net_force(snaps, 0).0 == -net_force(snaps, 1).0,
        net_force(snaps, 0).1 == -net_force(snaps, 1).1,
        net_force(snaps, 0).2 == -net_force(snaps, 1).2,
{
    assert(net_force_prefix(snaps, 0, 0) == (0int, 0int, 0int));
    assert(net_force_prefix(snaps, 1, 0) == (0int, 0int, 0int));
    assert(net_force_prefix(snaps, 0, 1) == (0int, 0int, 0int));
    if snaps[1].name == snaps[0].name {
        assert(net_force_prefix(snaps, 0, 2) == (0int, 0int, 0int));
        assert(net_force_prefix(snaps, 1, 1) == (0int, 0int, 0int));
        assert(net_force_prefix(snaps, 1, 2) == (0int, 0int, 0int));
    } else {
        lemma_newton_third_law(snaps[0], snaps[1]);
        let f01 = pair_force(snaps[0], snaps[1]);
        assert(net_force_prefix(snaps, 0, 2) == (f01.0, f01.1, f01.2));
        let f10 = pair_force(snaps[1], snaps[0]);
        assert(net_force_prefix(snaps, 1, 1) == (f10.0, f10.1, f10.2));
        assert(net_force_prefix(snaps, 1, 2) == (f10.0, f10.1, f10.2));
    }
}

/// **Self-exclusion.**  A single-body system yields zero net force, zero
/// acceleration and an unchanged velocity after any tick; a body that was
/// also at rest keeps its position.
pub proof fn lemma_single_body_tick(states: Seq<BodyState>, elapsed: int, factor: int)
    requires
        states.len() == 1,
        states[0].mass >= 1,
    ensures
        net_force(snap_projection(states), 0) == (0int, 0int, 0int),
        tick_states(states, elapsed, factor)[0].ax == 0,
        tick_states(states, elapsed, factor)[0].ay == 0,
        tick_states(states, elapsed, factor)[0].az == 0,
        tick_states(states, elapsed, factor)[0].vx == states[0].vx,
        tick_states(states, elapsed, factor)[0].vy == states[0].vy,
        tick_states(states, elapsed, factor)[0].vz == states[0].vz,
        states[0].vx == 0 ==> tick_states(states, elapsed, factor)[0].px == states[0].px,
        states[0].vy == 0 ==> tick_states(states, elapsed, factor)[0].py == states[0].py,
        states[0].vz == 0 ==> tick_states(states, elapsed, factor)[0].pz == states[0].pz,
{
    let snaps = snap_projection(states);
    assert(net_force_prefix(snaps, 0, 0) == (0int, 0int, 0int));
    assert(snaps[0].name == snaps[0].name);
    assert(net_force_prefix(snaps, 0, 1) == (0int, 0int, 0int));
    let tk = elapsed * factor;
    lemma_zero_through_integration(states[0].mass, tk);
    let after = tick_states(states, elapsed, factor)[0];
    assert(after == integrate_state(states[0], net_force(snaps, 0), tk));
    if states[0].vx == 0 {
        lemma_time_scaled_of_zero(tk);
    }
    if states[0].vy == 0 {
        lemma_time_scaled_of_zero(tk);
    }
    if states[0].vz == 0 {
        lemma_time_scaled_of_zero(tk);
    }
}

/// Zero force gives zero acceleration and a zero velocity delta.
proof fn lemma_zero_through_integration(mass: int, tk: int)
    requires
        mass >= 1,
    ensures
        accel_from_force(0, mass) == 0,
        time_scaled(0, tk) == 0,
{
    assert(0 * crate::NANOS_PER_MILLI == 0) by (nonlinear_arith);
    lemma_div_of0(mass);
    lemma_time_scaled_of_zero(tk);
}

/// A zero value scaled by any tick length stays zero.
proof fn lemma_time_scaled_of_zero(tk: int)
    ensures
        time_scaled(0, tk) == 0,
{
    assert(0 * tk == 0) by (nonlinear_arith);
    lemma_div_of0(crate::MICROS_PER_SECOND as int);
}

/// **Integration order.**  One tick stores this tick's `force / mass` as
/// the acceleration, advances the velocity by that acceleration, and
/// advances the position by the **updated** velocity — never by the
/// pre-tick one.  Name and mass are untouched.
pub proof fn lemma_integration_order(b: BodyState, f: (int, int, int), tk: int)
    ensures
        integrate_state(b, f, tk).ax == accel_from_force(f.0, b.mass),
        integrate_state(b, f, tk).ay == accel_from_force(f.1, b.mass),
        integrate_state(b, f, tk).az == accel_from_force(f.2, b.mass),
        integrate_state(b, f, tk).vx == b.vx + time_scaled(integrate_state(b, f, tk).ax, tk),
        integrate_state(b, f, tk).vy == b.vy + time_scaled(integrate_state(b, f, tk).ay, tk),
        integrate_state(b, f, tk).vz == b.vz + time_scaled(integrate_state(b, f, tk).az, tk),
        integrate_state(b, f, tk).px == b.px + time_scaled(integrate_state(b, f, tk).vx, tk),
        integrate_state(b, f, tk).py == b.py + time_scaled(integrate_state(b, f, tk).vy, tk),
        integrate_state(b, f, tk).pz == b.pz + time_scaled(integrate_state(b, f, tk).vz, tk),
        integrate_state(b, f, tk).name == b.name,
        integrate_state(b, f, tk).mass == b.mass,
{
}

/// Total momentum of a system along the x axis, in kg nano-m/s.
pub open spec fn momentum_x(states: Seq<BodyState>) -> int
    decreases states.len(),
{
    if states.len() == 0 {
        0
    } else {
        momentum_x(states.drop_last()) + states.last().mass * states.last().vx
    }
}

/// Total momentum of a system along the y axis.
pub open spec fn momentum_y(states: Seq<BodyState>) -> int
    decreases states.len(),
{
    if states.len() == 0 {
        0
    } else {
        momentum_y(states.drop_last()) + states.last().mass * states.last().vy
    }
}

/// Total momentum of a system along the z axis.
pub open spec fn momentum_z(states: Seq<BodyState>) -> int
    decreases states.len(),
{
    if states.len() == 0 {
        0
    } else {
        momentum_z(states.drop_last()) + states.last().mass * states.last().vz
    }
}

/// The momentum of a two-body system is the sum of its two parts.
proof fn lemma_momentum_of_pair(states: Seq<BodyState>)
    requires
        states.len() == 2,
    ensures
        momentum_x(states) == states[0].mass * states[0].vx + states[1].mass * states[1].vx,
        momentum_y(states) == states[0].mass * states[0].vy + states[1].mass * states[1].vy,
        momentum_z(states) == states[0].mass * states[0].vz + states[1].mass * states[1].vz,
{
    let one = states.drop_last();
    assert(one.len() == 1 && one[0] == states[0]);
    assert(one.drop_last().len() == 0);
    assert(momentum_x(one.drop_last()) == 0);
    assert(momentum_y(one.drop_last()) == 0);
    assert(momentum_z(one.drop_last()) == 0);
    assert(one.last() == states[0]);
    assert(states.last() == states[1]);
    assert(momentum_x(one) == states[0].mass * states[0].vx);
    assert(momentum_y(one) == states[0].mass * states[0].vy);
    assert(momentum_z(one) == states[0].mass * states[0].vz);
}

/// How far one body's momentum kick strays from the exact impulse `F * tk`:
/// the two truncating divisions lose at most `mass * (tk + 1e6)` parts in
/// a million.
proof fn lemma_kick_error_nonneg(fm: int, m: int, tk: int)
    requires
        fm >= 0,
        m >= 1,
        tk >= 0,
    ensures
        ({
            let am = (fm * 1_000_000) / m;
            let dv = (am * tk) / 1_000_000;
            &&& am >= 0
            &&& dv >= 0
            &&& 0 <= fm * tk * 1_000_000 - 1_000_000 * (m * dv) <= m * (tk + 1_000_000)
        }),
{
    let am = (fm * 1_000_000) / m;
    let ra = (fm * 1_000_000) % m;
    assert(fm * 1_000_000 >= 0) by (nonlinear_arith)
        requires
            fm >= 0,
    ;
    lemma_div_pos_is_pos(fm * 1_000_000, m);
    lemma_fundamental_div_mod(fm * 1_000_000, m);
    lemma_mod_pos_bound(fm * 1_000_000, m);
    let dv = (am * tk) / 1_000_000;
    let rv = (am * tk) % 1_000_000;
    assert(am * tk >= 0) by (nonlinear_arith)
        requires
            am >= 0 && tk >= 0,
    ;
    lemma_div_pos_is_pos(am * tk, 1_000_000);
    lemma_fundamental_div_mod(am * tk, 1_000_000);
    lemma_mod_pos_bound(am * tk, 1_000_000);
    assert(fm * tk * 1_000_000 - 1_000_000 * (m * dv) == ra * tk + m * rv) by (nonlinear_arith)
        requires
            fm * 1_000_000 == m * am + ra && am * tk == 1_000_000 * dv + rv,
    ;
    assert(0 <= ra * tk + m * rv <= m * (tk + 1_000_000)) by (nonlinear_arith)
        requires
            0 <= ra <= m - 1 && 0 <= rv <= 999_999 && tk >= 0 && m >= 1,
    ;
}

/// Signed version of the kick error: for any force component,
/// `|1e6 * mass * delta_v - 1e6 * F * tk| <= mass * (tk + 1e6)`.
proof fn lemma_kick_error(f: int, m: int, tk: int)
    requires
        m >= 1,
        tk >= 0,
    ensures
        ({
            let dv = time_scaled(accel_from_force(f, m), tk);
            abs(1_000_000 * (m * dv) - 1_000_000 * (f * tk)) <= m * (tk + 1_000_000)
        }),
{
    let fm = abs(f) as int;
    let am = (fm * 1_000_000) / m;
    let dvm = (am * tk) / 1_000_000;
    lemma_kick_error_nonneg(fm, m, tk);
    if f >= 0 {
        assert(accel_from_force(f, m) == am);
        assert(time_scaled(am, tk) == dvm);
        assert(abs(1_000_000 * (m * dvm) - 1_000_000 * (f * tk)) <= m * (tk + 1_000_000))
            by (nonlinear_arith)
            requires
                f == fm && 0 <= fm * tk * 1_000_000 - 1_000_000 * (m * dvm) <= m * (tk
                    + 1_000_000),
        ;
    } else {
        assert(accel_from_force(f, m) == -am);
        if am == 0 {
            assert(time_scaled(0, tk) == dvm) by {
                assert(0 * tk == am * tk);
            };
            assert(time_scaled(accel_from_force(f, m), tk) == dvm);
        } else {
            assert(time_scaled(-am, tk) == -dvm);
        }
        let dv = time_scaled(accel_from_force(f, m), tk);
        assert(abs(1_000_000 * (m * dv) - 1_000_000 * (f * tk)) <= m * (tk + 1_000_000))
            by (nonlinear_arith)
            requires
                f == -fm && (dv == -dvm || (am == 0 && dv == dvm && dvm == (0 * tk) / 1_000_000))
                    && 0 <= fm * tk * 1_000_000 - 1_000_000 * (m * dvm) <= m * (tk + 1_000_000)
                    && (am == 0 ==> dvm == (0 * tk) / 1_000_000),
        ;
    }
}

/// **Conservation of momentum (approximate).**  For a two-body system with
/// no external forces, one tick changes each component of the total
/// momentum by at most `(m0 + m1) * (tk + 1e6) / 1e6`: the exact impulses
/// cancel by Newton's third law, and only the fixed-point truncations
/// remain.  Masses and the body count are unchanged.
pub proof fn lemma_momentum_drift_per_tick(states: Seq<BodyState>, elapsed: int, factor: int)
    requires
        states.len() == 2,
        states[0].mass >= 1,
        states[1].mass >= 1,
        elapsed >= 0,
        factor >= 0,
    ensures
        tick_states(states, elapsed, factor).len() == 2,
        tick_states(states, elapsed, factor)[0].mass == states[0].mass,
        tick_states(states, elapsed, factor)[1].mass == states[1].mass,
        abs(1_000_000 * (momentum_x(tick_states(states, elapsed, factor)) - momentum_x(states)))
            <= (states[0].mass + states[1].mass) * (elapsed * factor + 1_000_000),
        abs(1_000_000 * (momentum_y(tick_states(states, elapsed, factor)) - momentum_y(states)))
            <= (states[0].mass + states[1].mass) * (elapsed * factor + 1_000_000),
        abs(1_000_000 * (momentum_z(tick_states(states, elapsed, factor)) - momentum_z(states)))
            <= (states[0].mass + states[1].mass) * (elapsed * factor + 1_000_000),
{
    let tk = elapsed * factor;
    assert(tk >= 0) by (nonlinear_arith)
        requires
            tk == elapsed * factor && elapsed >= 0 && factor >= 0,
    ;
    let after = tick_states(states, elapsed, factor);
    let proj = snap_projection(states);
    lemma_two_body_net_forces_opposite(proj);
    let f0 = net_force(proj, 0);
    let f1 = net_force(proj, 1);
    let m0 = states[0].mass;
    let m1 = states[1].mass;
    assert(after[0] == integrate_state(states[0], f0, tk));
    assert(after[1] == integrate_state(states[1], f1, tk));
    lemma_momentum_of_pair(states);
    lemma_momentum_of_pair(after);
    lemma_kick_error(f0.0, m0, tk);
    lemma_kick_error(f0.1, m0, tk);
    lemma_kick_error(f0.2, m0, tk);
    lemma_kick_error(f1.0, m1, tk);
    lemma_kick_error(f1.1, m1, tk);
    lemma_kick_error(f1.2, m1, tk);
    let dv0x = time_scaled(accel_from_force(f0.0, m0), tk);
    let dv1x = time_scaled(accel_from_force(f1.0, m1), tk);
    assert(after[0].vx == states[0].vx + dv0x && after[1].vx == states[1].vx + dv1x
        && after[0].mass == m0 && after[1].mass == m1);
    assert(abs(1_000_000 * (momentum_x(after) - momentum_x(states))) <= (m0 + m1) * (tk
        + 1_000_000)) by (nonlinear_arith)
        requires
            momentum_x(after) == m0 * (states[0].vx + dv0x) + m1 * (states[1].vx + dv1x),
            momentum_x(states) == m0 * states[0].vx + m1 * states[1].vx,
            f1.0 == -f0.0,
            abs(1_000_000 * (m0 * dv0x) - 1_000_000 * (f0.0 * tk)) <= m0 * (tk + 1_000_000),
            abs(1_000_000 * (m1 * dv1x) - 1_000_000 * (f1.0 * tk)) <= m1 * (tk + 1_000_000),
            m0 >= 1 && m1 >= 1,
    ;
    let dv0y = time_scaled(accel_from_force(f0.1, m0), tk);
    let dv1y = time_scaled(accel_from_force(f1.1, m1), tk);
    assert(after[0].vy == states[0].vy + dv0y && after[1].vy == states[1].vy + dv1y);
    assert(abs(1_000_000 * (momentum_y(after) - momentum_y(states))) <= (m0 + m1) * (tk
        + 1_000_000)) by (nonlinear_arith)
        requires
            momentum_y(after) == m0 * (states[0].vy + dv0y) + m1 * (states[1].vy + dv1y),
            momentum_y(states) == m0 * states[0].vy + m1 * states[1].vy,
            f1.1 == -f0.1,
            abs(1_000_000 * (m0 * dv0y) - 1_000_000 * (f0.1 * tk)) <= m0 * (tk + 1_000_000),
            abs(1_000_000 * (m1 * dv1y) - 1_000_000 * (f1.1 * tk)) <= m1 * (tk + 1_000_000),
            m0 >= 1 && m1 >= 1,
    ;
    let dv0z = time_scaled(accel_from_force(f0.2, m0), tk);
    let dv1z = time_scaled(accel_from_force(f1.2, m1), tk);
    assert(after[0].vz == states[0].vz + dv0z && after[1].vz == states[1].vz + dv1z);
    assert(abs(1_000_000 * (momentum_z(after) - momentum_z(states))) <= (m0 + m1) * (tk
        + 1_000_000)) by (nonlinear_arith)
        requires
            momentum_z(after) == m0 * (states[0].vz + dv0z) + m1 * (states[1].vz + dv1z),
            momentum_z(states) == m0 * states[0].vz + m1 * states[1].vz,
            f1.2 == -f0.2,
            abs(1_000_000 * (m0 * dv0z) - 1_000_000 * (f0.2 * tk)) <= m0 * (tk + 1_000_000),
            abs(1_000_000 * (m1 * dv1z) - 1_000_000 * (f1.2 * tk)) <= m1 * (tk + 1_000_000),
            m0 >= 1 && m1 >= 1,
    ;
}

/// The simulation run `n` ticks forward.
pub open spec fn run_ticks(states: Seq<BodyState>, elapsed: int, factor: int, n: nat) -> Seq<
    BodyState,
>
    decreases n,
{
    if n == 0 {
        states
    } else {
        run_ticks(tick_states(states, elapsed, factor), elapsed, factor, (n - 1) as nat)
    }
}

/// **Conservation of momentum over a whole run.**  Across any number of
/// ticks of a two-body system, each component of the total momentum drifts
/// by at most `n * (m0 + m1) * (tk + 1e6)` millionths: per-tick truncation
/// error accumulates at worst linearly, and nothing else moves it.
pub proof fn lemma_momentum_conservation(states: Seq<BodyState>, elapsed: int, factor: int, n: nat)
    requires
        states.len() == 2,
        states[0].mass >= 1,
        states[1].mass >= 1,
        elapsed >= 0,
        factor >= 0,
    ensures
        run_ticks(states, elapsed, factor, n).len() == 2,
        run_ticks(states, elapsed, factor, n)[0].mass == states[0].mass,
        run_ticks(states, elapsed, factor, n)[1].mass == states[1].mass,
        abs(1_000_000 * (momentum_x(run_ticks(states, elapsed, factor, n)) - momentum_x(states)))
            <= n * ((states[0].mass + states[1].mass) * (elapsed * factor + 1_000_000)),
        abs(1_000_000 * (momentum_y(run_ticks(states, elapsed, factor, n)) - momentum_y(states)))
            <= n * ((states[0].mass + states[1].mass) * (elapsed * factor + 1_000_000)),
        abs(1_000_000 * (momentum_z(run_ticks(states, elapsed, factor, n)) - momentum_z(states)))
            <= n * ((states[0].mass + states[1].mass) * (elapsed * factor + 1_000_000)),
    decreases n,
{
    let bound = (states[0].mass + states[1].mass) * (elapsed * factor + 1_000_000);
    assert(bound >= 0) by (nonlinear_arith)
        requires
            states[0].mass >= 1 && states[1].mass >= 1 && elapsed >= 0 && factor >= 0
                && bound == (states[0].mass + states[1].mass) * (elapsed * factor + 1_000_000),
    ;
    if n == 0 {
        assert(n * bound == 0) by (nonlinear_arith)
            requires
                n == 0,
        ;
    } else {
        let mid = tick_states(states, elapsed, factor);
        lemma_momentum_drift_per_tick(states, elapsed, factor);
        lemma_momentum_conservation(mid, elapsed, factor, (n - 1) as nat);
        let fin = run_ticks(states, elapsed, factor, n);
        assert(fin == run_ticks(mid, elapsed, factor, (n - 1) as nat));
        assert(abs(1_000_000 * (momentum_x(fin) - momentum_x(states))) <= n * bound)
            by (nonlinear_arith)
            requires
                abs(1_000_000 * (momentum_x(fin) - momentum_x(mid))) <= (n - 1) * bound,
                abs(1_000_000 * (momentum_x(mid) - momentum_x(states))) <= bound,
                n >= 1 && bound >= 0,
        ;
        assert(abs(1_000_000 * (momentum_y(fin) - momentum_y(states))) <= n * bound)
            by (nonlinear_arith)
            requires
                abs(1_000_000 * (momentum_y(fin) - momentum_y(mid))) <= (n - 1) * bound,
                abs(1_000_000 * (momentum_y(mid) - momentum_y(states))) <= bound,
                n >= 1 && bound >= 0,
        ;
        assert(abs(1_000_000 * (momentum_z(fin) - momentum_z(states))) <= n * bound)
            by (nonlinear_arith)
            requires
                abs(1_000_000 * (momentum_z(fin) - momentum_z(mid))) <= (n - 1) * bound,
                abs(1_000_000 * (momentum_z(mid) - momentum_z(states))) <= bound,
                n >= 1 && bound >= 0,
        ;
    }
}

} // verus!
