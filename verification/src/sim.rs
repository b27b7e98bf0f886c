//! The simulation driver: one fixed-order pass per external tick signal.
//!
//! A tick runs snapshot, force accumulation, integration and space mapping
//! to completion for every body before it returns: the snapshot freezes all
//! positions, every net force is computed from that frozen snapshot, only
//! then is any body's velocity or position advanced, and the render-space
//! coordinate of every new position is republished to the caller.
//!
//! The whole tick is summarized by the ghost function [`tick_states`], and
//! the executable [`tick`] is proved to realize it exactly.

use crate::body::{unique_names, BodyState, SolarSystemRegistry};
use crate::force::{
    accumulate_forces, net_force, snap_of_state, snap_states, snap_valid, take_snapshot, NetForce,
    SnapState,
};
use crate::integrate::{integrate_object, integrate_state};
use crate::render::{render_axis, render_position, RenderCoordinates};
use crate::{MAX_BODIES, MAX_ELAPSED_MICROS, MAX_TIME_FACTOR, PAIR_FORCE_PER_KG};
use vstd::math::abs;
use vstd::prelude::*;

verus! {

/// What the force accumulator reads of each body's ghost state.
pub open spec fn snap_projection(states: Seq<BodyState>) -> Seq<SnapState> {
    Seq::new(states.len(), |i: int| snap_of_state(states[i]))
}

/// One tick over ghost states: every body is advanced by the net force it
/// receives in the common snapshot of all bodies.
pub open spec fn tick_states(states: Seq<BodyState>, elapsed: int, factor: int) -> Seq<BodyState> {
    Seq::new(
        states.len(),
        |i: int|
            integrate_state(
                states[i],
                net_force(snap_projection(states), i),
                elapsed * factor,
            ),
    )
}

/// The net-force record that carries a given name, if any: the index of its
/// first occurrence.
fn find_force_index(forces: &Vec<NetForce>, name: &String) -> (r: Option<usize>)
    ensures
        (r matches Some(k) ==> k < forces@.len() && forces@[k as int].name@ == name@ && forall|j:
            int|
            0 <= j < k ==> forces@[j].name@ != name@),
        (r is None ==> forall|j: int| 0 <= j < forces@.len() ==> forces@[j].name@ != name@),
{
    let n = forces.len();
    let mut i: usize = 0;
    while i < n
        invariant
            n == forces@.len(),
            i <= n,
            forall|j: int| 0 <= j < i ==> forces@[j].name@ != name@,
        decreases n - i,
    {
        if forces[i].name == *name {
            return Some(i);
        }
        i = i + 1;
    }
    None
}

/// Advances the whole registry by one tick and returns the render-space
/// position of every body, in registry order.
///
/// The numeric state afterwards is exactly [`tick_states`] of the state
/// before; names, masses and the rendering-only fields are untouched.
#[verifier::loop_isolation(false)]
pub fn tick(reg: &mut SolarSystemRegistry, elapsed_micros: u64, time_factor: u64) -> (renders: Vec<
    RenderCoordinates,
>)
    requires
        old(reg).wf(),
        elapsed_micros <= MAX_ELAPSED_MICROS,
        1 <= time_factor <= MAX_TIME_FACTOR,
    ensures
        final(reg).objects@.len() == old(reg).objects@.len(),
        crate::body::states_of(final(reg).objects@) == tick_states(
            crate::body::states_of(old(reg).objects@),
            elapsed_micros as int,
            time_factor as int,
        ),
        forall|j: int|
            0 <= j < old(reg).objects@.len() ==> {
                let before = old(reg).objects@[j];
                let after = #[trigger] final(reg).objects@[j];
                after.name@ == before.name@ && after.mass_kg == before.mass_kg
                    && after.spin == before.spin && after.tilt == before.tilt
                    && after.optimal_camera_distance == before.optimal_camera_distance
            },
        unique_names(final(reg).objects@),
        renders@.len() == old(reg).objects@.len(),
        forall|j: int|
            0 <= j < old(reg).objects@.len() ==> (#[trigger] renders@[j]).x == render_axis(
                final(reg).objects@[j].position_x as int,
            ) && renders@[j].y == render_axis(final(reg).objects@[j].position_y as int)
                && renders@[j].z == render_axis(final(reg).objects@[j].position_z as int),
{
    let ghost orig = old(reg).objects@;
    let ghost orig_states = crate::body::states_of(orig);
    let ghost tk: int = elapsed_micros as int * time_factor as int;
    let snapshot = take_snapshot(&reg.objects);
    proof {
        assert forall|k: int| 0 <= k < snapshot@.len() implies snap_valid(
            (#[trigger] snapshot@[k]).state(),
        ) by {
            assert(orig[k].valid());
        }
        assert(snap_states(snapshot@) =~= snap_projection(orig_states));
    }
    let forces = accumulate_forces(&snapshot);
    let n = reg.objects.len();
    let mut renders: Vec<RenderCoordinates> = Vec::new();
    let mut i: usize = 0;
    while i < n
        invariant
            i <= n,
            reg.objects@.len() == n,
            renders@.len() == i,
            forall|j: int| i <= j < n ==> reg.objects@[j] == orig[j],
            forall|j: int|
                0 <= j < i ==> (#[trigger] reg.objects@[j]).state() == integrate_state(
                    orig_states[j],
                    net_force(snap_projection(orig_states), j),
                    tk,
                ),
            forall|j: int|
                0 <= j < i ==> (#[trigger] reg.objects@[j]).spin == orig[j].spin
                    && reg.objects@[j].tilt == orig[j].tilt
                    && reg.objects@[j].optimal_camera_distance == orig[j].optimal_camera_distance,
            forall|j: int|
                0 <= j < i ==> (#[trigger] renders@[j]).x == render_axis(
                    reg.objects@[j].position_x as int,
                ) && renders@[j].y == render_axis(reg.objects@[j].position_y as int)
                    && renders@[j].z == render_axis(reg.objects@[j].position_z as int),
        decreases n - i,
    {
        let found = find_force_index(&forces, &reg.objects[i].name);
        match found {
            Some(k) => {
                proof {
                    assert(snapshot@[k as int].name@ == orig[k as int].name@);
                    assert(forces@[k as int].name@ == orig[k as int].name@);
                    assert(forces@[i as int].name@ == orig[i as int].name@);
                    if k != i {
                        assert(orig[k as int].name@ != orig[i as int].name@);
                        assert(false);
                    }
                    assert(forces@[i as int].force_x == net_force(
                        snap_projection(orig_states),
                        i as int,
                    ).0);
                    assert(abs(forces@[i as int].force_x as int) <= MAX_BODIES * (
                    orig[i as int].mass_kg * PAIR_FORCE_PER_KG)) by (nonlinear_arith)
                        requires
                            abs(forces@[i as int].force_x as int) <= snapshot@.len() * (
                            orig[i as int].mass_kg * PAIR_FORCE_PER_KG),
                            snapshot@.len() <= MAX_BODIES,
                            orig[i as int].mass_kg >= 0,
                    ;
                    assert(abs(forces@[i as int].force_y as int) <= MAX_BODIES * (
                    orig[i as int].mass_kg * PAIR_FORCE_PER_KG)) by (nonlinear_arith)
                        requires
                            abs(forces@[i as int].force_y as int) <= snapshot@.len() * (
                            orig[i as int].mass_kg * PAIR_FORCE_PER_KG),
                            snapshot@.len() <= MAX_BODIES,
                            orig[i as int].mass_kg >= 0,
                    ;
                    assert(abs(forces@[i as int].force_z as int) <= MAX_BODIES * (
                    orig[i as int].mass_kg * PAIR_FORCE_PER_KG)) by (nonlinear_arith)
                        requires
                            abs(forces@[i as int].force_z as int) <= snapshot@.len() * (
                            orig[i as int].mass_kg * PAIR_FORCE_PER_KG),
                            snapshot@.len() <= MAX_BODIES,
                            orig[i as int].mass_kg >= 0,
                    ;
                }
                let rec_x = forces[k].force_x;
                let rec_y = forces[k].force_y;
                let rec_z = forces[k].force_z;
                let updated = integrate_object(
                    &reg.objects[i],
                    rec_x,
                    rec_y,
                    rec_z,
                    elapsed_micros,
                    time_factor,
                );
                let rc = render_position(&updated);
                reg.objects.set(i, updated);
                renders.push(rc);
            },
            None => {
                // The accumulator writes one record per body under that
                // body's own name, so under the registry invariant this
                // lookup cannot miss; the body is left unchanged and its
                // current coordinate republished (partial-failure
                // tolerance rather than a crash).
                proof {
                    assert(forces@[i as int].name@ == orig[i as int].name@);
                    assert(false);
                }
                let rc = render_position(&reg.objects[i]);
                renders.push(rc);
            },
        }
        i = i + 1;
    }
    proof {
        assert(crate::body::states_of(reg.objects@) =~= tick_states(orig_states, elapsed_micros as int, time_factor as int));
    }
    renders
}

} // verus!
