//! The body registry: the authoritative set of simulated bodies and their
//! physical state, together with the ghost model the contracts speak of.
//!
//! A body's numeric state is mirrored by [`BodyState`], a ghost record of
//! unbounded integers.  Every contract about a tick is stated over
//! `BodyState` sequences, so the simulation's behaviour has a single
//! mathematical description that the laws in [`crate::laws`] build on.

use crate::{MAX_BODIES, MAX_COORDINATE_NANO, MAX_MASS_KG, MAX_SPEED_NANO};
use vstd::prelude::*;

verus! {

/// One simulated celestial object.
///
/// Positions, velocities and accelerations are in nano-SI units
/// (1e-9 m, m/s, m/s^2); the mass is in whole kilograms.  `spin`, `tilt`
/// and `optimal_camera_distance` are carried for the rendering and camera
/// collaborators in milli-units and are never touched by the physics.
pub struct SolarSystemObjectData {
    /// Stable identifier, unique within a registry.
    pub name: String,
    /// Mass in kilograms; positive.
    pub mass_kg: u128,
    pub position_x: i128,
    pub position_y: i128,
    pub position_z: i128,
    pub speed_x: i128,
    pub speed_y: i128,
    pub speed_z: i128,
    /// Recomputed every tick from the net force; diagnostic state.
    pub acceleration_x: i128,
    pub acceleration_y: i128,
    pub acceleration_z: i128,
    /// Spin rate for the rendering collaborator, milli-radians per second.
    pub spin: i64,
    /// Axial tilt for the rendering collaborator, milli-degrees.
    pub tilt: i64,
    /// Optimal viewing distance for the camera collaborator, milli-units.
    pub optimal_camera_distance: i64,
}

/// Ghost mirror of a body's numeric state, over unbounded integers.
pub struct BodyState {
    pub name: Seq<char>,
    pub mass: int,
    pub px: int,
    pub py: int,
    pub pz: int,
    pub vx: int,
    pub vy: int,
    pub vz: int,
    pub ax: int,
    pub ay: int,
    pub az: int,
}

impl SolarSystemObjectData {
    /// The ghost state this body holds.
    pub open spec fn state(self) -> BodyState {
        BodyState {
            name: self.name@,
            mass: self.mass_kg as int,
            px: self.position_x as int,
            py: self.position_y as int,
            pz: self.position_z as int,
            vx: self.speed_x as int,
            vy: self.speed_y as int,
            vz: self.speed_z as int,
            ax: self.acceleration_x as int,
            ay: self.acceleration_y as int,
            az: self.acceleration_z as int,
        }
    }

    /// Ranges under which one tick of the simulation is free of overflow.
    pub open spec fn valid(self) -> bool {
        &&& 1 <= self.mass_kg <= MAX_MASS_KG
        &&& -MAX_COORDINATE_NANO <= self.position_x <= MAX_COORDINATE_NANO
        &&& -MAX_COORDINATE_NANO <= self.position_y <= MAX_COORDINATE_NANO
        &&& -MAX_COORDINATE_NANO <= self.position_z <= MAX_COORDINATE_NANO
        &&& -MAX_SPEED_NANO <= self.speed_x <= MAX_SPEED_NANO
        &&& -MAX_SPEED_NANO <= self.speed_y <= MAX_SPEED_NANO
        &&& -MAX_SPEED_NANO <= self.speed_z <= MAX_SPEED_NANO
    }

    /// Executable check of [`Self::valid`].
    pub fn is_valid(&self) -> (r: bool)
        ensures
            r == self.valid(),
    {
        self.mass_kg >= 1 && self.mass_kg <= MAX_MASS_KG
            && self.position_x >= -MAX_COORDINATE_NANO && self.position_x <= MAX_COORDINATE_NANO
            && self.position_y >= -MAX_COORDINATE_NANO && self.position_y <= MAX_COORDINATE_NANO
            && self.position_z >= -MAX_COORDINATE_NANO && self.position_z <= MAX_COORDINATE_NANO
            && self.speed_x >= -MAX_SPEED_NANO && self.speed_x <= MAX_SPEED_NANO
            && self.speed_y >= -MAX_SPEED_NANO && self.speed_y <= MAX_SPEED_NANO
            && self.speed_z >= -MAX_SPEED_NANO && self.speed_z <= MAX_SPEED_NANO
    }
}

/// The ghost states of a sequence of bodies, in registry order.
pub open spec fn states_of(objs: Seq<SolarSystemObjectData>) -> Seq<BodyState> {
    Seq::new(objs.len(), |i: int| objs[i].state())
}

/// No two bodies share a name.
pub open spec fn unique_names(objs: Seq<SolarSystemObjectData>) -> bool {
    forall|i: int, j: int|
        0 <= i < j < objs.len() ==> objs[i].name@ != objs[j].name@
}

/// The ordered, stably-iterable collection of simulated bodies.
///
/// All bodies are added once at simulation start; the registry is then
/// mutated in place, tick after tick, by [`crate::sim::tick`].
pub struct SolarSystemRegistry {
    pub objects: Vec<SolarSystemObjectData>,
}

impl SolarSystemRegistry {
    /// Registry invariant: few enough bodies, unique names, all state in
    /// range.
    pub open spec fn wf(self) -> bool {
        &&& self.objects@.len() <= MAX_BODIES
        &&& unique_names(self.objects@)
        &&& forall|i: int| 0 <= i < self.objects@.len() ==> self.objects@[i].valid()
    }

    /// An empty registry.
    pub fn new() -> (r: Self)
        ensures
            r.wf(),
            r.objects@.len() == 0,
    {
        SolarSystemRegistry { objects: Vec::new() }
    }

    /// Number of registered bodies.
    pub fn len(&self) -> (n: usize)
        ensures
            n == self.objects@.len(),
    {
        self.objects.len()
    }

    /// Read access to one body, for snapshotting and for the camera
    /// collaborator.
    pub fn get(&self, i: usize) -> (o: &SolarSystemObjectData)
        requires
            i < self.objects@.len(),
        ensures
            *o == self.objects@[i as int],
    {
        &self.objects[i]
    }

    /// Whether a body of this name is registered.
    pub fn contains_name(&self, name: &String) -> (r: bool)
        ensures
            r == exists|i: int| 0 <= i < self.objects@.len() && self.objects@[i].name@ == name@,
    {
        let n = self.objects.len();
        let mut i: usize = 0;
        while i < n
            invariant
                n == self.objects@.len(),
                i <= n,
                forall|j: int| 0 <= j < i ==> self.objects@[j].name@ != name@,
            decreases n - i,
        {
            if self.objects[i].name == *name {
                return true;
            }
            i = i + 1;
        }
        false
    }

    /// Executable check of the registry invariant [`Self::wf`], for
    /// callers that assemble or mutate state outside the verified tick.
    pub fn is_well_formed(&self) -> (r: bool)
        ensures
            r == self.wf(),
    {
        let n = self.objects.len();
        if n > MAX_BODIES {
            return false;
        }
        let mut i: usize = 0;
        while i < n
            invariant
                n == self.objects@.len() <= MAX_BODIES,
                i <= n,
                forall|k: int| 0 <= k < i ==> self.objects@[k].valid(),
                forall|k: int, l: int|
                    0 <= k < l < n && l < i ==> self.objects@[k].name@ != self.objects@[l].name@,
            decreases n - i,
        {
            if !self.objects[i].is_valid() {
                return false;
            }
            let mut j: usize = 0;
            while j < i
                invariant
                    n == self.objects@.len(),
                    i < n,
                    j <= i,
                    forall|k: int| 0 <= k < j ==> self.objects@[k].name@ != self.objects@[i as int].name@,
                decreases i - j,
            {
                if self.objects[j].name == self.objects[i].name {
                    return false;
                }
                j = j + 1;
            }
            i = i + 1;
        }
        true
    }

    /// Adds a body.  Succeeds exactly when the registry has room, the
    /// body's state is in range, and its name is not yet taken; a rejected
    /// body leaves the registry unchanged.
    pub fn add_object(&mut self, obj: SolarSystemObjectData) -> (added: bool)
        requires
            old(self).wf(),
        ensures
            final(self).wf(),
            added <==> (old(self).objects@.len() < MAX_BODIES && obj.valid() && !(exists|i: int|
                0 <= i < old(self).objects@.len() && old(self).objects@[i].name@ == obj.name@)),
            added ==> final(self).objects@ == old(self).objects@.push(obj),
            !added ==> final(self).objects@ == old(self).objects@,
    {
        if self.objects.len() >= MAX_BODIES {
            return false;
        }
        if !obj.is_valid() {
            return false;
        }
        if self.contains_name(&obj.name) {
            return false;
        }
        self.objects.push(obj);
        true
    }
}

} // verus!
