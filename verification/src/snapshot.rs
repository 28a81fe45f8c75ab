//! The immutable per-turn snapshot: scores, scan records, drone rosters,
//! directly visible creatures, and coarse radar blips.

use vstd::prelude::*;
use crate::catalog::{Creature, is_monster_id, CreatureType, lookup_type};

verus! {

/// Physical state of one drone, refreshed every turn from the snapshot.
#[derive(Clone, Copy, PartialEq, Eq, Structural, Debug)]
pub struct Drone {
    pub drone_id: i32,
    pub drone_x: i32,
    pub drone_y: i32,
    pub emergency: i32,
    pub battery: i32,
}

/// One scan record: the given drone has scanned the given creature.
/// The ledger of these is append-only across the match.
#[derive(Clone, Copy, PartialEq, Eq, Structural, Debug)]
pub struct Scan {
    pub drone_id: i32,
    pub creature_id: i32,
}

/// Coarse bearing bucket for a creature that is not directly visible.
#[derive(Clone, Copy, PartialEq, Eq, Structural, Debug)]
pub enum Radar {
    TopLeft,
    TopRight,
    BottomLeft,
    BottomRight,
}

/// A radar blip: a quadrant-only hint for a creature relative to a drone.
#[derive(Clone, Copy, PartialEq, Eq, Structural, Debug)]
pub struct Blip {
    pub drone_id: i32,
    pub creature_id: i32,
    pub radar: Radar,
}

/// A creature within direct sensor range this turn: exact position and
/// velocity, not persisted between turns.
#[derive(Clone, Copy, PartialEq, Eq, Structural, Debug)]
pub struct VisibleCreature {
    pub creature_id: i32,
    pub creature_x: i32,
    pub creature_y: i32,
    pub creature_vx: i32,
    pub creature_vy: i32,
}

impl VisibleCreature {
    /// Whether the catalog classifies this visible creature as a monster.
    /// A creature absent from the catalog is not treated as a monster.
    pub fn is_a_monster(&self, creatures: &Vec<Creature>) -> (r: bool)
        ensures
            r == is_monster_id(creatures@, self.creature_id),
    {
        match lookup_type(creatures, self.creature_id) {
            Some(t) => t == CreatureType::Monster,
            None => false,
        }
    }
}

/// Mathematical model of a turn snapshot: every roster as a sequence.
pub ghost struct SnapshotModel {
    pub my_score: i32,
    pub foe_score: i32,
    pub my_scan: Seq<i32>,
    pub foe_scan: Seq<i32>,
    pub my_drone: Seq<Drone>,
    pub foe_drone: Seq<Drone>,
    pub drone_scan: Seq<Scan>,
    pub visible_creature: Seq<VisibleCreature>,
    pub radar_blip: Seq<Blip>,
}

/// One turn's world snapshot, read-only to every component.
pub struct GameState {
    pub my_score: i32,
    pub foe_score: i32,
    pub my_scan: Vec<i32>,
    pub foe_scan: Vec<i32>,
    pub my_drone: Vec<Drone>,
    pub foe_drone: Vec<Drone>,
    pub drone_scan: Vec<Scan>,
    pub visible_creature: Vec<VisibleCreature>,
    pub radar_blip: Vec<Blip>,
}

impl View for GameState {
    type V = SnapshotModel;

    open spec fn view(&self) -> SnapshotModel {
        SnapshotModel {
            my_score: self.my_score,
            foe_score: self.foe_score,
            my_scan: self.my_scan@,
            foe_scan: self.foe_scan@,
            my_drone: self.my_drone@,
            foe_drone: self.foe_drone@,
            drone_scan: self.drone_scan@,
            visible_creature: self.visible_creature@,
            radar_blip: self.radar_blip@,
        }
    }
}

/// Whether the given drone id belongs to the owning team's roster.
pub open spec fn is_my_drone_id(snap: SnapshotModel, drone_id: i32) -> bool {
    exists|i: int| 0 <= i < snap.my_drone.len() && snap.my_drone[i].drone_id == drone_id
}

impl GameState {
    /// Number of drones on the owning team's roster.
    pub fn get_my_drone_count(&self) -> (r: usize)
        ensures
            r == self@.my_drone.len(),
    {
        self.my_drone.len()
    }

    /// Whether the given drone id belongs to the owning team.
    pub fn owns_drone(&self, drone_id: i32) -> (r: bool)
        ensures
            r == is_my_drone_id(self@, drone_id),
    {
        let mut i: usize = 0;
        while i < self.my_drone.len()
            invariant
                0 <= i <= self.my_drone@.len(),
                forall|j: int| 0 <= j < i ==> self.my_drone@[j].drone_id != drone_id,
            decreases self.my_drone@.len() - i,
        {
            if self.my_drone[i].drone_id == drone_id {
                proof {
                    assert(is_my_drone_id(self@, drone_id)) by {
                        assert(self@.my_drone[i as int].drone_id == drone_id);
                    }
                }
                return true;
            }
            i = i + 1;
        }
        false
    }
}

} // verus!
