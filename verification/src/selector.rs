//! Target Selector: picks which outstanding creature type(s) to prioritize
//! and surfaces them as an ordered id list, consumed per drone by index.

use vstd::prelude::*;
use crate::catalog::{Creature, CreatureType};
use crate::snapshot::{GameState, Scan};
use crate::ledger::{my_scans, scanned_by, scans_contain};

verus! {

/// Number of catalog entries of the given type that the ledger does not
/// cover yet: the type's remaining count.
pub open spec fn count_remaining(catalog: Seq<Creature>, scans: Seq<Scan>, t: CreatureType) -> nat
    decreases catalog.len(),
{
    if catalog.len() == 0 {
        0
    } else {
        count_remaining(catalog.drop_last(), scans, t) + if catalog.last().creature_type == t
            && !scanned_by(scans, catalog.last().id) {
            1nat
        } else {
            0nat
        }
    }
}

/// The smallest remaining count over the three collectible types.
pub open spec fn min_remaining(catalog: Seq<Creature>, scans: Seq<Scan>) -> nat {
    let a = count_remaining(catalog, scans, CreatureType::Type0);
    let b = count_remaining(catalog, scans, CreatureType::Type1);
    let c = count_remaining(catalog, scans, CreatureType::Type2);
    if a <= b && a <= c {
        a
    } else if b <= c {
        b
    } else {
        c
    }
}

/// Whether a catalog entry belongs to the selector's preference list: a
/// collectible creature, not yet scanned by the team, of a type whose
/// remaining count is minimal. With a strict minimum this is one type's
/// remaining creatures; on a tie it is the union of the tied types'.
pub open spec fn is_mvp_entry(catalog: Seq<Creature>, scans: Seq<Scan>, c: Creature) -> bool {
    &&& c.creature_type != CreatureType::Monster
    &&& !scanned_by(scans, c.id)
    &&& count_remaining(catalog, scans, c.creature_type) == min_remaining(catalog, scans)
}

/// The ordered preference list: ids of the selected remaining creatures,
/// in catalog order.
pub open spec fn mvp_ids(catalog: Seq<Creature>, scans: Seq<Scan>) -> Seq<i32> {
    catalog.filter(|c: Creature| is_mvp_entry(catalog, scans, c)).map_values(|c: Creature| c.id)
}

impl GameState {
    /// The preference list of creature ids for this turn: the remaining
    /// creatures of the type(s) with the smallest remaining count, in
    /// catalog order. Each owned drone consumes this by its own index.
    pub fn get_mvp(&self, creatures: &Vec<Creature>) -> (r: Vec<i32>)
        ensures
            r@ == mvp_ids(creatures@, my_scans(self@)),
    {
        let fishes = self.get_my_drones_scan();

        let mut r0: usize = 0;
        let mut r1: usize = 0;
        let mut r2: usize = 0;
        let mut i: usize = 0;
        while i < creatures.len()
            invariant
                0 <= i <= creatures@.len(),
                r0 <= i && r1 <= i && r2 <= i,
                fishes@ == my_scans(self@),
                r0 == count_remaining(creatures@.take(i as int), fishes@, CreatureType::Type0),
                r1 == count_remaining(creatures@.take(i as int), fishes@, CreatureType::Type1),
                r2 == count_remaining(creatures@.take(i as int), fishes@, CreatureType::Type2),
            decreases creatures@.len() - i,
        {
            let entry = creatures[i];
            let covered = scans_contain(&fishes, entry.id);
            if !covered {
                match entry.creature_type {
                    CreatureType::Type0 => { r0 = r0 + 1; }
                    CreatureType::Type1 => { r1 = r1 + 1; }
                    CreatureType::Type2 => { r2 = r2 + 1; }
                    CreatureType::Monster => {}
                }
            }
            proof {
                assert(creatures@.take(i + 1).drop_last() =~= creatures@.take(i as int));
                assert(creatures@.take(i + 1).last() == creatures@[i as int]);
            }
            i = i + 1;
        }
        proof {
            assert(creatures@.take(creatures@.len() as int) =~= creatures@);
        }

        let mut min: usize = r0;
        if r1 < min {
            min = r1;
        }
        if r2 < min {
            min = r2;
        }
        proof {
            assert(min == min_remaining(creatures@, fishes@));
        }

        let mut out: Vec<i32> = Vec::new();
        let mut i: usize = 0;
        while i < creatures.len()
            invariant
                0 <= i <= creatures@.len(),
                fishes@ == my_scans(self@),
                min == min_remaining(creatures@, fishes@),
                r0 == count_remaining(creatures@, fishes@, CreatureType::Type0),
                r1 == count_remaining(creatures@, fishes@, CreatureType::Type1),
                r2 == count_remaining(creatures@, fishes@, CreatureType::Type2),
                out@ == creatures@.take(i as int).filter(
                    |c: Creature| is_mvp_entry(creatures@, fishes@, c),
                ).map_values(|c: Creature| c.id),
            decreases creatures@.len() - i,
        {
            let entry = creatures[i];
            let covered = scans_contain(&fishes, entry.id);
            let selected: bool = if covered {
                false
            } else {
                match entry.creature_type {
                    CreatureType::Type0 => r0 == min,
                    CreatureType::Type1 => r1 == min,
                    CreatureType::Type2 => r2 == min,
                    CreatureType::Monster => false,
                }
            };
            proof {
                assert(selected == is_mvp_entry(creatures@, fishes@, creatures@[i as int]));
            }
            if selected {
                out.push(entry.id);
            }
            proof {
                reveal(Seq::filter);
                assert(creatures@.take(i + 1).drop_last() =~= creatures@.take(i as int));
                assert(creatures@.take(i + 1).last() == creatures@[i as int]);
                let pred = |c: Creature| is_mvp_entry(creatures@, fishes@, c);
                let f = |c: Creature| c.id;
                assert(creatures@.take(i + 1).filter(pred).map_values(f) =~= if selected {
                    creatures@.take(i as int).filter(pred).map_values(f).push(entry.id)
                } else {
                    creatures@.take(i as int).filter(pred).map_values(f)
                });
            }
            i = i + 1;
        }
        proof {
            assert(creatures@.take(creatures@.len() as int) =~= creatures@);
        }
        out
    }
}

} // verus!
