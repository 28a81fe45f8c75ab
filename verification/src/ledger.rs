//! Scan ledger queries: ownership filtering, per-type counting of distinct
//! scanned creatures, and four-of-a-kind (cap reached) detection.

use vstd::prelude::*;
use crate::catalog::{Creature, CreatureType, catalog_ids_unique, in_catalog};
use crate::snapshot::{GameState, Scan, SnapshotModel, is_my_drone_id};

verus! {

/// Per-type cap: the number of creatures of one type in the catalog. A
/// team's distinct scanned ids of a type never exceed it in a valid feed.
pub const TYPE_CAP: usize = 4;

/// Whether some record in the ledger covers the given creature id.
pub open spec fn scanned_by(scans: Seq<Scan>, cid: i32) -> bool {
    exists|i: int| 0 <= i < scans.len() && scans[i].creature_id == cid
}

/// Number of catalog entries of the given type whose creature id the ledger
/// covers. On a catalog with unique ids this is the count of distinct
/// scanned creature ids of that type.
pub open spec fn count_scanned(catalog: Seq<Creature>, scans: Seq<Scan>, t: CreatureType) -> nat
    decreases catalog.len(),
{
    if catalog.len() == 0 {
        0
    } else {
        count_scanned(catalog.drop_last(), scans, t) + if catalog.last().creature_type == t
            && scanned_by(scans, catalog.last().id) {
            1nat
        } else {
            0nat
        }
    }
}

/// The ledger invariant: no collectible type's distinct-id count exceeds
/// the per-type cap.
pub open spec fn within_cap(catalog: Seq<Creature>, scans: Seq<Scan>) -> bool {
    &&& count_scanned(catalog, scans, CreatureType::Type0) <= TYPE_CAP as nat
    &&& count_scanned(catalog, scans, CreatureType::Type1) <= TYPE_CAP as nat
    &&& count_scanned(catalog, scans, CreatureType::Type2) <= TYPE_CAP as nat
}

/// Four-of-a-kind: some collectible type's distinct-id count equals the cap.
pub open spec fn four_of_a_kind(catalog: Seq<Creature>, scans: Seq<Scan>) -> bool {
    ||| count_scanned(catalog, scans, CreatureType::Type0) == TYPE_CAP as nat
    ||| count_scanned(catalog, scans, CreatureType::Type1) == TYPE_CAP as nat
    ||| count_scanned(catalog, scans, CreatureType::Type2) == TYPE_CAP as nat
}

/// The records of the snapshot's ledger whose drone belongs to the owning
/// team, in ledger order.
pub open spec fn my_scans(snap: SnapshotModel) -> Seq<Scan> {
    snap.drone_scan.filter(|s: Scan| is_my_drone_id(snap, s.drone_id))
}

/// Whether some record in the ledger covers the given creature id.
pub fn scans_contain(records: &Vec<Scan>, cid: i32) -> (r: bool)
    ensures
        r == scanned_by(records@, cid),
{
    let mut i: usize = 0;
    while i < records.len()
        invariant
            0 <= i <= records@.len(),
            forall|j: int| 0 <= j < i ==> records@[j].creature_id != cid,
        decreases records@.len() - i,
    {
        if records[i].creature_id == cid {
            proof {
                assert(scanned_by(records@, cid)) by {
                    assert(records@[i as int].creature_id == cid);
                }
            }
            return true;
        }
        i = i + 1;
    }
    false
}

/// Distinct-id counts per collectible type, as (Type0, Type1, Type2).
pub fn counts_by_type(records: &Vec<Scan>, catalog: &Vec<Creature>) -> (r: (usize, usize, usize))
    ensures
        r.0 == count_scanned(catalog@, records@, CreatureType::Type0),
        r.1 == count_scanned(catalog@, records@, CreatureType::Type1),
        r.2 == count_scanned(catalog@, records@, CreatureType::Type2),
{
    let mut a: usize = 0;
    let mut b: usize = 0;
    let mut c: usize = 0;
    let mut i: usize = 0;
    while i < catalog.len()
        invariant
            0 <= i <= catalog@.len(),
            a <= i && b <= i && c <= i,
            a == count_scanned(catalog@.take(i as int), records@, CreatureType::Type0),
            b == count_scanned(catalog@.take(i as int), records@, CreatureType::Type1),
            c == count_scanned(catalog@.take(i as int), records@, CreatureType::Type2),
        decreases catalog@.len() - i,
    {
        let entry = catalog[i];
        let covered = scans_contain(records, entry.id);
        if covered {
            match entry.creature_type {
                CreatureType::Type0 => { a = a + 1; }
                CreatureType::Type1 => { b = b + 1; }
                CreatureType::Type2 => { c = c + 1; }
                CreatureType::Monster => {}
            }
        }
        proof {
            assert(catalog@.take(i + 1).drop_last() =~= catalog@.take(i as int));
            assert(catalog@.take(i + 1).last() == catalog@[i as int]);
        }
        i = i + 1;
    }
    proof {
        assert(catalog@.take(catalog@.len() as int) =~= catalog@);
    }
    (a, b, c)
}

/// Checks the ledger invariant: flags a ledger whose distinct-id count
/// exceeds the per-type cap for some type, so that such data is rejected
/// before it reaches the motion planner.
pub fn ledger_within_cap(records: &Vec<Scan>, catalog: &Vec<Creature>) -> (r: bool)
    ensures
        r == within_cap(catalog@, records@),
{
    let (a, b, c) = counts_by_type(records, catalog);
    a <= TYPE_CAP && b <= TYPE_CAP && c <= TYPE_CAP
}

impl GameState {
    /// Data-integrity conditions guaranteed by a well-formed upstream feed:
    /// the catalog is keyed by unique ids, every creature the team scanned
    /// is in the catalog, and no per-type count exceeds the cap. A feed
    /// violating these is fatal and never reaches the decision logic.
    pub open spec fn ledger_ok(self, catalog: Seq<Creature>) -> bool {
        &&& catalog_ids_unique(catalog)
        &&& forall|i: int|
            0 <= i < my_scans(self@).len() ==> in_catalog(
                catalog,
                #[trigger] my_scans(self@)[i].creature_id,
            )
        &&& within_cap(catalog, my_scans(self@))
    }

    /// The scan records of one drone, in ledger order.
    pub fn get_drone_scan(&self, drone_id: i32) -> (r: Vec<Scan>)
        ensures
            r@ == self@.drone_scan.filter(|s: Scan| s.drone_id == drone_id),
    {
        let mut out: Vec<Scan> = Vec::new();
        let mut i: usize = 0;
        while i < self.drone_scan.len()
            invariant
                0 <= i <= self@.drone_scan.len(),
                out@ == self@.drone_scan.take(i as int).filter(|s: Scan| s.drone_id == drone_id),
            decreases self@.drone_scan.len() - i,
        {
            let s = self.drone_scan[i];
            if s.drone_id == drone_id {
                out.push(s);
            }
            proof {
                reveal(Seq::filter);
                assert(self@.drone_scan.take(i + 1).drop_last() =~= self@.drone_scan.take(i as int));
                assert(self@.drone_scan.take(i + 1).last() == self@.drone_scan[i as int]);
            }
            i = i + 1;
        }
        proof {
            assert(self@.drone_scan.take(self@.drone_scan.len() as int) =~= self@.drone_scan);
        }
        out
    }

    /// The scan records of the owning team's drones, in ledger order.
    pub fn get_my_drones_scan(&self) -> (r: Vec<Scan>)
        ensures
            r@ == my_scans(self@),
    {
        let mut out: Vec<Scan> = Vec::new();
        let mut i: usize = 0;
        while i < self.drone_scan.len()
            invariant
                0 <= i <= self@.drone_scan.len(),
                out@ == self@.drone_scan.take(i as int).filter(
                    |s: Scan| is_my_drone_id(self@, s.drone_id),
                ),
            decreases self@.drone_scan.len() - i,
        {
            let s = self.drone_scan[i];
            if self.owns_drone(s.drone_id) {
                out.push(s);
            }
            proof {
                reveal(Seq::filter);
                assert(self@.drone_scan.take(i + 1).drop_last() =~= self@.drone_scan.take(i as int));
                assert(self@.drone_scan.take(i + 1).last() == self@.drone_scan[i as int]);
            }
            i = i + 1;
        }
        proof {
            assert(self@.drone_scan.take(self@.drone_scan.len() as int) =~= self@.drone_scan);
        }
        out
    }

    /// Four-of-a-kind detection over a ledger. A ledger that violates the
    /// per-type cap, or that covers a creature id absent from the catalog,
    /// is a fatal data-integrity error and is excluded here; `ledger_within_cap`
    /// flags such data first.
    pub fn is_four_of_a_kind(&self, fishes: &Vec<Scan>, creatures: &Vec<Creature>) -> (r: bool)
        requires
            catalog_ids_unique(creatures@),
            forall|i: int|
                0 <= i < fishes@.len() ==> in_catalog(
                    creatures@,
                    #[trigger] fishes@[i].creature_id,
                ),
            within_cap(creatures@, fishes@),
        ensures
            r == four_of_a_kind(creatures@, fishes@),
    {
        let (a, b, c) = counts_by_type(fishes, creatures);
        a >= TYPE_CAP || b >= TYPE_CAP || c >= TYPE_CAP
    }

    /// Whether the team has to return cargo: true exactly when its own scan
    /// ledger has reached four-of-a-kind.
    pub fn do_i_need_to_save(&self, creatures: &Vec<Creature>) -> (r: bool)
        requires
            self.ledger_ok(creatures@),
        ensures
            r == four_of_a_kind(creatures@, my_scans(self@)),
    {
        let fishes = self.get_my_drones_scan();
        self.is_four_of_a_kind(&fishes, creatures)
    }
}

} // verus!
