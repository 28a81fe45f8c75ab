//! Library-wide laws, stated and proved over the same spec functions the
//! executable functions' contracts use.

use vstd::prelude::*;
use crate::catalog::Creature;
use crate::snapshot::{Scan, SnapshotModel};
use crate::ledger::{count_scanned, four_of_a_kind, my_scans, within_cap, TYPE_CAP};
use crate::planner::{
    escape_target, step_agent, step_command, AgentModel, Command, ESCAPE_MAX, ESCAPE_MIN,
    SURFACE_Y,
};

verus! {

/// A ledger accepted by the cap check keeps every per-type distinct-id
/// count within the per-type cap; a ledger that would exceed it is flagged
/// by `ledger_within_cap` before it reaches the motion planner.
pub proof fn lemma_counts_within_cap(catalog: Seq<Creature>, scans: Seq<Scan>)
    requires
        within_cap(catalog, scans),
    ensures
        count_scanned(catalog, scans, crate::catalog::CreatureType::Type0) <= TYPE_CAP as nat,
        count_scanned(catalog, scans, crate::catalog::CreatureType::Type1) <= TYPE_CAP as nat,
        count_scanned(catalog, scans, crate::catalog::CreatureType::Type2) <= TYPE_CAP as nat,
{
}

/// Four-of-a-kind holds exactly when some collectible type's distinct-id
/// count equals the cap, and fails exactly when every count is strictly
/// below the cap, for every ledger within the cap.
pub proof fn lemma_four_of_a_kind_iff(catalog: Seq<Creature>, scans: Seq<Scan>)
    requires
        within_cap(catalog, scans),
    ensures
        four_of_a_kind(catalog, scans) <==> (count_scanned(
            catalog,
            scans,
            crate::catalog::CreatureType::Type0,
        ) == TYPE_CAP as nat || count_scanned(
            catalog,
            scans,
            crate::catalog::CreatureType::Type1,
        ) == TYPE_CAP as nat || count_scanned(
            catalog,
            scans,
            crate::catalog::CreatureType::Type2,
        ) == TYPE_CAP as nat),
        !four_of_a_kind(catalog, scans) <==> (count_scanned(
            catalog,
            scans,
            crate::catalog::CreatureType::Type0,
        ) < TYPE_CAP as nat && count_scanned(
            catalog,
            scans,
            crate::catalog::CreatureType::Type1,
        ) < TYPE_CAP as nat && count_scanned(
            catalog,
            scans,
            crate::catalog::CreatureType::Type2,
        ) < TYPE_CAP as nat),
{
}

/// The escape target lies within the safe interior [500, 9500] on both
/// axes, whatever the drone's and the monster's positions.
pub proof fn lemma_escape_target_in_bounds(px: int, py: int, mx: int, my_: int)
    ensures
        ESCAPE_MIN <= escape_target(px, py, mx, my_).0 <= ESCAPE_MAX,
        ESCAPE_MIN <= escape_target(px, py, mx, my_).1 <= ESCAPE_MAX,
{
}

/// Cargo return strictly dominates escape: when four-of-a-kind holds this
/// turn, or a save was already committed, the emitted destination is the
/// surface rendezvous above the drone's current position with the light
/// forced off, whatever monsters are sensed and whatever escape state the
/// agent carries.
pub proof fn lemma_save_overrides_escape(
    pre: AgentModel,
    snap: SnapshotModel,
    catalog: Seq<Creature>,
    base_y: i32,
)
    requires
        four_of_a_kind(catalog, my_scans(snap)) || pre.will_save,
    ensures
        step_command(pre, snap, catalog, base_y) == (Command {
            x: pre.drone_state.drone_x,
            y: SURFACE_Y,
            light: false,
        }),
{
}

/// Determinism of the decision: the motion planner is a pure function of
/// the agent's persistent memory, the snapshot, the catalog and the sweep
/// wave height. Identical persistent state and identical inputs produce an
/// identical command and identical next memory, however often the step is
/// taken.
pub proof fn lemma_decision_deterministic(
    a: AgentModel,
    b: AgentModel,
    snap_a: SnapshotModel,
    snap_b: SnapshotModel,
    catalog_a: Seq<Creature>,
    catalog_b: Seq<Creature>,
    base_y_a: i32,
    base_y_b: i32,
)
    requires
        a == b,
        snap_a == snap_b,
        catalog_a == catalog_b,
        base_y_a == base_y_b,
    ensures
        step_command(a, snap_a, catalog_a, base_y_a) == step_command(
            b,
            snap_b,
            catalog_b,
            base_y_b,
        ),
        step_agent(a, snap_a, catalog_a, base_y_a) == step_agent(b, snap_b, catalog_b, base_y_b),
{
}

} // verus!
