//! The Drone Agent and Motion Planner: persistent per-drone decision memory
//! and the priority chain that resolves one movement command per turn.
//!
//! The priority order, later stages overriding earlier ones, is: base sweep
//! pattern, seek override toward a radar blip, escape override away from a
//! sensed monster, and the cargo-return override, which strictly dominates
//! escape. The light toggle is decided independently of the position.
//!
//! The vertical coordinate of the base sweep pattern follows a sine wave of
//! the horizontal coordinate. Evaluating that waveform takes floating-point
//! arithmetic, which stays with the caller: the planner receives the wave
//! height for this turn's sweep position as the plain value `base_y` and is
//! verified for every value of it.

use vstd::prelude::*;
use crate::catalog::{Creature, is_monster_id};
use crate::snapshot::{Blip, Drone, GameState, Radar, SnapshotModel, VisibleCreature};
use crate::ledger::{four_of_a_kind, my_scans};
use crate::selector::mvp_ids;

verus! {

/// Width and depth of the arena; commands are clamped to it by the judge.
pub const ARENA_SPAN: i32 = 10_000;

/// The sweep direction flips when the drone comes this close to an edge.
pub const EDGE_MARGIN: i32 = 600;

/// Horizontal step of the base sweep pattern per turn.
pub const SWEEP_STEP: i32 = 600;

/// Nudge applied toward a radar blip's quadrant by the seek override.
pub const SEEK_STEP: i32 = 600;

/// Square of the monster detection radius (2000 units, boundary inclusive).
pub const DANGER_RADIUS_SQ: i128 = 4_000_000;

/// Escape targets are clamped to the safe interior [500, 9500] on both axes.
pub const ESCAPE_MIN: i32 = 500;

/// Escape targets are clamped to the safe interior [500, 9500] on both axes.
pub const ESCAPE_MAX: i32 = 9_500;

/// Vertical coordinate of the surface rendezvous used for cargo return.
pub const SURFACE_Y: i32 = 450;

/// The save commitment clears once the drone is shallower than this depth.
pub const SURFACE_DONE_Y: i32 = 500;

/// The light only flashes with strictly more battery than this.
pub const LIGHT_MIN_BATTERY: i32 = 5;

/// The light only flashes strictly deeper than this.
pub const LIGHT_MIN_DEPTH: i32 = 3_000;

/// The light only flashes once the debounce counter strictly exceeds this.
pub const LIGHT_DEBOUNCE: i32 = 10;

/// Setting a new escape target reduces the debounce counter by this much,
/// discouraging a flash while a threat is active.
pub const THREAT_DEBOUNCE_PENALTY: i32 = 5;

/// One entry of the human-readable decision trace kept per agent. It is
/// diagnostic only and carries no protocol meaning.
#[derive(Clone, Copy, PartialEq, Eq, Structural, Debug)]
pub enum TraceNote {
    /// A monster with this creature id was sensed this turn.
    Threat(i32),
    /// The light was flashed this turn.
    Flash,
    /// The agent is moving to its remembered escape target.
    EscapingTo(i32, i32),
    /// The cargo-return override is active.
    Save,
    /// No override fired; the base search pattern (or seek nudge) is used.
    Searching,
}

/// The resolved decision of one turn: integer destination coordinates and
/// the sensor-boost toggle.
#[derive(Clone, Copy, PartialEq, Eq, Structural, Debug)]
pub struct Command {
    pub x: i32,
    pub y: i32,
    pub light: bool,
}

/// Mathematical model of a drone agent's persistent memory.
#[verifier::ext_equal]
pub ghost struct AgentModel {
    pub id: i32,
    pub drone_state: Drone,
    pub saved: bool,
    pub will_save: bool,
    pub direction: i32,
    pub debounce: i32,
    pub blip: Seq<Blip>,
    pub log: Seq<TraceNote>,
    pub is_escaping: bool,
    pub escape_pos: (i32, i32),
}

/// Persistent per-drone decision memory, mutated once per turn by `behave`.
#[derive(Clone, Debug)]
pub struct DroneBehavior {
    /// Zero-based index with which this agent consumes the preference list.
    pub id: i32,
    /// Ground truth refreshed from the snapshot every turn.
    pub drone_state: Drone,
    pub saved: bool,
    /// Cargo return in progress.
    pub will_save: bool,
    /// Current sweep direction, 1 or -1.
    pub direction: i32,
    /// Light debounce counter.
    pub debounce: i32,
    /// This drone's radar blips, recomputed from the snapshot every turn.
    pub blip: Vec<Blip>,
    /// Decision trace of the last turn, diagnostic only.
    pub log: Vec<TraceNote>,
    /// An avoidance maneuver is in progress.
    pub is_escaping: bool,
    /// Remembered escape target (horizontal coordinate), held until the
    /// drone exactly reaches it.
    pub escape_x: i32,
    /// Remembered escape target (vertical coordinate).
    pub escape_y: i32,
}

impl View for DroneBehavior {
    type V = AgentModel;

    open spec fn view(&self) -> AgentModel {
        AgentModel {
            id: self.id,
            drone_state: self.drone_state,
            saved: self.saved,
            will_save: self.will_save,
            direction: self.direction,
            debounce: self.debounce,
            blip: self.blip@,
            log: self.log@,
            is_escaping: self.is_escaping,
            escape_pos: (self.escape_x, self.escape_y),
        }
    }
}

/// Squared Euclidean distance between two points.
pub open spec fn dist_sq(x1: int, y1: int, x2: int, y2: int) -> int {
    (x2 - x1) * (x2 - x1) + (y2 - y1) * (y2 - y1)
}

/// Whether a drone at (px, py) senses the given visible creature as a
/// threat: the catalog classifies it as a monster and its distance is at
/// most the detection radius (boundary inclusive).
pub open spec fn senses(px: int, py: int, c: VisibleCreature, catalog: Seq<Creature>) -> bool {
    &&& is_monster_id(catalog, c.creature_id)
    &&& dist_sq(px, py, c.creature_x as int, c.creature_y as int) <= DANGER_RADIUS_SQ as int
}

/// The visible creatures sensed as threats, in snapshot order.
pub open spec fn sensed_monsters(
    vis: Seq<VisibleCreature>,
    catalog: Seq<Creature>,
    px: int,
    py: int,
) -> Seq<VisibleCreature> {
    vis.filter(|c: VisibleCreature| senses(px, py, c, catalog))
}

/// The nearest sensed monster; on equal distances the earlier one in the
/// snapshot wins, so the choice is deterministic.
pub open spec fn nearest_sensed(
    vis: Seq<VisibleCreature>,
    catalog: Seq<Creature>,
    px: int,
    py: int,
) -> Option<VisibleCreature>
    decreases vis.len(),
{
    if vis.len() == 0 {
        None
    } else {
        let best = nearest_sensed(vis.drop_last(), catalog, px, py);
        let c = vis.last();
        if senses(px, py, c, catalog) {
            match best {
                Option::None => Some(c),
                Option::Some(b) => {
                    if dist_sq(px, py, c.creature_x as int, c.creature_y as int) < dist_sq(
                        px,
                        py,
                        b.creature_x as int,
                        b.creature_y as int,
                    ) {
                        Some(c)
                    } else {
                        Some(b)
                    }
                },
            }
        } else {
            best
        }
    }
}

/// Clamps one escape coordinate to the safe interior of the arena.
pub open spec fn clamp_escape(v: int) -> int {
    if v < ESCAPE_MIN as int {
        ESCAPE_MIN as int
    } else if v > ESCAPE_MAX as int {
        ESCAPE_MAX as int
    } else {
        v
    }
}

/// The repulsion target away from a monster at (mx, my) for a drone at
/// (px, py): the drone's position minus twice the vector toward the
/// monster, clamped to the safe interior on both axes.
pub open spec fn escape_target(px: int, py: int, mx: int, my: int) -> (i32, i32) {
    (clamp_escape(px - 2 * (mx - px)) as i32, clamp_escape(py - 2 * (my - py)) as i32)
}

/// First blip in the given list for the given creature id, if any.
pub open spec fn first_blip_for(blips: Seq<Blip>, cid: i32) -> Option<Blip>
    decreases blips.len(),
{
    if blips.len() == 0 {
        None
    } else {
        let rest = first_blip_for(blips.drop_last(), cid);
        if rest is Some {
            rest
        } else if blips.last().creature_id == cid {
            Some(blips.last())
        } else {
            None
        }
    }
}

/// The blips of one drone, in snapshot order.
pub open spec fn my_blips(snap: SnapshotModel, drone_id: i32) -> Seq<Blip> {
    snap.radar_blip.filter(|b: Blip| b.drone_id == drone_id)
}

/// Horizontal nudge toward a blip's quadrant.
pub open spec fn seek_dx(r: Radar) -> int {
    match r {
        Radar::TopLeft => -(SEEK_STEP as int),
        Radar::TopRight => SEEK_STEP as int,
        Radar::BottomLeft => -(SEEK_STEP as int),
        Radar::BottomRight => SEEK_STEP as int,
    }
}

/// Vertical nudge toward a blip's quadrant.
pub open spec fn seek_dy(r: Radar) -> int {
    match r {
        Radar::TopLeft => -(SEEK_STEP as int),
        Radar::TopRight => -(SEEK_STEP as int),
        Radar::BottomLeft => SEEK_STEP as int,
        Radar::BottomRight => SEEK_STEP as int,
    }
}

/// Seek override candidate: when the preference list has an entry for this
/// agent's index and one of its blips points at that creature, the drone's
/// position nudged one step toward the blip's quadrant.
pub open spec fn seek_candidate(
    idx: i32,
    blips: Seq<Blip>,
    x: i32,
    y: i32,
    mvp: Seq<i32>,
) -> Option<(i32, i32)> {
    if 0 <= idx < mvp.len() {
        match first_blip_for(blips, mvp[idx as int]) {
            Option::Some(b) => Some(
                (((x + seek_dx(b.radar)) as i32), ((y + seek_dy(b.radar)) as i32)),
            ),
            Option::None => None,
        }
    } else {
        None
    }
}

/// Sweep direction after the edge check: flips away from an arena edge the
/// drone is within the margin of, otherwise keeps the current direction.
pub open spec fn flip_direction(x: i32, dir: i32) -> i32 {
    if x + EDGE_MARGIN > ARENA_SPAN {
        -1i32
    } else if x - EDGE_MARGIN < 0 {
        1i32
    } else {
        dir
    }
}

/// Saturation of a mathematical integer to the i32 range: the debounce
/// counter pins at the ends of its range instead of wrapping.
pub open spec fn sat_i32(v: int) -> int {
    if v > i32::MAX as int {
        i32::MAX as int
    } else if v < i32::MIN as int {
        i32::MIN as int
    } else {
        v
    }
}

/// The debounce counter after the threat penalty and the per-turn tick,
/// before a flash may reset it.
pub open spec fn debounce_ticked(pre_debounce: int, threatened: bool) -> int {
    let after_penalty = if threatened {
        sat_i32(pre_debounce - THREAT_DEBOUNCE_PENALTY as int)
    } else {
        pre_debounce
    };
    sat_i32(after_penalty + 1)
}

/// The decision trace entries for this turn's sensed monsters.
pub open spec fn threat_notes(
    vis: Seq<VisibleCreature>,
    catalog: Seq<Creature>,
    px: int,
    py: int,
) -> Seq<TraceNote> {
    sensed_monsters(vis, catalog, px, py).map_values(|c: VisibleCreature| TraceNote::Threat(c.creature_id))
}

/// One turn of the motion planner, as a mathematical step function from the
/// agent's memory, the snapshot, the catalog and this turn's sweep-wave
/// height to the agent's next memory and the emitted command.
///
/// The stages in override order: base sweep candidate, seek override,
/// escape override (new or still-committed), and the cargo-return override,
/// which strictly dominates escape. The light is decided independently and
/// is forced off while escaping or returning. The escape commitment clears
/// only when the drone's position exactly equals the stored target: an
/// intentional strict rendezvous check, which can keep the escape state
/// sticky if the drone overshoots.
pub open spec fn step(
    pre: AgentModel,
    snap: SnapshotModel,
    catalog: Seq<Creature>,
    base_y: i32,
) -> (AgentModel, Command) {
    let x = pre.drone_state.drone_x;
    let y = pre.drone_state.drone_y;
    let blips = my_blips(snap, pre.drone_state.drone_id);
    let dir = flip_direction(x, pre.direction);
    let base = (((x + SWEEP_STEP as int * dir) as i32), base_y);
    let seek = seek_candidate(pre.id, blips, x, y, mvp_ids(catalog, my_scans(snap)));
    let cand0 = match seek {
        Option::Some(t) => t,
        Option::None => base,
    };
    let threat = nearest_sensed(snap.visible_creature, catalog, x as int, y as int);
    let threatened = threat is Some;
    let escaping = if threatened {
        true
    } else {
        pre.is_escaping
    };
    let target = match threat {
        Option::Some(m) => escape_target(x as int, y as int, m.creature_x as int, m.creature_y as int),
        Option::None => pre.escape_pos,
    };
    let ticked = debounce_ticked(pre.debounce as int, threatened);
    let flash = pre.drone_state.battery > LIGHT_MIN_BATTERY && y > LIGHT_MIN_DEPTH && ticked
        > LIGHT_DEBOUNCE as int && !escaping;
    let deb = if flash {
        0i32
    } else {
        ticked as i32
    };
    let cand = if escaping {
        target
    } else {
        cand0
    };
    let still_escaping = if x == target.0 && y == target.1 {
        false
    } else {
        escaping
    };
    let saving = four_of_a_kind(catalog, my_scans(snap)) || pre.will_save;
    let ws = if saving {
        !(y < SURFACE_DONE_Y)
    } else {
        pre.will_save
    };
    let cmd = if saving {
        Command { x: x, y: SURFACE_Y, light: false }
    } else {
        Command { x: cand.0, y: cand.1, light: flash }
    };
    let log = threat_notes(snap.visible_creature, catalog, x as int, y as int) + (if flash {
        seq![TraceNote::Flash]
    } else {
        Seq::empty()
    }) + (if escaping {
        seq![TraceNote::EscapingTo(target.0, target.1)]
    } else {
        Seq::empty()
    }) + seq![
        if saving {
            TraceNote::Save
        } else {
            TraceNote::Searching
        },
    ];
    (
        AgentModel {
            will_save: ws,
            direction: dir,
            debounce: deb,
            blip: blips,
            log: log,
            is_escaping: still_escaping,
            escape_pos: target,
            ..pre
        },
        cmd,
    )
}

/// The agent's memory after one turn of the motion planner.
pub open spec fn step_agent(
    pre: AgentModel,
    snap: SnapshotModel,
    catalog: Seq<Creature>,
    base_y: i32,
) -> AgentModel {
    step(pre, snap, catalog, base_y).0
}

/// The command the motion planner emits for one turn.
pub open spec fn step_command(
    pre: AgentModel,
    snap: SnapshotModel,
    catalog: Seq<Creature>,
    base_y: i32,
) -> Command {
    step(pre, snap, catalog, base_y).1
}

/// Saturating i32 subtraction.
fn sat_sub(a: i32, b: i32) -> (r: i32)
    ensures
        r as int == sat_i32(a as int - b as int),
{
    match a.checked_sub(b) {
        Some(v) => v,
        None => if b > 0 {
            i32::MIN
        } else {
            i32::MAX
        },
    }
}

/// Saturating i32 addition.
fn sat_add(a: i32, b: i32) -> (r: i32)
    ensures
        r as int == sat_i32(a as int + b as int),
{
    match a.checked_add(b) {
        Some(v) => v,
        None => if b > 0 {
            i32::MAX
        } else {
            i32::MIN
        },
    }
}

/// Squared distance between two points with i32 coordinates, computed
/// exactly in 128-bit arithmetic.
fn dist_sq_exec(px: i32, py: i32, cx: i32, cy: i32) -> (r: i128)
    ensures
        r as int == dist_sq(px as int, py as int, cx as int, cy as int),
{
    let dx: i128 = cx as i128 - px as i128;
    let dy: i128 = cy as i128 - py as i128;
    proof {
        assert(dx * dx <= 0x10000000000000000int && dx * dx >= 0) by (nonlinear_arith)
            requires
                -0x100000000 <= dx <= 0x100000000,
        ;
        assert(dy * dy <= 0x10000000000000000int && dy * dy >= 0) by (nonlinear_arith)
            requires
                -0x100000000 <= dy <= 0x100000000,
        ;
    }
    dx * dx + dy * dy
}

/// The repulsion target away from a monster, clamped to the safe interior
/// on both axes for every input position.
pub fn escape_point(px: i32, py: i32, mx: i32, my_: i32) -> (r: (i32, i32))
    ensures
        r == escape_target(px as int, py as int, mx as int, my_ as int),
        ESCAPE_MIN <= r.0 <= ESCAPE_MAX,
        ESCAPE_MIN <= r.1 <= ESCAPE_MAX,
{
    let rawx: i64 = px as i64 - 2 * (mx as i64 - px as i64);
    let rawy: i64 = py as i64 - 2 * (my_ as i64 - py as i64);
    let ex: i64 = if rawx < ESCAPE_MIN as i64 {
        ESCAPE_MIN as i64
    } else if rawx > ESCAPE_MAX as i64 {
        ESCAPE_MAX as i64
    } else {
        rawx
    };
    let ey: i64 = if rawy < ESCAPE_MIN as i64 {
        ESCAPE_MIN as i64
    } else if rawy > ESCAPE_MAX as i64 {
        ESCAPE_MAX as i64
    } else {
        rawy
    };
    (ex as i32, ey as i32)
}

/// First blip in the list for the given creature id, if any.
fn find_blip(blips: &Vec<Blip>, cid: i32) -> (r: Option<Blip>)
    ensures
        r == first_blip_for(blips@, cid),
{
    let mut found: Option<Blip> = None;
    let mut i: usize = 0;
    while i < blips.len()
        invariant
            0 <= i <= blips@.len(),
            found == first_blip_for(blips@.take(i as int), cid),
        decreases blips@.len() - i,
    {
        if found.is_none() && blips[i].creature_id == cid {
            found = Some(blips[i]);
        }
        proof {
            assert(blips@.take(i + 1).drop_last() =~= blips@.take(i as int));
            assert(blips@.take(i + 1).last() == blips@[i as int]);
        }
        i = i + 1;
    }
    proof {
        assert(blips@.take(blips@.len() as int) =~= blips@);
    }
    found
}

/// Scans the visible creatures for sensed monsters: returns the trace
/// entries for every sensed monster, in snapshot order, and the nearest
/// sensed monster.
fn scan_threats(
    visible: &Vec<VisibleCreature>,
    creatures: &Vec<Creature>,
    px: i32,
    py: i32,
) -> (r: (Vec<TraceNote>, Option<VisibleCreature>))
    ensures
        r.0@ == threat_notes(visible@, creatures@, px as int, py as int),
        r.1 == nearest_sensed(visible@, creatures@, px as int, py as int),
{
    let mut notes: Vec<TraceNote> = Vec::new();
    let mut best: Option<VisibleCreature> = None;
    let mut i: usize = 0;
    while i < visible.len()
        invariant
            0 <= i <= visible@.len(),
            notes@ == threat_notes(visible@.take(i as int), creatures@, px as int, py as int),
            best == nearest_sensed(visible@.take(i as int), creatures@, px as int, py as int),
        decreases visible@.len() - i,
    {
        let c = visible[i];
        if c.is_a_monster(creatures) && dist_sq_exec(px, py, c.creature_x, c.creature_y)
            <= DANGER_RADIUS_SQ {
            notes.push(TraceNote::Threat(c.creature_id));
            best = match best {
                Some(b) => {
                    if dist_sq_exec(px, py, c.creature_x, c.creature_y) < dist_sq_exec(
                        px,
                        py,
                        b.creature_x,
                        b.creature_y,
                    ) {
                        Some(c)
                    } else {
                        Some(b)
                    }
                },
                None => Some(c),
            };
        }
        proof {
            reveal(Seq::filter);
            assert(visible@.take(i + 1).drop_last() =~= visible@.take(i as int));
            assert(visible@.take(i + 1).last() == visible@[i as int]);
            let pred = |cr: VisibleCreature| senses(px as int, py as int, cr, creatures@);
            assert(threat_notes(visible@.take(i + 1), creatures@, px as int, py as int) =~= if pred(
                visible@[i as int],
            ) {
                threat_notes(visible@.take(i as int), creatures@, px as int, py as int).push(
                    TraceNote::Threat(visible@[i as int].creature_id),
                )
            } else {
                threat_notes(visible@.take(i as int), creatures@, px as int, py as int)
            });
        }
        i = i + 1;
    }
    proof {
        assert(visible@.take(visible@.len() as int) =~= visible@);
    }
    (notes, best)
}

impl DroneBehavior {
    /// Structural conditions every live agent satisfies: the sweep
    /// direction is one of the two unit directions and the preference index
    /// is non-negative.
    pub open spec fn wf(self) -> bool {
        &&& self.direction == 1 || self.direction == -1
        &&& self.id >= 0
    }

    /// A fresh agent for the given drone: sweeping right, debounce primed,
    /// no blips, no commitments.
    pub fn new(state: Drone, id: i32) -> (r: DroneBehavior)
        ensures
            r@ == (AgentModel {
                id: id,
                drone_state: state,
                saved: false,
                will_save: false,
                direction: 1i32,
                debounce: 10i32,
                blip: Seq::<Blip>::empty(),
                log: Seq::<TraceNote>::empty(),
                is_escaping: false,
                escape_pos: (0i32, 0i32),
            }),
    {
        let r = DroneBehavior {
            id,
            drone_state: state,
            will_save: false,
            saved: false,
            direction: 1,
            debounce: 10,
            blip: Vec::new(),
            log: Vec::new(),
            is_escaping: false,
            escape_x: 0,
            escape_y: 0,
        };
        proof {
            assert(r@ =~= (AgentModel {
                id: id,
                drone_state: state,
                saved: false,
                will_save: false,
                direction: 1i32,
                debounce: 10i32,
                blip: Seq::<Blip>::empty(),
                log: Seq::<TraceNote>::empty(),
                is_escaping: false,
                escape_pos: (0i32, 0i32),
            }));
        }
        r
    }

    /// Current horizontal position.
    pub fn x_i32(&self) -> (r: i32)
        ensures
            r == self.drone_state.drone_x,
    {
        self.drone_state.drone_x
    }

    /// Current vertical position (depth).
    pub fn y_i32(&self) -> (r: i32)
        ensures
            r == self.drone_state.drone_y,
    {
        self.drone_state.drone_y
    }

    /// Whether this drone senses the creature: within the detection radius,
    /// boundary inclusive.
    pub fn do_i_see_it(&self, creature: &VisibleCreature) -> (r: bool)
        ensures
            r == (dist_sq(
                self.drone_state.drone_x as int,
                self.drone_state.drone_y as int,
                creature.creature_x as int,
                creature.creature_y as int,
            ) <= DANGER_RADIUS_SQ as int),
    {
        dist_sq_exec(
            self.drone_state.drone_x,
            self.drone_state.drone_y,
            creature.creature_x,
            creature.creature_y,
        ) <= DANGER_RADIUS_SQ
    }

    /// Refreshes this agent's blip list from the snapshot: exactly the
    /// snapshot's blips for this drone, in snapshot order.
    pub fn set_my_blip(&mut self, game_state: &GameState)
        ensures
            final(self)@ == (AgentModel {
                blip: my_blips(game_state@, old(self).drone_state.drone_id),
                ..old(self)@
            }),
    {
        let drone_id = self.drone_state.drone_id;
        let mut out: Vec<Blip> = Vec::new();
        let mut i: usize = 0;
        while i < game_state.radar_blip.len()
            invariant
                0 <= i <= game_state@.radar_blip.len(),
                out@ == game_state@.radar_blip.take(i as int).filter(
                    |b: Blip| b.drone_id == drone_id,
                ),
            decreases game_state@.radar_blip.len() - i,
        {
            let b = game_state.radar_blip[i];
            if b.drone_id == drone_id {
                out.push(b);
            }
            proof {
                reveal(Seq::filter);
                assert(game_state@.radar_blip.take(i + 1).drop_last() =~= game_state@.radar_blip
                    .take(i as int));
                assert(game_state@.radar_blip.take(i + 1).last() == game_state@.radar_blip[
                    i as int
                ]);
            }
            i = i + 1;
        }
        proof {
            assert(game_state@.radar_blip.take(game_state@.radar_blip.len() as int)
                =~= game_state@.radar_blip);
        }
        self.blip = out;
        proof {
            assert(self@ =~= (AgentModel {
                blip: my_blips(game_state@, old(self).drone_state.drone_id),
                ..old(self)@
            }));
        }
    }

    /// One turn of the motion planner for this agent. `base_y` is the
    /// sweep-wave height for this turn's sweep position, supplied by the
    /// caller; the emitted command and the agent's next memory are exactly
    /// those of the mathematical step function.
    #[verifier::rlimit(100)]
    pub fn behave(&mut self, game_state: &GameState, creatures: &Vec<Creature>, base_y: i32) -> (cmd:
        Command)
        requires
            old(self).wf(),
            0 <= old(self).drone_state.drone_x <= ARENA_SPAN,
            0 <= old(self).drone_state.drone_y <= ARENA_SPAN,
            game_state.ledger_ok(creatures@),
        ensures
            final(self)@ == step_agent(old(self)@, game_state@, creatures@, base_y),
            cmd == step_command(old(self)@, game_state@, creatures@, base_y),
            final(self).wf(),
            final(self).drone_state == old(self).drone_state,
    {
        self.log = Vec::new();
        self.set_my_blip(game_state);

        if self.x_i32() + EDGE_MARGIN > ARENA_SPAN {
            self.direction = -1;
        } else if self.x_i32() - EDGE_MARGIN < 0 {
            self.direction = 1;
        }

        let mut next_x: i32 = self.x_i32() + SWEEP_STEP * self.direction;
        let mut next_y: i32 = base_y;

        let mvp = game_state.get_mvp(creatures);
        if (self.id as usize) < mvp.len() {
            let fish_id = mvp[self.id as usize];
            match find_blip(&self.blip, fish_id) {
                Some(b) => {
                    match b.radar {
                        Radar::TopLeft => {
                            next_x = self.x_i32() - SEEK_STEP;
                            next_y = self.y_i32() - SEEK_STEP;
                        },
                        Radar::TopRight => {
                            next_x = self.x_i32() + SEEK_STEP;
                            next_y = self.y_i32() - SEEK_STEP;
                        },
                        Radar::BottomLeft => {
                            next_x = self.x_i32() - SEEK_STEP;
                            next_y = self.y_i32() + SEEK_STEP;
                        },
                        Radar::BottomRight => {
                            next_x = self.x_i32() + SEEK_STEP;
                            next_y = self.y_i32() + SEEK_STEP;
                        },
                    }
                },
                None => {},
            }
        }

        let (mut notes, threat) = scan_threats(
            &game_state.visible_creature,
            creatures,
            self.x_i32(),
            self.y_i32(),
        );
        self.log.append(&mut notes);
        match threat {
            Some(m) => {
                let target = escape_point(self.x_i32(), self.y_i32(), m.creature_x, m.creature_y);
                next_x = target.0;
                next_y = target.1;
                self.is_escaping = true;
                self.escape_x = target.0;
                self.escape_y = target.1;
                self.debounce = sat_sub(self.debounce, THREAT_DEBOUNCE_PENALTY);
            },
            None => {},
        }

        self.debounce = sat_add(self.debounce, 1);
        let mut light: bool = false;
        if self.drone_state.battery > LIGHT_MIN_BATTERY && self.y_i32() > LIGHT_MIN_DEPTH
            && self.debounce > LIGHT_DEBOUNCE && !self.is_escaping {
            light = true;
            self.debounce = 0;
            self.log.push(TraceNote::Flash);
        }

        if self.is_escaping {
            self.log.push(TraceNote::EscapingTo(self.escape_x, self.escape_y));
            next_x = self.escape_x;
            next_y = self.escape_y;
        }
        if self.x_i32() == self.escape_x && self.y_i32() == self.escape_y {
            self.is_escaping = false;
        }

        let cmd: Command;
        if game_state.do_i_need_to_save(creatures) || self.will_save {
            self.will_save = true;
            if self.y_i32() < SURFACE_DONE_Y {
                self.will_save = false;
            }
            self.log.push(TraceNote::Save);
            cmd = Command { x: self.x_i32(), y: SURFACE_Y, light: false };
        } else {
            self.log.push(TraceNote::Searching);
            cmd = Command { x: next_x, y: next_y, light: light };
        }
        proof {
            assert(self@ =~= step_agent(old(self)@, game_state@, creatures@, base_y));
            assert(cmd == step_command(old(self)@, game_state@, creatures@, base_y));
        }
        cmd
    }
}

/// The sweep direction the planner will use this turn after the edge
/// check, and the base sweep position it implies. Callers evaluate the
/// sweep waveform at that position to obtain `base_y` for `behave`.
pub fn planned_sweep(direction: i32, x: i32) -> (r: (i32, i32))
    requires
        direction == 1 || direction == -1,
        0 <= x <= ARENA_SPAN,
    ensures
        r.0 == flip_direction(x, direction),
        r.1 == x + SWEEP_STEP * flip_direction(x, direction),
{
    let dir: i32 = if x + EDGE_MARGIN > ARENA_SPAN {
        -1
    } else if x - EDGE_MARGIN < 0 {
        1
    } else {
        direction
    };
    (dir, x + SWEEP_STEP * dir)
}

/// The models of a registry of agents, in registry order.
pub open spec fn models_of(agents: Seq<DroneBehavior>) -> Seq<AgentModel> {
    agents.map_values(|d: DroneBehavior| d@)
}

/// Index of the first registered agent whose drone id matches, if any.
pub open spec fn agent_slot(models: Seq<AgentModel>, id: i32) -> Option<int>
    decreases models.len(),
{
    if models.len() == 0 {
        None
    } else {
        let rest = agent_slot(models.drop_last(), id);
        if rest is Some {
            rest
        } else if models.last().drone_state.drone_id == id {
            Some(models.len() - 1)
        } else {
            None
        }
    }
}

/// `agent_slot` returns the first matching index, and `None` exactly when
/// no registered agent carries the id.
pub proof fn lemma_agent_slot(models: Seq<AgentModel>, id: i32)
    ensures
        match agent_slot(models, id) {
            Option::Some(i) => 0 <= i < models.len() && models[i].drone_state.drone_id == id
                && forall|j: int| 0 <= j < i ==> models[j].drone_state.drone_id != id,
            Option::None => forall|j: int|
                0 <= j < models.len() ==> models[j].drone_state.drone_id != id,
        },
    decreases models.len(),
{
    if models.len() > 0 {
        let rest = models.drop_last();
        lemma_agent_slot(rest, id);
        assert(forall|j: int| 0 <= j < rest.len() ==> rest[j] == models[j]);
        match agent_slot(rest, id) {
            Option::Some(i) => {
                assert(agent_slot(models, id) == Some(i));
            },
            Option::None => {
                if models.last().drone_state.drone_id == id {
                    assert(agent_slot(models, id) == Some(models.len() - 1));
                } else {
                    assert(agent_slot(models, id) is None);
                    assert(forall|j: int|
                        0 <= j < models.len() ==> models[j].drone_state.drone_id != id);
                }
            },
        }
    }
}

/// The memory of a freshly registered agent: even registry indices start
/// sweeping left, odd ones right, so paired drones cover both halves.
pub open spec fn fresh_agent(state: Drone, idx: int) -> AgentModel {
    AgentModel {
        id: idx as i32,
        drone_state: state,
        saved: false,
        will_save: false,
        direction: if idx % 2 == 0 {
            -1i32
        } else {
            1i32
        },
        debounce: 10i32,
        blip: Seq::<Blip>::empty(),
        log: Seq::<TraceNote>::empty(),
        is_escaping: false,
        escape_pos: (0i32, 0i32),
    }
}

/// The registry after this turn's admission check: a fresh agent for the
/// given drone is appended while the registry is smaller than the owned
/// drone roster.
pub open spec fn registry_after_admission(
    models: Seq<AgentModel>,
    snap: SnapshotModel,
    state: Drone,
) -> Seq<AgentModel> {
    if models.len() < snap.my_drone.len() {
        models.push(fresh_agent(state, models.len() as int))
    } else {
        models
    }
}

/// Looks a drone id up in the agent registry, returning the index of the
/// first agent with that id; `None` (an explicit, checked condition, not a
/// panic) when the id is not registered.
pub fn get_drone_by_id(id: i32, drones: &Vec<DroneBehavior>) -> (r: Option<usize>)
    ensures
        match r {
            Option::Some(i) => i < drones@.len() && drones@[i as int].drone_state.drone_id == id
                && agent_slot(models_of(drones@), id) == Some(i as int),
            Option::None => agent_slot(models_of(drones@), id) is None,
        },
{
    proof {
        lemma_agent_slot(models_of(drones@), id);
        assert(forall|j: int|
            0 <= j < drones@.len() ==> models_of(drones@)[j] == #[trigger] drones@[j]@);
    }
    let mut i: usize = 0;
    while i < drones.len()
        invariant
            0 <= i <= drones@.len(),
            forall|j: int| 0 <= j < i ==> drones@[j].drone_state.drone_id != id,
            forall|j: int|
                0 <= j < drones@.len() ==> models_of(drones@)[j] == #[trigger] drones@[j]@,
            match agent_slot(models_of(drones@), id) {
                Option::Some(k) => 0 <= k < drones@.len() && models_of(drones@)[
                    k
                ].drone_state.drone_id == id && forall|j: int|
                    0 <= j < k ==> models_of(drones@)[j].drone_state.drone_id != id,
                Option::None => forall|j: int|
                    0 <= j < drones@.len() ==> models_of(drones@)[j].drone_state.drone_id != id,
            },
        decreases drones@.len() - i,
    {
        if drones[i].drone_state.drone_id == id {
            proof {
                let models = models_of(drones@);
                assert(models[i as int].drone_state.drone_id == id);
                match agent_slot(models, id) {
                    Option::Some(k) => {
                        if k < i {
                            assert(drones@[k].drone_state.drone_id == id);
                        }
                        if k > i {
                            assert(models[i as int].drone_state.drone_id != id);
                        }
                    },
                    Option::None => {
                        assert(models[i as int].drone_state.drone_id != id);
                    },
                }
            }
            return Some(i);
        }
        i = i + 1;
    }
    None
}

/// Per-turn entry point for one owned drone: registers its agent while the
/// registry is still growing, refreshes the agent with the drone\'s fresh
/// physical state, and runs one turn of the motion planner. Returns the
/// command, or `None` exactly when the drone\'s id is absent from the
/// registry even after admission: a fatal feed error the caller aborts on.
pub fn fun_name(
    drones_behavior: &mut Vec<DroneBehavior>,
    game_state: &GameState,
    drone: &Drone,
    creatures: &Vec<Creature>,
    base_y: i32,
) -> (r: Option<Command>)
    requires
        forall|j: int|
            0 <= j < old(drones_behavior)@.len() ==> (#[trigger] old(drones_behavior)@[j]).wf(),
        old(drones_behavior)@.len() < 0x7fff_ffff,
        0 <= drone.drone_x <= ARENA_SPAN,
        0 <= drone.drone_y <= ARENA_SPAN,
        game_state.ledger_ok(creatures@),
    ensures
        forall|j: int|
            0 <= j < final(drones_behavior)@.len() ==> (#[trigger] final(drones_behavior)@[j]).wf(),
        ({
            let reg = registry_after_admission(
                models_of(old(drones_behavior)@),
                game_state@,
                *drone,
            );
            match agent_slot(reg, drone.drone_id) {
                Option::Some(i) => {
                    let pre = (AgentModel { drone_state: *drone, ..reg[i] });
                    &&& r == Some(step_command(pre, game_state@, creatures@, base_y))
                    &&& models_of(final(drones_behavior)@) == reg.update(
                        i,
                        step_agent(pre, game_state@, creatures@, base_y),
                    )
                },
                Option::None => r is None && models_of(final(drones_behavior)@) == reg,
            }
        }),
{
    let ghost reg = registry_after_admission(
        models_of(old(drones_behavior)@),
        game_state@,
        *drone,
    );
    if drones_behavior.len() < game_state.get_my_drone_count() {
        let idx = drones_behavior.len();
        let mut d = DroneBehavior::new(*drone, idx as i32);
        if idx % 2 == 0 {
            d.direction = -1 * d.direction;
        }
        proof {
            assert(d@ =~~= fresh_agent(*drone, idx as int));
        }
        drones_behavior.push(d);
        proof {
            assert(models_of(drones_behavior@) =~~= reg);
        }
    }
    proof {
        assert(models_of(drones_behavior@) == reg);
    }
    match get_drone_by_id(drone.drone_id, drones_behavior) {
        Some(i) => {
            let mut agent = drones_behavior.remove(i);
            agent.drone_state = *drone;
            proof {
                assert(agent@ =~~= (AgentModel { drone_state: *drone, ..reg[i as int] }));
            }
            let cmd = agent.behave(game_state, creatures, base_y);
            drones_behavior.insert(i, agent);
            proof {
                assert(models_of(drones_behavior@) =~~= reg.update(
                    i as int,
                    step_agent(
                        (AgentModel { drone_state: *drone, ..reg[i as int] }),
                        game_state@,
                        creatures@,
                        base_y,
                    ),
                ));
            }
            Some(cmd)
        },
        None => None,
    }
}

} // verus!
