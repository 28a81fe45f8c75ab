use seabed_policy::catalog::{Creature, CreatureType};
use seabed_policy::planner::{
    escape_point, fun_name, get_drone_by_id, Command, DroneBehavior, TraceNote,
};
use seabed_policy::snapshot::{Blip, Drone, GameState, Radar, Scan, VisibleCreature};

fn creature(id: i32, t: CreatureType) -> Creature {
    Creature { id, color: 0, creature_type: t }
}

fn drone(id: i32, x: i32, y: i32, battery: i32) -> Drone {
    Drone { drone_id: id, drone_x: x, drone_y: y, emergency: 0, battery }
}

fn scan(drone_id: i32, creature_id: i32) -> Scan {
    Scan { drone_id, creature_id }
}

fn visible(id: i32, x: i32, y: i32) -> VisibleCreature {
    VisibleCreature { creature_id: id, creature_x: x, creature_y: y, creature_vx: 0, creature_vy: 0 }
}

/// Ids 1..=4 are Type0, 5..=8 Type1, 9..=12 Type2, 13..=14 monsters.
fn full_catalog() -> Vec<Creature> {
    let mut v = Vec::new();
    for id in 1..=4 {
        v.push(creature(id, CreatureType::Type0));
    }
    for id in 5..=8 {
        v.push(creature(id, CreatureType::Type1));
    }
    for id in 9..=12 {
        v.push(creature(id, CreatureType::Type2));
    }
    v.push(creature(13, CreatureType::Monster));
    v.push(creature(14, CreatureType::Monster));
    v
}

fn empty_state(me: Drone) -> GameState {
    GameState {
        my_score: 0,
        foe_score: 0,
        my_scan: Vec::new(),
        foe_scan: Vec::new(),
        my_drone: vec![me],
        foe_drone: Vec::new(),
        drone_scan: Vec::new(),
        visible_creature: Vec::new(),
        radar_blip: Vec::new(),
    }
}

fn agent_for(state: Drone) -> DroneBehavior {
    DroneBehavior::new(state, 0)
}

/// The sweep wave height of the base search pattern for one sweep
/// position: amplitude 3000, period 5000, axis 6500, mirrored in sign for
/// a leftward sweep.
fn wave_height(direction: i32, x: i32) -> i32 {
    let b = 2.0_f64 * std::f64::consts::PI / 5000.0;
    let amplitude = if direction < 0 { -3000.0_f64 } else { 3000.0_f64 };
    (amplitude * (b * (x as f64)).sin() + 6500.0).round() as i32
}

#[test]
fn new_agent_starts_unencumbered() {
    let a = DroneBehavior::new(drone(4, 1000, 2000, 30), 1);
    assert_eq!(a.id, 1);
    assert_eq!(a.direction, 1);
    assert_eq!(a.debounce, 10);
    assert!(!a.will_save && !a.saved && !a.is_escaping);
    assert!(a.blip.is_empty() && a.log.is_empty());
    assert_eq!((a.escape_x, a.escape_y), (0, 0));
    assert_eq!((a.x_i32(), a.y_i32()), (1000, 2000));
}

#[test]
fn sensing_boundary_is_inclusive_at_2000() {
    let catalog = full_catalog();
    let a = agent_for(drone(1, 3000, 3000, 10));
    // 1200^2 + 1600^2 = 2000^2 exactly: sensed.
    assert!(a.do_i_see_it(&visible(13, 3000 + 1200, 3000 + 1600)));
    // 2000^2 + 1^2: a hair beyond the radius, not sensed.
    assert!(!a.do_i_see_it(&visible(13, 3000 + 2000, 3000 + 1)));
    let _ = catalog;
}

#[test]
fn escape_point_is_clamped_for_every_position() {
    // Repulsion pushed far beyond the walls clamps to the safe interior.
    assert_eq!(escape_point(0, 0, 10_000, 10_000), (500, 500));
    assert_eq!(escape_point(9_999, 9_999, 0, 0), (9_500, 9_500));
    // Interior case: exact repulsion, twice the vector away.
    assert_eq!(escape_point(5_000, 5_000, 6_000, 4_500), (3_000, 6_000));
}

#[test]
fn base_sweep_flips_at_both_edges() {
    let catalog = full_catalog();
    let mut right = agent_for(drone(1, 9_600, 4_000, 0));
    let cmd = right.behave(&empty_state(drone(1, 9_600, 4_000, 0)), &catalog, 7_000);
    assert_eq!(right.direction, -1);
    assert_eq!(cmd, Command { x: 9_000, y: 7_000, light: false });

    let mut left = agent_for(drone(1, 300, 4_000, 0));
    left.direction = -1;
    let cmd = left.behave(&empty_state(drone(1, 300, 4_000, 0)), &catalog, 7_000);
    assert_eq!(left.direction, 1);
    assert_eq!(cmd, Command { x: 900, y: 7_000, light: false });
}

#[test]
fn seek_override_nudges_toward_blip_quadrant() {
    let catalog = full_catalog();
    let me = drone(1, 4_000, 2_000, 0);
    let mut gs = empty_state(me);
    // Type0 has one creature remaining (id 4): the strict minimum.
    gs.drone_scan = vec![scan(1, 1), scan(1, 2), scan(1, 3)];
    gs.radar_blip = vec![
        Blip { drone_id: 9, creature_id: 4, radar: Radar::BottomRight },
        Blip { drone_id: 1, creature_id: 4, radar: Radar::TopLeft },
    ];
    let mut a = agent_for(me);
    let cmd = a.behave(&gs, &catalog, 7_000);
    // Only the drone's own blip counts: TopLeft nudges both axes down.
    assert_eq!(cmd, Command { x: 4_000 - 600, y: 2_000 - 600, light: false });
    assert_eq!(a.blip.len(), 1);
    assert_eq!(a.blip[0].creature_id, 4);
}

#[test]
fn seek_falls_through_when_index_beyond_list() {
    let catalog = full_catalog();
    let me = drone(1, 4_000, 2_000, 0);
    let mut gs = empty_state(me);
    gs.drone_scan = vec![scan(1, 1), scan(1, 2), scan(1, 3)];
    gs.radar_blip = vec![Blip { drone_id: 1, creature_id: 4, radar: Radar::TopLeft }];
    // The preference list is [4]; an agent with index 1 has no entry and
    // falls through to the base pattern.
    let mut a = DroneBehavior::new(me, 1);
    let cmd = a.behave(&gs, &catalog, 7_000);
    assert_eq!(cmd, Command { x: 4_600, y: 7_000, light: false });
}

#[test]
fn escape_targets_nearest_monster_and_suppresses_light() {
    let catalog = full_catalog();
    let me = drone(1, 5_000, 5_000, 10);
    let mut gs = empty_state(me);
    // Two sensed monsters; id 14 is nearer and must win deterministically.
    gs.visible_creature = vec![visible(13, 5_000, 6_500), visible(14, 6_000, 4_500)];
    let mut a = agent_for(me);
    a.debounce = 11;  // would flash this turn were no threat active
    let cmd = a.behave(&gs, &catalog, 7_000);
    assert_eq!(cmd, Command { x: 3_000, y: 6_000, light: false });
    assert!(a.is_escaping);
    assert_eq!((a.escape_x, a.escape_y), (3_000, 6_000));
    // Threat penalty 5, then the per-turn tick: 11 - 5 + 1.
    assert_eq!(a.debounce, 7);
    assert_eq!(a.log[0], TraceNote::Threat(13));
    assert_eq!(a.log[1], TraceNote::Threat(14));
    assert!(a.log.contains(&TraceNote::EscapingTo(3_000, 6_000)));
}

#[test]
fn distant_monster_is_ignored() {
    let catalog = full_catalog();
    let me = drone(1, 5_000, 5_000, 0);
    let mut gs = empty_state(me);
    gs.visible_creature = vec![visible(13, 5_000, 7_001)];
    let mut a = agent_for(me);
    let cmd = a.behave(&gs, &catalog, 7_000);
    assert_eq!(cmd, Command { x: 5_600, y: 7_000, light: false });
    assert!(!a.is_escaping);
}

#[test]
fn escape_commitment_holds_until_exact_arrival() {
    let catalog = full_catalog();
    let me = drone(1, 5_000, 5_000, 0);
    let gs = empty_state(me);
    let mut a = agent_for(me);
    a.is_escaping = true;
    a.escape_x = 3_000;
    a.escape_y = 6_000;
    // No monster this turn, but the commitment still overrides the base.
    let cmd = a.behave(&gs, &catalog, 7_000);
    assert_eq!(cmd, Command { x: 3_000, y: 6_000, light: false });
    assert!(a.is_escaping);

    // Arriving exactly at the stored target clears the commitment.
    let arrived = drone(1, 3_000, 6_000, 0);
    let gs2 = empty_state(arrived);
    a.drone_state = arrived;
    let cmd = a.behave(&gs2, &catalog, 7_000);
    assert_eq!(cmd, Command { x: 3_000, y: 6_000, light: false });
    assert!(!a.is_escaping);
}

#[test]
fn save_overrides_escape_in_the_same_turn() {
    // Both a sensed monster and a fresh four-of-a-kind: the destination is
    // the cargo-return point above the drone, not the escape point.
    let catalog = full_catalog();
    let me = drone(1, 5_000, 5_000, 10);
    let mut gs = empty_state(me);
    gs.visible_creature = vec![visible(13, 5_000, 6_500)];
    gs.drone_scan = vec![scan(1, 5), scan(1, 6), scan(1, 7), scan(1, 8)];
    let mut a = agent_for(me);
    let cmd = a.behave(&gs, &catalog, 7_000);
    assert_eq!(cmd, Command { x: 5_000, y: 450, light: false });
    assert!(a.will_save);
    // The escape memory is still recorded for later turns.
    assert!(a.is_escaping);
    assert!(a.log.contains(&TraceNote::Save));
}

#[test]
fn save_commitment_clears_only_near_surface() {
    let catalog = full_catalog();
    let deep = drone(1, 4_000, 4_000, 0);
    let mut a = agent_for(deep);
    a.will_save = true;
    let cmd = a.behave(&empty_state(deep), &catalog, 7_000);
    assert_eq!(cmd, Command { x: 4_000, y: 450, light: false });
    assert!(a.will_save);

    let shallow = drone(1, 4_000, 499, 0);
    a.drone_state = shallow;
    let cmd = a.behave(&empty_state(shallow), &catalog, 7_000);
    assert_eq!(cmd, Command { x: 4_000, y: 450, light: false });
    assert!(!a.will_save);
}

#[test]
fn identical_memory_and_snapshot_give_identical_commands() {
    let catalog = full_catalog();
    let me = drone(1, 4_200, 4_800, 9);
    let mut gs = empty_state(me);
    gs.drone_scan = vec![scan(1, 5)];
    gs.radar_blip = vec![Blip { drone_id: 1, creature_id: 1, radar: Radar::BottomRight }];
    let mut a = agent_for(me);
    a.debounce = 4;
    let mut twin = a.clone();
    let cmd_a = a.behave(&gs, &catalog, 7_321);
    let cmd_b = twin.behave(&gs, &catalog, 7_321);
    assert_eq!(cmd_a, cmd_b);
    assert_eq!(a.debounce, twin.debounce);
    assert_eq!(a.direction, twin.direction);
    assert_eq!(a.will_save, twin.will_save);
    assert_eq!(a.is_escaping, twin.is_escaping);
    assert_eq!((a.escape_x, a.escape_y), (twin.escape_x, twin.escape_y));
    assert_eq!(a.log, twin.log);
}

#[test]
fn end_to_end_flash_on_deep_sweep() {
    // Drone at (100, 5000), direction 1, no blips, no visible monsters,
    // battery 10, debounce 11: moves to x=700 at the sine-derived height
    // with the light on and the debounce reset.
    let catalog = full_catalog();
    let me = drone(1, 100, 5_000, 10);
    let gs = empty_state(me);
    let mut a = agent_for(me);
    a.debounce = 11;
    let base_y = wave_height(a.direction, 100 + 600);
    let cmd = a.behave(&gs, &catalog, base_y);
    assert_eq!(cmd, Command { x: 700, y: base_y, light: true });
    assert_eq!(a.debounce, 0);
    assert_eq!(a.log, vec![TraceNote::Flash, TraceNote::Searching]);
}

#[test]
fn no_flash_without_battery_depth_or_debounce() {
    let catalog = full_catalog();
    // Battery too low.
    let weak = drone(1, 4_000, 5_000, 5);
    let mut a = agent_for(weak);
    a.debounce = 11;
    assert!(!a.behave(&empty_state(weak), &catalog, 7_000).light);
    // Too shallow.
    let shallow = drone(1, 4_000, 3_000, 10);
    let mut b = agent_for(shallow);
    b.debounce = 11;
    assert!(!b.behave(&empty_state(shallow), &catalog, 7_000).light);
    // Debounce not yet over the threshold: 9 + 1 = 10 is not enough.
    let ready = drone(1, 4_000, 5_000, 10);
    let mut c = agent_for(ready);
    c.debounce = 9;
    assert!(!c.behave(&empty_state(ready), &catalog, 7_000).light);
}

#[test]
fn registry_lookup_is_checked_not_panicking() {
    let a = DroneBehavior::new(drone(4, 0, 0, 0), 0);
    let b = DroneBehavior::new(drone(7, 0, 0, 0), 1);
    let registry = vec![a, b];
    assert_eq!(get_drone_by_id(7, &registry), Some(1));
    assert_eq!(get_drone_by_id(5, &registry), None);
}

#[test]
fn fun_name_registers_then_reuses_agents() {
    let catalog = full_catalog();
    let me = drone(1, 100, 5_000, 10);
    let gs = empty_state(me);
    let mut registry: Vec<DroneBehavior> = Vec::new();

    let cmd = fun_name(&mut registry, &gs, &me, &catalog, 7_000).expect("drone is registered");
    assert_eq!(registry.len(), 1);
    // The first registered agent (even index) starts sweeping left.
    assert_eq!(registry[0].id, 0);
    assert_eq!(registry[0].direction, 1);  // flipped right again at the left edge
    // Fresh agent: debounce 10 ticks to 11, deep and charged, so it flashes.
    assert_eq!(cmd, Command { x: 700, y: 7_000, light: true });
    assert_eq!(registry[0].debounce, 0);

    // Same drone next turn: no second registration, debounce still low.
    let moved = drone(1, 700, 5_200, 10);
    let gs2 = empty_state(moved);
    let cmd2 = fun_name(&mut registry, &gs2, &moved, &catalog, 7_100).expect("still registered");
    assert_eq!(registry.len(), 1);
    assert_eq!(cmd2, Command { x: 1_300, y: 7_100, light: false });
    assert_eq!(registry[0].drone_state, moved);
}

#[test]
fn fun_name_flags_unregistered_drone() {
    let catalog = full_catalog();
    let known = drone(1, 4_000, 4_000, 10);
    let stranger = drone(9, 4_000, 4_000, 10);
    let gs = empty_state(known);
    // Registry already as large as the roster, but for a different drone:
    // the stranger is an explicit error, not a panic.
    let mut registry = vec![DroneBehavior::new(known, 0)];
    assert_eq!(fun_name(&mut registry, &gs, &stranger, &catalog, 7_000), None);
    assert_eq!(registry.len(), 1);
}
