use tick_sim::{InputDirection, Simulation, Vec2};

/// Builds a position from native floating-point components, as the host
/// boundary does.
fn pos(x: f32, y: f32) -> Vec2 {
    Vec2 {
        x: x.to_bits(),
        y: y.to_bits(),
    }
}

/// Reads a position back as native floating-point components.
fn floats(v: Vec2) -> (f32, f32) {
    (f32::from_bits(v.x), f32::from_bits(v.y))
}

#[test]
fn tick_count_counts_calls() {
    let mut s = Simulation::new();
    assert_eq!(s.get_tick_count(), 0);
    s.register_entity(1, 0f32.to_bits(), 0f32.to_bits());
    for n in 1..=7usize {
        s.advance_tick(1, InputDirection::Up);
        assert_eq!(s.get_tick_count(), n);
    }
}

#[test]
fn history_matches_live_state_at_each_tick() {
    let mut s = Simulation::new();
    s.register_entity(1, 0f32.to_bits(), 0f32.to_bits());
    let inputs = [
        InputDirection::Up,
        InputDirection::Left,
        InputDirection::Neutral,
        InputDirection::Down,
        InputDirection::Right,
    ];
    let mut observed: Vec<Vec2> = Vec::new();
    for d in inputs {
        s.advance_tick(1, d);
        observed.push(s.get_position(1));
    }
    for (k, want) in observed.iter().enumerate() {
        assert_eq!(s.get_position_at_tick(1, k), *want);
    }
}

#[test]
fn out_of_range_tick_falls_back_to_live_position() {
    let mut s = Simulation::new();
    s.register_entity(1, 3.0f32.to_bits(), 4.0f32.to_bits());
    s.advance_tick(1, InputDirection::Left);
    let live = s.get_position(1);
    assert_eq!(s.get_position_at_tick(1, 1), live);
    assert_eq!(s.get_position_at_tick(1, 100), live);
    assert_eq!(s.get_position_at_tick(1, usize::MAX), live);
}

#[test]
fn reset_restores_the_documented_defaults() {
    let mut s = Simulation::new();
    s.register_entity(1, 5.0f32.to_bits(), 5.0f32.to_bits());
    s.register_entity(2, 1.0f32.to_bits(), 2.0f32.to_bits());
    s.advance_tick(1, InputDirection::Up);
    s.advance_tick(2, InputDirection::Down);
    s.reset_simulation();
    assert_eq!(s.get_tick_count(), 0);
    assert_eq!(floats(s.get_position(1)), (0.0, 0.0));
    assert_eq!(floats(s.get_position(2)), (0.0, 0.0));
    assert_eq!(floats(s.get_position_at_tick(1, 0)), (0.0, 0.0));
}

#[test]
fn reset_twice_equals_reset_once() {
    let mut s = Simulation::new();
    s.register_entity(7, 9.0f32.to_bits(), 9.0f32.to_bits());
    s.advance_tick(7, InputDirection::Right);
    s.reset_simulation();
    let count_once = s.get_tick_count();
    let pos_once = s.get_position(7);
    s.reset_simulation();
    assert_eq!(s.get_tick_count(), count_once);
    assert_eq!(s.get_position(7), pos_once);
    assert_eq!(s.get_tick_count(), 0);
    assert_eq!(floats(s.get_position(7)), (0.0, 0.0));
}

#[test]
fn directions_set_exact_positions() {
    let mut s = Simulation::new();
    s.register_entity(1, 0.0f32.to_bits(), 0.0f32.to_bits());
    s.advance_tick(1, InputDirection::Up);
    assert_eq!(floats(s.get_position(1)), (0.0, 1.0));
    s.advance_tick(1, InputDirection::Right);
    assert_eq!(floats(s.get_position(1)), (1.0, 0.0));
    s.advance_tick(1, InputDirection::Neutral);
    assert_eq!(floats(s.get_position(1)), (0.0, 0.0));
    s.advance_tick(1, InputDirection::Down);
    assert_eq!(floats(s.get_position(1)), (0.0, -1.0));
    s.advance_tick(1, InputDirection::Left);
    assert_eq!(floats(s.get_position(1)), (-1.0, 0.0));
}

#[test]
fn positions_are_set_not_accumulated() {
    let mut s = Simulation::new();
    s.register_entity(1, 0.0f32.to_bits(), 0.0f32.to_bits());
    s.advance_tick(1, InputDirection::Up);
    s.advance_tick(1, InputDirection::Up);
    s.advance_tick(1, InputDirection::Up);
    // Three upward ticks still leave the entity at (0, 1): each tick sets
    // the position to the delta, it does not add to it.
    assert_eq!(floats(s.get_position(1)), (0.0, 1.0));
}

#[test]
fn unknown_entity_reads_zero_and_is_not_created() {
    let mut s = Simulation::new();
    assert_eq!(floats(s.get_position(999)), (0.0, 0.0));
    s.advance_tick(999, InputDirection::Up);
    assert_eq!(s.get_tick_count(), 1);
    assert_eq!(floats(s.get_position(999)), (0.0, 0.0));
    assert_eq!(floats(s.get_position_at_tick(999, 0)), (0.0, 0.0));
}

#[test]
fn advancing_one_entity_leaves_the_other_untouched() {
    let mut s = Simulation::new();
    s.register_entity(10, 2.0f32.to_bits(), 3.0f32.to_bits());
    s.register_entity(20, 8.0f32.to_bits(), 9.0f32.to_bits());
    s.advance_tick(10, InputDirection::Up);
    assert_eq!(floats(s.get_position(10)), (0.0, 1.0));
    assert_eq!(floats(s.get_position(20)), (8.0, 9.0));
    assert_eq!(floats(s.get_position_at_tick(20, 0)), (8.0, 9.0));
}

#[test]
fn scenario_register_advance_query() {
    let mut s = Simulation::new();
    s.register_entity(1, 5.0f32.to_bits(), 5.0f32.to_bits());
    s.advance_tick(1, InputDirection::Up);
    assert_eq!(floats(s.get_position(1)), (0.0, 1.0));
    assert_eq!(s.get_tick_count(), 1);
    assert_eq!(floats(s.get_position_at_tick(1, 0)), (0.0, 1.0));
    assert_eq!(floats(s.get_position_at_tick(1, 5)), (0.0, 1.0));
}

#[test]
fn registering_twice_overwrites() {
    let mut s = Simulation::new();
    s.register_entity(4, 1.0f32.to_bits(), 1.0f32.to_bits());
    s.register_entity(4, 6.5f32.to_bits(), (-2.25f32).to_bits());
    assert_eq!(floats(s.get_position(4)), (6.5, -2.25));
    assert_eq!(s.get_tick_count(), 0);
}

#[test]
fn registration_is_not_retroactive() {
    let mut s = Simulation::new();
    s.register_entity(1, 1.0f32.to_bits(), 1.0f32.to_bits());
    s.advance_tick(1, InputDirection::Neutral);
    // Entity 2 arrives after tick 0 closed: the recorded snapshot must not
    // know it, while the next tick's snapshot must.
    s.register_entity(2, 7.0f32.to_bits(), 7.0f32.to_bits());
    assert_eq!(floats(s.get_position_at_tick(2, 0)), (0.0, 0.0));
    assert_eq!(floats(s.get_position(2)), (7.0, 7.0));
    s.advance_tick(1, InputDirection::Neutral);
    assert_eq!(floats(s.get_position_at_tick(2, 1)), (7.0, 7.0));
}

#[test]
fn register_preserves_tick_count_and_history() {
    let mut s = Simulation::new();
    s.register_entity(1, 0.0f32.to_bits(), 0.0f32.to_bits());
    s.advance_tick(1, InputDirection::Right);
    let recorded = s.get_position_at_tick(1, 0);
    s.register_entity(1, 9.0f32.to_bits(), 9.0f32.to_bits());
    assert_eq!(s.get_tick_count(), 1);
    assert_eq!(s.get_position_at_tick(1, 0), recorded);
}

#[test]
fn fractional_positions_survive_exactly() {
    let mut s = Simulation::new();
    let p = pos(0.1, -123.456);
    s.register_entity(3, p.x, p.y);
    let (x, y) = floats(s.get_position(3));
    assert_eq!(x, 0.1f32);
    assert_eq!(y, (-123.456f32));
}

#[test]
fn direction_tags_decode_defensively() {
    assert!(matches!(InputDirection::from_tag(0), InputDirection::Neutral));
    assert!(matches!(InputDirection::from_tag(1), InputDirection::Up));
    assert!(matches!(InputDirection::from_tag(2), InputDirection::Down));
    assert!(matches!(InputDirection::from_tag(3), InputDirection::Left));
    assert!(matches!(InputDirection::from_tag(4), InputDirection::Right));
    assert!(matches!(InputDirection::from_tag(5), InputDirection::Neutral));
    assert!(matches!(
        InputDirection::from_tag(u32::MAX),
        InputDirection::Neutral
    ));
}

#[test]
fn deltas_encode_unit_steps() {
    assert_eq!(floats(InputDirection::Neutral.delta()), (0.0, 0.0));
    assert_eq!(floats(InputDirection::Up.delta()), (0.0, 1.0));
    assert_eq!(floats(InputDirection::Down.delta()), (0.0, -1.0));
    assert_eq!(floats(InputDirection::Left.delta()), (-1.0, 0.0));
    assert_eq!(floats(InputDirection::Right.delta()), (1.0, 0.0));
}

#[test]
fn zero_vector_encodes_zero() {
    assert_eq!(floats(Vec2::zero()), (0.0, 0.0));
}
