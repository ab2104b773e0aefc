use platformer_core::collide::Solid;
use platformer_core::geom::{Vec2i, Volume};
use platformer_core::guard::Guard;
use platformer_core::input::InputState;
use platformer_core::level::spawn_player;
use platformer_core::player::player_system;

fn v(x: i64, y: i64) -> Vec2i {
    Vec2i { x, y }
}

fn floor_at(y: i64) -> Vec<Solid> {
    vec![Solid { pos: v(180_000, y), half: v(180_000, 12_000), door_blocker: false }]
}

#[test]
fn standing_player_lands_and_refreshes_coyote() {
    // Player with speed 90, at (80, 180) screen-space, no input, gravity
    // -520, floor at screen y = 205 with half-height 12: the tick collides
    // downward, zeroes the vertical velocity and refreshes the coyote
    // countdown to its full 0.12 s budget.  (At a 1.0 s step the 520-unit
    // fall would overshoot the 24-unit floor entirely, so the tick runs at
    // 0.2 s, where the resolver meets the floor.)
    let mut p = spawn_player();
    assert_eq!(p.speed, 90_000);
    assert_eq!(p.pos, v(80_000, 45_000));
    assert_eq!(p.gravity, -520_000);
    let solids = floor_at(20_000);
    let ladders: Vec<Volume> = Vec::new();
    let mut guards: Vec<Guard> = Vec::new();
    let ev = player_system(&mut p, &mut guards, InputState::idle(), 200, &solids, &ladders);
    assert!(!ev.jumped);
    assert_eq!(p.vel.y, 0);
    assert_eq!(p.coyote_timer, 120);
    assert_eq!(p.pos, v(80_000, 44_000));
}

#[test]
fn coyote_counts_down_by_dt_in_the_air() {
    let mut p = spawn_player();
    p.coyote_timer = 100;
    let solids: Vec<Solid> = Vec::new();
    let ladders: Vec<Volume> = Vec::new();
    let mut guards: Vec<Guard> = Vec::new();
    player_system(&mut p, &mut guards, InputState::idle(), 30, &solids, &ladders);
    assert_eq!(p.coyote_timer, 70);
    player_system(&mut p, &mut guards, InputState::idle(), 80, &solids, &ladders);
    assert_eq!(p.coyote_timer, 0);
    // Floored at zero.
    player_system(&mut p, &mut guards, InputState::idle(), 50, &solids, &ladders);
    assert_eq!(p.coyote_timer, 0);
}

#[test]
fn jump_fires_only_with_both_windows_open_and_consumes_them() {
    let mut p = spawn_player();
    let solids: Vec<Solid> = Vec::new();
    let ladders: Vec<Volume> = Vec::new();
    let mut guards: Vec<Guard> = Vec::new();
    let mut inp = InputState::idle();
    inp.jump_pressed = true;
    // coyote_timer starts full (120), so a press jumps.
    let ev = player_system(&mut p, &mut guards, inp, 16, &solids, &ladders);
    assert!(ev.jumped);
    assert_eq!(p.coyote_timer, 0);
    assert_eq!(p.jump_buffer_timer, 0);
    // Both countdowns now read zero: a second press in the air does not jump
    // (the buffer opens, but the coyote window is shut).
    let ev2 = player_system(&mut p, &mut guards, inp, 16, &solids, &ladders);
    assert!(!ev2.jumped);
}

#[test]
fn buffered_press_jumps_on_landing() {
    let mut p = spawn_player();
    p.coyote_timer = 0;
    p.jump_buffer_timer = 0;
    // Just above the floor's resting height, so this tick's fall lands.
    p.pos = v(80_000, 44_100);
    let solids = floor_at(20_000);
    let ladders: Vec<Volume> = Vec::new();
    let mut guards: Vec<Guard> = Vec::new();
    // Press while the coyote window is shut: no jump, but the buffer opens.
    let mut inp = InputState::idle();
    inp.jump_pressed = true;
    let ev = player_system(&mut p, &mut guards, inp, 16, &solids, &ladders);
    assert!(!ev.jumped);
    assert_eq!(p.jump_buffer_timer, 120);
    // Landing refreshed the coyote window, so the still-open buffer jumps
    // on the next tick without a new press.
    assert_eq!(p.coyote_timer, 120);
    let ev2 = player_system(&mut p, &mut guards, InputState::idle(), 16, &solids, &ladders);
    assert!(ev2.jumped);
    assert_eq!(p.coyote_timer, 0);
    assert_eq!(p.jump_buffer_timer, 0);
}

#[test]
fn jump_applies_upward_impulse_minus_gravity() {
    let mut p = spawn_player();
    let solids: Vec<Solid> = Vec::new();
    let ladders: Vec<Volume> = Vec::new();
    let mut guards: Vec<Guard> = Vec::new();
    let mut inp = InputState::idle();
    inp.jump_pressed = true;
    player_system(&mut p, &mut guards, inp, 100, &solids, &ladders);
    // 190_000 impulse, minus 520_000 * 0.1 integrated over the tick.
    assert_eq!(p.vel.y, 190_000 - 52_000);
}

#[test]
fn crouch_reduces_speed_to_two_fifths() {
    let mut p = spawn_player();
    let solids = floor_at(20_000);
    let ladders: Vec<Volume> = Vec::new();
    let mut guards: Vec<Guard> = Vec::new();
    let mut inp = InputState::idle();
    inp.right = true;
    inp.down = true;
    player_system(&mut p, &mut guards, inp, 16, &solids, &ladders);
    assert_eq!(p.vel.x, 36_000);
}

#[test]
fn run_speed_is_full_without_crouch() {
    let mut p = spawn_player();
    let solids = floor_at(20_000);
    let ladders: Vec<Volume> = Vec::new();
    let mut guards: Vec<Guard> = Vec::new();
    let mut inp = InputState::idle();
    inp.right = true;
    player_system(&mut p, &mut guards, inp, 16, &solids, &ladders);
    assert_eq!(p.vel.x, 90_000);
}

#[test]
fn ladder_sets_climb_velocity_and_suspends_gravity() {
    let mut p = spawn_player();
    let ladders = vec![Volume { pos: p.pos, half: v(8_000, 32_000) }];
    let solids: Vec<Solid> = Vec::new();
    let mut guards: Vec<Guard> = Vec::new();
    let mut inp = InputState::idle();
    inp.up = true;
    player_system(&mut p, &mut guards, inp, 16, &solids, &ladders);
    assert!(p.on_ladder);
    // Vertical velocity is the climb speed exactly; gravity did not apply.
    assert_eq!(p.vel.y, 60_000);
}

#[test]
fn ladder_scales_horizontal_speed_to_three_fifths() {
    let mut p = spawn_player();
    let ladders = vec![Volume { pos: p.pos, half: v(8_000, 32_000) }];
    let solids: Vec<Solid> = Vec::new();
    let mut guards: Vec<Guard> = Vec::new();
    let mut inp = InputState::idle();
    inp.left = true;
    player_system(&mut p, &mut guards, inp, 16, &solids, &ladders);
    assert_eq!(p.vel.x, -54_000);
}

#[test]
fn jump_leaves_the_ladder() {
    let mut p = spawn_player();
    let ladders = vec![Volume { pos: p.pos, half: v(8_000, 32_000) }];
    let solids: Vec<Solid> = Vec::new();
    let mut guards: Vec<Guard> = Vec::new();
    let mut inp = InputState::idle();
    inp.jump_pressed = true;
    let ev = player_system(&mut p, &mut guards, inp, 16, &solids, &ladders);
    assert!(ev.jumped);
    assert!(!p.on_ladder);
    assert_eq!(p.vel.y, 190_000);
}

#[test]
fn facing_is_kept_when_input_releases() {
    let mut p = spawn_player();
    let solids = floor_at(20_000);
    let ladders: Vec<Volume> = Vec::new();
    let mut guards: Vec<Guard> = Vec::new();
    let mut inp = InputState::idle();
    inp.left = true;
    player_system(&mut p, &mut guards, inp, 16, &solids, &ladders);
    assert_eq!(p.facing, -1);
    player_system(&mut p, &mut guards, InputState::idle(), 16, &solids, &ladders);
    assert_eq!(p.facing, -1);
}

#[test]
fn mark_respawn_stores_current_position() {
    let mut p = spawn_player();
    let solids = floor_at(20_000);
    let ladders: Vec<Volume> = Vec::new();
    let mut guards: Vec<Guard> = Vec::new();
    let mut inp = InputState::idle();
    inp.mark_respawn_pressed = true;
    player_system(&mut p, &mut guards, inp, 16, &solids, &ladders);
    assert_eq!(p.respawn_position, p.pos);
}

#[test]
fn attack_cooldown_blocks_second_swing() {
    let mut p = spawn_player();
    let solids = floor_at(20_000);
    let ladders: Vec<Volume> = Vec::new();
    let mut guards: Vec<Guard> = Vec::new();
    let mut inp = InputState::idle();
    inp.attack_pressed = true;
    let ev = player_system(&mut p, &mut guards, inp, 16, &solids, &ladders);
    assert!(ev.attack_started);
    assert_eq!(p.attack_cooldown, 350);
    assert_eq!(p.attack_active, 180);
    let ev2 = player_system(&mut p, &mut guards, inp, 16, &solids, &ladders);
    assert!(!ev2.attack_started);
}
