use platformer_core::config::{AppState, BackendKind, RenderBackend, RenderMode, end_input, title_input};
use platformer_core::input::{InputState, climb_input, move_input};

#[test]
fn render_mode_reports_cpu() {
    assert!(RenderMode::Cpu.is_cpu());
    assert!(!RenderMode::Gpu.is_cpu());
}

#[test]
fn backend_choice_maps_to_kind() {
    assert_eq!(RenderBackend::Auto.backends(), None);
    assert_eq!(RenderBackend::Gl.backends(), Some(BackendKind::Gl));
    assert_eq!(RenderBackend::Vulkan.backends(), Some(BackendKind::Vulkan));
}

#[test]
fn title_confirm_starts_the_game() {
    assert_eq!(title_input(true), Some(AppState::InGame));
    assert_eq!(title_input(false), None);
}

#[test]
fn end_confirm_returns_to_title() {
    assert_eq!(end_input(true), Some(AppState::Title));
    assert_eq!(end_input(false), None);
}

#[test]
fn move_input_is_right_minus_left() {
    let mut inp = InputState::idle();
    assert_eq!(move_input(&inp), 0);
    inp.right = true;
    assert_eq!(move_input(&inp), 1);
    inp.left = true;
    assert_eq!(move_input(&inp), 0);
    inp.right = false;
    assert_eq!(move_input(&inp), -1);
}

#[test]
fn climb_input_is_up_minus_down() {
    let mut inp = InputState::idle();
    assert_eq!(climb_input(&inp), 0);
    inp.up = true;
    assert_eq!(climb_input(&inp), 1);
    inp.down = true;
    assert_eq!(climb_input(&inp), 0);
    inp.up = false;
    assert_eq!(climb_input(&inp), -1);
}
