use deck_bridge::brightness::{BrightnessState, BrightnessWrite};

#[test]
fn surface_starts_in_use() {
    assert_eq!(BrightnessState::initial(50), BrightnessState::Active(50));
    assert_eq!(BrightnessState::initial(0), BrightnessState::Active(0));
    assert_eq!(BrightnessState::initial(255), BrightnessState::Active(255));
}

#[test]
fn timeout_dims_a_surface_in_use() {
    assert_eq!(BrightnessState::Active(50).on_idle_timeout(), Some(BrightnessWrite::Dim));
    assert_eq!(BrightnessState::Active(0).on_idle_timeout(), Some(BrightnessWrite::Dim));
}

#[test]
fn timeout_leaves_a_dimmed_surface_alone() {
    assert_eq!(BrightnessState::Dimmed.on_idle_timeout(), None);
}

#[test]
fn input_restores_a_dimmed_surface() {
    assert_eq!(BrightnessState::Dimmed.on_input(50), Some(BrightnessWrite::Level(50)));
    assert_eq!(BrightnessState::Dimmed.on_input(100), Some(BrightnessWrite::Level(100)));
}

#[test]
fn input_leaves_a_surface_in_use_alone() {
    assert_eq!(BrightnessState::Active(50).on_input(50), None);
    assert_eq!(BrightnessState::Active(10).on_input(50), None);
}

#[test]
fn successful_write_changes_the_state() {
    let mut state = BrightnessState::Active(50);
    state.settle(BrightnessWrite::Dim, true);
    assert_eq!(state, BrightnessState::Dimmed);
    state.settle(BrightnessWrite::Level(70), true);
    assert_eq!(state, BrightnessState::Active(70));
}

#[test]
fn failed_write_changes_nothing() {
    let mut state = BrightnessState::Active(50);
    state.settle(BrightnessWrite::Dim, false);
    assert_eq!(state, BrightnessState::Active(50));
    assert_eq!(state.on_idle_timeout(), Some(BrightnessWrite::Dim));
    let mut dimmed = BrightnessState::Dimmed;
    dimmed.settle(BrightnessWrite::Level(50), false);
    assert_eq!(dimmed, BrightnessState::Dimmed);
    assert_eq!(dimmed.on_input(50), Some(BrightnessWrite::Level(50)));
}

#[test]
fn repeated_timeouts_ask_for_one_write() {
    let mut state = BrightnessState::initial(50);
    let mut writes = 0;
    for _ in 0..5 {
        if let Some(write) = state.on_idle_timeout() {
            writes += 1;
            state.settle(write, true);
        }
    }
    assert_eq!(writes, 1);
    assert_eq!(state, BrightnessState::Dimmed);
}
