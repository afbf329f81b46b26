use chess_clock::app::{Button, Event, PressType};
use chess_clock::menu::{
    preset_config, EditState, GameConfig, IncrementType, MenuItem, MenuState,
};
use chess_clock::time::Duration;

fn left(state: &mut MenuState, config: &mut GameConfig) {
    state.handle_event(config, &Event::ButtonPushed(Button::Left, PressType::Single));
}

fn right(state: &mut MenuState, config: &mut GameConfig) {
    state.handle_event(config, &Event::ButtonPushed(Button::Right, PressType::Single));
}

fn control(state: &mut MenuState, config: &mut GameConfig) {
    state.handle_event(
        config,
        &Event::ButtonPushed(Button::Control, PressType::Single),
    );
}

#[test]
fn navigation_wraps_over_all_fields() {
    let mut config = GameConfig::default();
    let mut state = MenuState::new();
    assert_eq!(state.item_index, 0);
    for expected in [1, 2, 3, 4, 5, 0] {
        right(&mut state, &mut config);
        assert_eq!(state.item_index, expected);
    }
    left(&mut state, &mut config);
    assert_eq!(state.item_index, 5);
}

#[test]
fn navigation_skips_delay_fields_under_sudden_death() {
    let mut config = GameConfig {
        increment_type: IncrementType::SuddenDeath,
        ..GameConfig::default()
    };
    let mut state = MenuState::new();
    for _ in 0..3 {
        right(&mut state, &mut config);
    }
    assert_eq!(state.item_index, 3);
    // The two delay fields are skipped in both directions, wrapping.
    right(&mut state, &mut config);
    assert_eq!(state.item_index, 0);
    left(&mut state, &mut config);
    assert_eq!(state.item_index, 3);
}

#[test]
fn control_enters_cursor_choice_only_for_two_column_fields() {
    let mut config = GameConfig::default();
    let mut state = MenuState::new();
    // The preset field has a single column: editing starts at once.
    control(&mut state, &mut config);
    assert_eq!(state.edit_mode, EditState::Editing(0));
    control(&mut state, &mut config);
    assert_eq!(state.edit_mode, EditState::NotEditing);
    // A time field has two columns: a column must be picked first.
    right(&mut state, &mut config);
    control(&mut state, &mut config);
    assert_eq!(state.edit_mode, EditState::Cursor(0));
    right(&mut state, &mut config);
    assert_eq!(state.edit_mode, EditState::Cursor(1));
    right(&mut state, &mut config);
    assert_eq!(state.edit_mode, EditState::Cursor(0));
    left(&mut state, &mut config);
    assert_eq!(state.edit_mode, EditState::Cursor(1));
    control(&mut state, &mut config);
    assert_eq!(state.edit_mode, EditState::Editing(1));
}

#[test]
fn editing_left_time_steps_by_the_column_multiplier() {
    let mut config = GameConfig::default();
    let mut state = MenuState::new();
    right(&mut state, &mut config);
    assert_eq!(state.item_index, 1);
    control(&mut state, &mut config);
    control(&mut state, &mut config);
    assert_eq!(state.edit_mode, EditState::Editing(0));
    // The first column steps by whole minutes.
    left(&mut state, &mut config);
    assert_eq!(config.left_time, Duration::from_secs(540));
    right(&mut state, &mut config);
    assert_eq!(config.left_time, Duration::from_secs(600));
}

#[test]
fn editing_floors_at_zero_and_caps_at_the_maximum() {
    let mut config = GameConfig {
        left_time: Duration::from_secs(30),
        ..GameConfig::default()
    };
    let mut state = MenuState::new();
    right(&mut state, &mut config);
    control(&mut state, &mut config);
    control(&mut state, &mut config);
    // Stepping half a minute down by a whole minute floors at zero.
    left(&mut state, &mut config);
    assert_eq!(config.left_time, Duration::from_secs(0));
    left(&mut state, &mut config);
    assert_eq!(config.left_time, Duration::from_secs(0));

    config.left_time = Duration::from_secs(3580);
    right(&mut state, &mut config);
    assert_eq!(config.left_time, Duration::from_secs(3599));
    right(&mut state, &mut config);
    assert_eq!(config.left_time, Duration::from_secs(3599));
}

#[test]
fn editing_preset_steps_to_the_adjacent_preset() {
    let mut config = preset_config(0);
    let mut state = MenuState::new();
    control(&mut state, &mut config);
    right(&mut state, &mut config);
    assert_eq!(config, preset_config(1));
    right(&mut state, &mut config);
    assert_eq!(config, preset_config(1));
    left(&mut state, &mut config);
    assert_eq!(config, preset_config(0));
    left(&mut state, &mut config);
    assert_eq!(config, preset_config(0));
}

#[test]
fn editing_preset_from_unknown_config_snaps_to_the_first_preset() {
    let mut config = GameConfig {
        left_time: Duration::from_secs(123),
        right_time: Duration::from_secs(456),
        increment_type: IncrementType::SuddenDeath,
    };
    let mut state = MenuState::new();
    control(&mut state, &mut config);
    right(&mut state, &mut config);
    assert_eq!(config, preset_config(0));
}

#[test]
fn editing_rule_type_replaces_the_whole_rule_with_defaults() {
    let mut config = GameConfig {
        increment_type: IncrementType::SuddenDeath,
        ..GameConfig::default()
    };
    let mut state = MenuState::new();
    for _ in 0..3 {
        right(&mut state, &mut config);
    }
    assert_eq!(state.item_index, 3);
    control(&mut state, &mut config);
    assert_eq!(state.edit_mode, EditState::Editing(0));
    right(&mut state, &mut config);
    assert_eq!(
        config.increment_type,
        IncrementType::Increment {
            left_increment: Duration::from_secs(10),
            right_increment: Duration::from_secs(10),
        }
    );
    right(&mut state, &mut config);
    assert_eq!(
        config.increment_type,
        IncrementType::Delay {
            left_delay: Duration::from_secs(10),
            right_delay: Duration::from_secs(10),
        }
    );
    left(&mut state, &mut config);
    left(&mut state, &mut config);
    assert_eq!(config.increment_type, IncrementType::SuddenDeath);
}

#[test]
fn editing_delay_field_touches_only_the_declared_component() {
    let mut config = GameConfig::default();
    let mut state = MenuState::new();
    for _ in 0..4 {
        right(&mut state, &mut config);
    }
    assert_eq!(state.item_index, 4);
    control(&mut state, &mut config);
    assert_eq!(state.edit_mode, EditState::Cursor(0));
    right(&mut state, &mut config);
    control(&mut state, &mut config);
    assert_eq!(state.edit_mode, EditState::Editing(1));
    // The second column steps by single seconds.
    right(&mut state, &mut config);
    assert_eq!(
        config.increment_type,
        IncrementType::Bronstein {
            left_delay: Duration::from_secs(16),
            right_delay: Duration::from_secs(15),
        }
    );
}

#[test]
fn max_val_bounds_each_field() {
    assert_eq!(MenuItem::Preset.max_val(), 1);
    assert_eq!(MenuItem::LeftTime.max_val(), 3599);
    assert_eq!(MenuItem::RightTime.max_val(), 3599);
    assert_eq!(MenuItem::IncrementType.max_val(), 3);
    assert_eq!(MenuItem::LeftDelay.max_val(), 59);
    assert_eq!(MenuItem::RightDelay.max_val(), 59);
}
