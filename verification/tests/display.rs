use chess_clock::app::{AppState, Button, Event, Page, PressType};
use chess_clock::effect::Effects;
use chess_clock::game::{GameState, Player};
use chess_clock::menu::{GameConfig, IncrementType, MenuState};
use chess_clock::output::{OutputCommand, Outputs};
use chess_clock::time::Duration;

fn render(prev: &AppState, cur: &AppState) -> Vec<OutputCommand> {
    let mut outputs = Outputs::new();
    cur.display_state(prev, &mut outputs)
        .expect("rendering fits the display");
    outputs.commands
}

fn game_state() -> AppState {
    let config = GameConfig {
        left_time: Duration::from_secs(90),
        right_time: Duration::from_secs(60),
        increment_type: IncrementType::SuddenDeath,
    };
    AppState {
        game_config: config,
        page: Page::Game(GameState::new(&config, Player::Left)),
    }
}

#[test]
fn rendering_a_stable_state_writes_nothing() {
    let welcome = AppState {
        game_config: GameConfig::default(),
        page: Page::Welcome,
    };
    assert!(render(&welcome, &welcome).is_empty());

    let game = game_state();
    assert!(render(&game, &game).is_empty());

    let menu = AppState {
        game_config: GameConfig::default(),
        page: Page::Menu(MenuState::new()),
    };
    assert!(render(&menu, &menu).is_empty());
}

#[test]
fn rendering_twice_writes_only_once() {
    let init = AppState {
        game_config: GameConfig::default(),
        page: Page::Init,
    };
    let game = game_state();
    let first = render(&init, &game);
    assert!(!first.is_empty());
    let second = render(&game, &game);
    assert!(second.is_empty());
}

#[test]
fn page_change_clears_before_drawing() {
    let init = AppState {
        game_config: GameConfig::default(),
        page: Page::Init,
    };
    let welcome = AppState {
        game_config: GameConfig::default(),
        page: Page::Welcome,
    };
    let commands = render(&init, &welcome);
    assert_eq!(
        commands,
        vec![
            OutputCommand::Clear,
            OutputCommand::CursorBlink(false),
            OutputCommand::CursorOn(false),
            OutputCommand::SetCursor(0, 3),
            OutputCommand::Text("ChessClock".to_string()),
        ]
    );
}

#[test]
fn game_page_draws_leds_times_and_pause_marker() {
    let init = AppState {
        game_config: GameConfig::default(),
        page: Page::Init,
    };
    let game = game_state();
    let commands = render(&init, &game);
    assert_eq!(
        commands,
        vec![
            OutputCommand::Clear,
            OutputCommand::CursorBlink(false),
            OutputCommand::CursorOn(false),
            OutputCommand::LeftLed(true),
            OutputCommand::RightLed(false),
            OutputCommand::SetCursor(0, 0),
            OutputCommand::Text("01:30".to_string()),
            OutputCommand::SetCursor(0, 11),
            OutputCommand::Text("01:00".to_string()),
            OutputCommand::SetCursor(1, 5),
            OutputCommand::Text("paused".to_string()),
        ]
    );
}

#[test]
fn a_tick_within_the_same_displayed_second_redraws_nothing() {
    let mut before = game_state();
    if let Page::Game(ref mut game) = before.page {
        game.paused = false;
    }
    let mut after = before;
    if let Page::Game(ref mut game) = after.page {
        // Ninety seconds still round up to ninety after a fifth of a second.
        game.left_time = Duration::from_millis(89_800);
    }
    assert!(render(&before, &after).is_empty());
}

#[test]
fn only_the_changed_time_field_is_redrawn() {
    let mut before = game_state();
    if let Page::Game(ref mut game) = before.page {
        game.paused = false;
    }
    let mut after = before;
    if let Page::Game(ref mut game) = after.page {
        game.left_time = Duration::from_secs(89);
    }
    let commands = render(&before, &after);
    assert_eq!(
        commands,
        vec![
            OutputCommand::SetCursor(0, 0),
            OutputCommand::Text("01:29".to_string()),
        ]
    );
}

#[test]
fn game_over_page_names_the_loser() {
    let init = AppState {
        game_config: GameConfig::default(),
        page: Page::Init,
    };
    let over = AppState {
        game_config: GameConfig::default(),
        page: Page::GameOver(Player::Right),
    };
    let commands = render(&init, &over);
    assert_eq!(
        commands,
        vec![
            OutputCommand::Clear,
            OutputCommand::CursorBlink(false),
            OutputCommand::CursorOn(false),
            OutputCommand::SetCursor(0, 0),
            OutputCommand::Text("Right player".to_string()),
            OutputCommand::SetCursor(1, 0),
            OutputCommand::Text("timeout :(".to_string()),
        ]
    );
    assert!(render(&over, &over).is_empty());
}

#[test]
fn menu_page_shows_field_name_and_preset_name() {
    let init = AppState {
        game_config: GameConfig::default(),
        page: Page::Init,
    };
    let menu = AppState {
        game_config: GameConfig::default(),
        page: Page::Menu(MenuState::new()),
    };
    let commands = render(&init, &menu);
    assert_eq!(
        commands,
        vec![
            OutputCommand::Clear,
            OutputCommand::CursorBlink(false),
            OutputCommand::CursorOn(false),
            OutputCommand::Clear,
            OutputCommand::CursorOn(false),
            OutputCommand::CursorBlink(false),
            OutputCommand::SetCursor(0, 0),
            OutputCommand::Text("Preset".to_string()),
            OutputCommand::SetCursor(1, 0),
            OutputCommand::Text("                ".to_string()),
            OutputCommand::SetCursor(1, 0),
            OutputCommand::Text("Right handicap".to_string()),
        ]
    );
}

#[test]
fn menu_column_choice_shows_the_cursor_at_the_column() {
    let mut state = AppState {
        game_config: GameConfig::default(),
        page: Page::Menu(MenuState::new()),
    };
    let mut send = |state: &mut AppState, event: Event| {
        let mut effects = Effects::new();
        state.handle_event(&mut effects, event).unwrap();
    };
    // Move to the left-time field and start picking a column.
    send(&mut state, Event::ButtonPushed(Button::Right, PressType::Single));
    let before = state;
    send(
        &mut state,
        Event::ButtonPushed(Button::Control, PressType::Single),
    );
    let commands = render(&before, &state);
    assert_eq!(
        commands,
        vec![
            OutputCommand::SetCursor(1, 0),
            OutputCommand::Text("10:00".to_string()),
            OutputCommand::SetCursor(1, 1),
            OutputCommand::CursorOn(true),
            OutputCommand::CursorBlink(false),
        ]
    );
}

#[test]
fn oversized_time_fails_the_render_pass() {
    let config = GameConfig {
        left_time: Duration::from_secs(6000),
        right_time: Duration::from_secs(60),
        increment_type: IncrementType::SuddenDeath,
    };
    let state = AppState {
        game_config: config,
        page: Page::Game(GameState::new(&config, Player::Left)),
    };
    let init = AppState {
        game_config: config,
        page: Page::Init,
    };
    let mut outputs = Outputs::new();
    assert!(state.display_state(&init, &mut outputs).is_err());
}
