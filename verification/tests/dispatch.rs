use chess_clock::app::{AppState, Button, Event, Page, PressType};
use chess_clock::effect::Effects;
use chess_clock::game::Player;
use chess_clock::menu::GameConfig;
use chess_clock::time::Duration;

fn fresh() -> AppState {
    AppState {
        game_config: GameConfig::default(),
        page: Page::Welcome,
    }
}

fn send(state: &mut AppState, event: Event) -> Effects {
    let mut effects = Effects::new();
    state
        .handle_event(&mut effects, event)
        .expect("event handling cannot fail");
    state.apply_effects(&effects);
    effects
}

#[test]
fn welcome_left_button_starts_game_with_left_to_move() {
    let mut state = fresh();
    send(
        &mut state,
        Event::ButtonPushed(Button::Left, PressType::Single),
    );
    match state.page {
        Page::Game(game) => {
            assert_eq!(game.turn, Player::Left);
            assert!(game.paused);
        }
        _ => panic!("expected a game page"),
    }
}

#[test]
fn welcome_control_opens_menu() {
    let mut state = fresh();
    send(
        &mut state,
        Event::ButtonPushed(Button::Control, PressType::Single),
    );
    assert!(matches!(state.page, Page::Menu(_)));
}

#[test]
fn welcome_ignores_ticks() {
    let mut state = fresh();
    let before = state;
    send(&mut state, Event::Clock(Duration::from_secs(1)));
    assert_eq!(state, before);
}

#[test]
fn long_control_press_enters_menu_from_anywhere() {
    let mut state = fresh();
    send(
        &mut state,
        Event::ButtonPushed(Button::Left, PressType::Single),
    );
    assert!(matches!(state.page, Page::Game(_)));
    send(
        &mut state,
        Event::ButtonPushed(Button::Control, PressType::Long),
    );
    assert!(matches!(state.page, Page::Menu(_)));
}

#[test]
fn long_control_press_in_menu_returns_to_welcome() {
    let mut state = fresh();
    send(
        &mut state,
        Event::ButtonPushed(Button::Control, PressType::Long),
    );
    assert!(matches!(state.page, Page::Menu(_)));
    send(
        &mut state,
        Event::ButtonPushed(Button::Control, PressType::Long),
    );
    assert!(matches!(state.page, Page::Welcome));
}

#[test]
fn running_out_of_time_requests_game_over_naming_the_loser() {
    let mut state = fresh();
    state.game_config = GameConfig {
        left_time: Duration::from_secs(2),
        right_time: Duration::from_secs(2),
        increment_type: chess_clock::menu::IncrementType::SuddenDeath,
    };
    send(
        &mut state,
        Event::ButtonPushed(Button::Left, PressType::Single),
    );
    // Start the clock, then let the left player's time run out.
    send(
        &mut state,
        Event::ButtonPushed(Button::Left, PressType::Single),
    );
    send(&mut state, Event::Clock(Duration::from_secs(1)));
    let effects = {
        let mut effects = Effects::new();
        state
            .handle_event(&mut effects, Event::Clock(Duration::from_secs(1)))
            .expect("event handling cannot fail");
        effects
    };
    assert_eq!(effects.page_change, Some(Page::GameOver(Player::Left)));
    state.apply_effects(&effects);
    assert!(matches!(state.page, Page::GameOver(Player::Left)));
}

#[test]
fn game_over_ignores_further_ticks() {
    let mut state = fresh();
    state.page = Page::GameOver(Player::Right);
    let before = state;
    let effects = send(&mut state, Event::Clock(Duration::from_secs(1)));
    assert_eq!(state, before);
    assert!(effects.buzz.is_none());
    assert!(effects.page_change.is_none());
}

#[test]
fn game_over_buttons_restart_or_open_menu() {
    let mut state = fresh();
    state.page = Page::GameOver(Player::Left);
    send(
        &mut state,
        Event::ButtonPushed(Button::Right, PressType::Single),
    );
    match state.page {
        Page::Game(game) => assert_eq!(game.turn, Player::Right),
        _ => panic!("expected a game page"),
    }

    state.page = Page::GameOver(Player::Left);
    send(
        &mut state,
        Event::ButtonPushed(Button::Control, PressType::Single),
    );
    assert!(matches!(state.page, Page::Menu(_)));
}

#[test]
fn init_page_ignores_ordinary_events() {
    let mut state = fresh();
    state.page = Page::Init;
    let before = state;
    send(
        &mut state,
        Event::ButtonPushed(Button::Left, PressType::Single),
    );
    assert_eq!(state, before);
}
