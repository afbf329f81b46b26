//! Top-level application state: pages and the events that drive them.

use vstd::prelude::*;

use crate::effect::Effects;
use crate::error::Error;
use crate::game::{
    spec_game_effects, spec_game_render, spec_game_render_ok, spec_game_step, GameState, Player,
};
use crate::menu::{
    spec_menu_render, spec_menu_render_ok, EditState, GameConfig, MenuState,
};
use crate::output::{OutputOp, Outputs};
use crate::time::Duration;

verus! {

/// The three physical buttons.
#[derive(Clone, Copy, PartialEq, Eq, Structural, Debug)]
pub enum Button {
    Left,
    Right,
    Control,
}

/// How long a button was held.
#[derive(Clone, Copy, PartialEq, Eq, Structural, Debug)]
pub enum PressType {
    Single,
    Long,
}

/// An input event: a classified button press, or the periodic clock tick
/// carrying the span that elapsed since the previous tick.
#[derive(Clone, Copy, PartialEq, Eq, Structural, Debug)]
pub enum Event {
    ButtonPushed(Button, PressType),
    Clock(Duration),
}

/// The top-level page: at most one is active, and `Init` is only the
/// synthetic "no prior state" sentinel for the first render.
#[derive(Clone, Copy, PartialEq, Eq, Structural, Debug)]
pub enum Page {
    Init,
    Welcome,
    Menu(MenuState),
    Game(GameState),
    GameOver(Player),
}

impl Page {
    /// Whether the page kind differs, regardless of the state it carries.
    pub open spec fn spec_is_changed(self, other: Page) -> bool {
        match self {
            Page::Init => !(other is Init),
            Page::Welcome => !(other is Welcome),
            Page::Menu(_) => !(other is Menu),
            Page::Game(_) => !(other is Game),
            Page::GameOver(_) => !(other is GameOver),
        }
    }

    /// Whether the page kind differs, regardless of the state it carries.
    pub fn is_changed(&self, other: &Page) -> (r: bool)
        ensures
            r == self.spec_is_changed(*other),
    {
        match self {
            Page::Init => !matches!(other, Page::Init),
            Page::Welcome => !matches!(other, Page::Welcome),
            Page::Menu(_) => !matches!(other, Page::Menu(_)),
            Page::Game(_) => !matches!(other, Page::Game(_)),
            Page::GameOver(_) => !matches!(other, Page::GameOver(_)),
        }
    }
}

/// The writes a page-kind change issues before the new page is drawn.
pub open spec fn spec_page_change_render(prev: AppState, cur: AppState) -> Seq<OutputOp> {
    if cur.page.spec_is_changed(prev.page) {
        seq![OutputOp::Clear, OutputOp::CursorBlink(false), OutputOp::CursorOn(false)]
    } else {
        Seq::empty()
    }
}

/// The writes of the game-over page: the loser's name and a caption, drawn
/// only when not already shown.
pub open spec fn spec_gameover_render(prev: Page, loser: Player) -> Seq<OutputOp> {
    if (match prev {
        Page::GameOver(p) => p != loser,
        _ => true,
    }) {
        seq![
            OutputOp::SetCursor(0, 0),
            OutputOp::Text(
                match loser {
                    Player::Left => "Left player"@,
                    Player::Right => "Right player"@,
                },
            ),
            OutputOp::SetCursor(1, 0),
            OutputOp::Text("timeout :("@),
        ]
    } else {
        Seq::empty()
    }
}

/// Everything one full render writes.
pub open spec fn spec_app_render(prev: AppState, cur: AppState) -> Seq<OutputOp> {
    spec_page_change_render(prev, cur) + match cur.page {
        Page::Init => Seq::empty(),
        Page::Welcome => if !(prev.page is Welcome) {
            seq![OutputOp::SetCursor(0, 3), OutputOp::Text("ChessClock"@)]
        } else {
            Seq::empty()
        },
        Page::Menu(menu_state) => spec_menu_render(
            match prev.page {
                Page::Menu(m) => Some(m),
                _ => None,
            },
            prev.game_config,
            menu_state,
            cur.game_config,
        ),
        Page::Game(game_state) => spec_game_render(
            match prev.page {
                Page::Game(g) => Some(g),
                _ => None,
            },
            game_state,
        ),
        Page::GameOver(loser) => spec_gameover_render(prev.page, loser),
    }
}

/// A full render succeeds exactly when every time value it has to draw fits
/// the fixed-width field.
pub open spec fn spec_app_render_ok(prev: AppState, cur: AppState) -> bool {
    match cur.page {
        Page::Menu(menu_state) => spec_menu_render_ok(
            match prev.page {
                Page::Menu(m) => Some(m),
                _ => None,
            },
            prev.game_config,
            menu_state,
            cur.game_config,
        ),
        Page::Game(game_state) => spec_game_render_ok(
            match prev.page {
                Page::Game(g) => Some(g),
                _ => None,
            },
            game_state,
        ),
        _ => true,
    }
}

/// The whole application: the configuration and the active page.
#[derive(Clone, Copy, PartialEq, Eq, Structural, Debug)]
pub struct AppState {
    pub game_config: GameConfig,
    pub page: Page,
}

impl AppState {
    /// The active page's own well-formedness: a menu cursor within bounds,
    /// a game whose grace span respects its rule.
    pub open spec fn wf(self) -> bool {
        match self.page {
            Page::Menu(menu_state) => menu_state.wf(),
            Page::Game(game_state) => game_state.inv(self.game_config),
            _ => true,
        }
    }

    /// [`AppState::wf`] plus the arithmetic headroom one game event needs.
    pub open spec fn ready(self) -> bool {
        &&& self.wf()
        &&& match self.page {
            Page::Game(game_state) => game_state.add_fits(self.game_config),
            _ => true,
        }
    }

    /// The state after one event: a long press of the control button leaves
    /// the menu or (re)enters it from anywhere, and every other event goes to
    /// the active page.
    pub open spec fn spec_step(self, ev: Event) -> AppState {
        match ev {
            Event::ButtonPushed(Button::Control, PressType::Long) => AppState {
                page: if self.page is Menu {
                    Page::Welcome
                } else {
                    Page::Menu(MenuState { item_index: 0, edit_mode: EditState::NotEditing })
                },
                ..self
            },
            _ => match self.page {
                Page::Init => self,
                Page::Welcome => match ev {
                    Event::ButtonPushed(Button::Left, _) => AppState {
                        page: Page::Game(GameState::spec_new(self.game_config, Player::Left)),
                        ..self
                    },
                    Event::ButtonPushed(Button::Right, _) => AppState {
                        page: Page::Game(GameState::spec_new(self.game_config, Player::Right)),
                        ..self
                    },
                    Event::ButtonPushed(Button::Control, _) => AppState {
                        page: Page::Menu(
                            MenuState { item_index: 0, edit_mode: EditState::NotEditing },
                        ),
                        ..self
                    },
                    Event::Clock(_) => self,
                },
                Page::Menu(menu_state) => {
                    let stepped = menu_state.spec_step(self.game_config, ev);
                    AppState { game_config: stepped.1, page: Page::Menu(stepped.0) }
                },
                Page::Game(game_state) => AppState {
                    page: Page::Game(spec_game_step(self.game_config, game_state, ev)),
                    ..self
                },
                Page::GameOver(_) => match ev {
                    Event::ButtonPushed(Button::Left, _) => AppState {
                        page: Page::Game(GameState::spec_new(self.game_config, Player::Left)),
                        ..self
                    },
                    Event::ButtonPushed(Button::Right, _) => AppState {
                        page: Page::Game(GameState::spec_new(self.game_config, Player::Right)),
                        ..self
                    },
                    Event::ButtonPushed(Button::Control, _) => AppState {
                        page: Page::Menu(
                            MenuState { item_index: 0, edit_mode: EditState::NotEditing },
                        ),
                        ..self
                    },
                    Event::Clock(_) => self,
                },
            },
        }
    }

    /// The accumulator after one event: only the game page requests effects.
    pub open spec fn spec_step_effects(self, e: Effects, ev: Event) -> Effects {
        match ev {
            Event::ButtonPushed(Button::Control, PressType::Long) => e,
            _ => match self.page {
                Page::Game(game_state) => spec_game_effects(e, self.game_config, game_state, ev),
                _ => e,
            },
        }
    }

    /// Route one event and record the requested effects.
    pub fn handle_event(&mut self, effects: &mut Effects, event: Event) -> (r: Result<(), Error>)
        requires
            old(self).ready(),
        ensures
            r is Ok,
            *final(self) == old(self).spec_step(event),
            *final(effects) == old(self).spec_step_effects(*old(effects), event),
            final(self).wf(),
    {
        match event {
            Event::ButtonPushed(Button::Control, PressType::Long) => {
                if matches!(self.page, Page::Menu(_)) {
                    self.page = Page::Welcome;
                } else {
                    self.page = Page::Menu(MenuState::new());
                }
            },
            _ => match self.page {
                Page::Init => {},
                Page::Welcome => match event {
                    Event::ButtonPushed(Button::Left, _) => {
                        self.page = Page::Game(GameState::new(&self.game_config, Player::Left));
                    },
                    Event::ButtonPushed(Button::Right, _) => {
                        self.page = Page::Game(GameState::new(&self.game_config, Player::Right));
                    },
                    Event::ButtonPushed(Button::Control, _) => {
                        self.page = Page::Menu(MenuState::new());
                    },
                    Event::Clock(_) => {},
                },
                Page::Menu(menu_state) => {
                    let mut stepped = menu_state;
                    stepped.handle_event(&mut self.game_config, &event);
                    self.page = Page::Menu(stepped);
                },
                Page::Game(game_state) => {
                    let mut stepped = game_state;
                    stepped.handle_event(effects, &self.game_config, &event);
                    self.page = Page::Game(stepped);
                },
                Page::GameOver(_) => match event {
                    Event::ButtonPushed(Button::Left, _) => {
                        self.page = Page::Game(GameState::new(&self.game_config, Player::Left));
                    },
                    Event::ButtonPushed(Button::Right, _) => {
                        self.page = Page::Game(GameState::new(&self.game_config, Player::Right));
                    },
                    Event::ButtonPushed(Button::Control, _) => {
                        self.page = Page::Menu(MenuState::new());
                    },
                    Event::Clock(_) => {},
                },
            },
        }
        Ok(())
    }

    /// Render the whole application against the previous state: clear and
    /// redraw on a page-kind change, otherwise only the page's own deltas.
    pub fn display_state(&self, prev_state: &AppState, outputs: &mut Outputs) -> (r: Result<
        (),
        Error,
    >)
        requires
            self.wf(),
        ensures
            r is Ok <==> spec_app_render_ok(*prev_state, *self),
            r is Ok ==> final(outputs)@ == old(outputs)@ + spec_app_render(*prev_state, *self),
    {
        let ghost base = old(outputs)@;
        if self.page.is_changed(&prev_state.page) {
            outputs.clear();
            outputs.cursor_blink(false);
            outputs.cursor_on(false);
        }
        proof {
            assert(outputs@ =~= base + spec_page_change_render(*prev_state, *self));
        }
        match self.page {
            Page::Init => {},
            Page::Welcome => {
                if !matches!(prev_state.page, Page::Welcome) {
                    outputs.set_cursor(0, 3);
                    outputs.write_str("ChessClock");
                }
            },
            Page::Menu(menu_state) => {
                let prev_menu = match prev_state.page {
                    Page::Menu(ref m) => Some(m),
                    _ => None,
                };
                menu_state.display_state(
                    prev_menu,
                    &prev_state.game_config,
                    &self.game_config,
                    outputs,
                )?;
            },
            Page::Game(game_state) => {
                let prev_game = match prev_state.page {
                    Page::Game(ref g) => Some(g),
                    _ => None,
                };
                game_state.display_state(prev_game, outputs)?;
            },
            Page::GameOver(loser) => {
                let shown = match prev_state.page {
                    Page::GameOver(p) => p == loser,
                    _ => false,
                };
                if !shown {
                    outputs.set_cursor(0, 0);
                    match loser {
                        Player::Left => {
                            outputs.write_str("Left player");
                        },
                        Player::Right => {
                            outputs.write_str("Right player");
                        },
                    }
                    outputs.set_cursor(1, 0);
                    outputs.write_str("timeout :(");
                }
            },
        }
        proof {
            assert(outputs@ =~= base + spec_app_render(*prev_state, *self));
        }
        Ok(())
    }

    /// Apply the accumulated page change, as the event loop does after each
    /// event; the buzzer and tick requests are the embedding program's part.
    pub fn apply_effects(&mut self, effects: &Effects)
        ensures
            *final(self) == match effects.page_change {
                Some(page) => AppState { page, ..*old(self) },
                None => *old(self),
            },
    {
        if let Some(page) = effects.page_change {
            self.page = page;
        }
    }
}

/// Rendering a state against itself writes nothing: once a render has made
/// previous and current agree, replaying it produces no further writes, so
/// a stable state causes no flicker.
pub proof fn lemma_render_stable(state: AppState)
    ensures
        spec_app_render(state, state) == Seq::<OutputOp>::empty(),
        spec_app_render_ok(state, state),
{
    assert(spec_app_render(state, state) =~= Seq::<OutputOp>::empty());
}

/// Once the game-over page is active, clock ticks neither change the state
/// nor request anything: no further decrements occur.
pub proof fn lemma_game_over_ignores_clock(state: AppState, effects: Effects, duration: Duration)
    requires
        state.page is GameOver,
    ensures
        state.spec_step(Event::Clock(duration)) == state,
        state.spec_step_effects(effects, Event::Clock(duration)) == effects,
{
}

/// Hold time beyond which a press counts as long.
pub const LONG_PRESS_TICKS: u64 = 300;

/// Classify a press from the span the button was held, as the debounce layer
/// does: over [`LONG_PRESS_TICKS`] is a long press.
pub fn classify_press(held: Duration) -> (r: PressType)
    ensures
        r == (if held.ticks > LONG_PRESS_TICKS {
            PressType::Long
        } else {
            PressType::Single
        }),
{
    if held.as_ticks() > LONG_PRESS_TICKS {
        PressType::Long
    } else {
        PressType::Single
    }
}

} // verus!
