//! The game timer engine: per-player remaining time, the active turn, and
//! the four time-control rules.

use vstd::prelude::*;

use crate::app::{Button, Event, Page, PressType};
use crate::aux::{format_secs, spec_format_secs, CeilTime};
use crate::effect::{Buzz, Effects};
use crate::error::Error;
use crate::menu::{GameConfig, IncrementType};
use crate::output::{OutputOp, Outputs};
use crate::time::{Duration, TICKS_PER_SEC};

verus! {

/// The two sides of the board.
#[derive(Clone, Copy, PartialEq, Eq, Structural, Debug)]
pub enum Player {
    Left,
    Right,
}

impl Player {
    /// The other side.
    pub open spec fn spec_other(self) -> Player {
        match self {
            Player::Left => Player::Right,
            Player::Right => Player::Left,
        }
    }
}

/// A running game: whose turn it is, both remaining times, the pause flag,
/// and the span that must still elapse before main time is consumed.
#[derive(Clone, Copy, PartialEq, Eq, Structural, Debug)]
pub struct GameState {
    pub turn: Player,
    pub left_time: Duration,
    pub right_time: Duration,
    pub paused: bool,
    pub delay: Duration,
}

/// The grace span the rule grants the given player when their move starts:
/// their configured delay under the delay rules, nothing otherwise.
pub open spec fn spec_initial_delay(cfg: GameConfig, player: Player) -> Duration {
    match cfg.increment_type {
        IncrementType::Delay { left_delay, right_delay } => match player {
            Player::Left => left_delay,
            Player::Right => right_delay,
        },
        IncrementType::Bronstein { left_delay, right_delay } => match player {
            Player::Left => left_delay,
            Player::Right => right_delay,
        },
        _ => Duration { ticks: 0 },
    }
}

/// Whether a decrement moved a remaining time from strictly above the
/// threshold to at or below it.
pub open spec fn spec_time_passing(set_time: Duration, prev_time: Duration, time: Duration) -> bool {
    prev_time.ticks > set_time.ticks && set_time.ticks >= time.ticks
}

fn time_passing(set_time: &Duration, prev_time: &Duration, time: &Duration) -> (r: bool)
    ensures
        r == spec_time_passing(*set_time, *prev_time, *time),
{
    prev_time.ticks > set_time.ticks && set_time.ticks >= time.ticks
}

/// Whether either player's time crossed the threshold of `secs` seconds.
pub open spec fn spec_either_passing(secs: int, prev: GameState, cur: GameState) -> bool {
    ||| spec_time_passing(Duration::spec_secs(secs), prev.left_time, cur.left_time)
    ||| spec_time_passing(Duration::spec_secs(secs), prev.right_time, cur.right_time)
}

/// Whether any nonzero alert threshold fired for either player.
pub open spec fn spec_high_beep(prev: GameState, cur: GameState) -> bool {
    ||| spec_either_passing(60, prev, cur)
    ||| spec_either_passing(10, prev, cur)
    ||| spec_either_passing(5, prev, cur)
    ||| spec_either_passing(4, prev, cur)
    ||| spec_either_passing(3, prev, cur)
    ||| spec_either_passing(2, prev, cur)
    ||| spec_either_passing(1, prev, cur)
}

/// The active player's remaining time after a decrement by `duration`,
/// clamped at zero.
pub open spec fn spec_decrement(st: GameState, duration: Duration) -> GameState {
    match st.turn {
        Player::Left => GameState { left_time: st.left_time.sat_sub(duration), ..st },
        Player::Right => GameState { right_time: st.right_time.sat_sub(duration), ..st },
    }
}

/// The alert a decrement requests: a short high tone when a nonzero
/// threshold fires, else a longer low tone when a time reaches zero.
pub open spec fn spec_decrement_buzz(prev: GameState, cur: GameState) -> Option<Buzz> {
    if spec_high_beep(prev, cur) {
        Some(Buzz { freq: 880, duration: Duration { ticks: 100 } })
    } else if spec_either_passing(0, prev, cur) {
        Some(Buzz { freq: 440, duration: Duration { ticks: 500 } })
    } else {
        None
    }
}

/// The game-over transition a decrement requests: the player whose time is
/// now spent, if any.
pub open spec fn spec_decrement_page(cur: GameState) -> Option<Player> {
    if cur.left_time.ticks == 0 {
        Some(Player::Left)
    } else if cur.right_time.ticks == 0 {
        Some(Player::Right)
    } else {
        None
    }
}

/// The accumulator after the requests of one decrement are recorded.
pub open spec fn spec_decrement_effects(e: Effects, prev: GameState, cur: GameState) -> Effects {
    let e1 = match spec_decrement_buzz(prev, cur) {
        Some(b) => e.spec_with_buzz(b.freq, b.duration),
        None => e,
    };
    match spec_decrement_page(cur) {
        Some(p) => e1.spec_with_page(Page::GameOver(p)),
        None => e1,
    }
}

/// What completing a move does, per rule: sudden death clears the grace
/// span; increment credits the mover's configured bonus; delay arms the next
/// mover's grace span; Bronstein refunds the part of the grace span actually
/// used, then arms the next mover's.
pub open spec fn spec_move_completed(cfg: GameConfig, st: GameState) -> GameState {
    let next = st.turn.spec_other();
    match cfg.increment_type {
        IncrementType::SuddenDeath => GameState { delay: Duration { ticks: 0 }, turn: next, ..st },
        IncrementType::Increment { left_increment, right_increment } => match st.turn {
            Player::Left => GameState {
                left_time: Duration { ticks: (st.left_time.ticks + left_increment.ticks) as u64 },
                delay: Duration { ticks: 0 },
                turn: next,
                ..st
            },
            Player::Right => GameState {
                right_time: Duration { ticks: (st.right_time.ticks + right_increment.ticks) as u64 },
                delay: Duration { ticks: 0 },
                turn: next,
                ..st
            },
        },
        IncrementType::Delay { left_delay, right_delay } => GameState {
            delay: match next {
                Player::Left => left_delay,
                Player::Right => right_delay,
            },
            turn: next,
            ..st
        },
        IncrementType::Bronstein { left_delay, right_delay } => match st.turn {
            Player::Left => GameState {
                left_time: Duration {
                    ticks: (st.left_time.ticks + (left_delay.ticks - st.delay.ticks)) as u64,
                },
                delay: right_delay,
                turn: next,
                ..st
            },
            Player::Right => GameState {
                right_time: Duration {
                    ticks: (st.right_time.ticks + (right_delay.ticks - st.delay.ticks)) as u64,
                },
                delay: left_delay,
                turn: next,
                ..st
            },
        },
    }
}

/// What a press of a player's own button does: start the clock when paused,
/// complete the move when it is that player's turn, nothing otherwise.
pub open spec fn spec_press(cfg: GameConfig, st: GameState, player: Player) -> GameState {
    if st.paused {
        GameState { paused: false, ..st }
    } else if st.turn == player {
        spec_move_completed(cfg, st)
    } else {
        st
    }
}

/// Whether a tick consumes main time: never while paused; while the grace
/// span runs, only under Bronstein, where grace and main time run together.
pub open spec fn spec_tick_decrements(cfg: GameConfig, st: GameState) -> bool {
    !st.paused && (st.delay.ticks == 0 || cfg.increment_type is Bronstein)
}

/// What a clock tick does: consume the grace span first under the delay
/// rules, main time otherwise; under Bronstein both run together.
pub open spec fn spec_tick(cfg: GameConfig, st: GameState, duration: Duration) -> GameState {
    if st.paused {
        st
    } else if st.delay.ticks != 0 {
        match cfg.increment_type {
            IncrementType::Delay { .. } => GameState { delay: st.delay.sat_sub(duration), ..st },
            IncrementType::Bronstein { .. } => spec_decrement(
                GameState { delay: st.delay.sat_sub(duration), ..st },
                duration,
            ),
            _ => st,
        }
    } else {
        spec_decrement(st, duration)
    }
}

/// The state after one event, whatever the event.
pub open spec fn spec_game_step(cfg: GameConfig, st: GameState, ev: Event) -> GameState {
    match ev {
        Event::ButtonPushed(Button::Left, _) => spec_press(cfg, st, Player::Left),
        Event::ButtonPushed(Button::Right, _) => spec_press(cfg, st, Player::Right),
        Event::ButtonPushed(Button::Control, PressType::Single) => GameState {
            paused: !st.paused,
            ..st
        },
        Event::ButtonPushed(Button::Control, PressType::Long) => st,
        Event::Clock(duration) => spec_tick(cfg, st, duration),
    }
}

/// The accumulator after the requests of one event are recorded: only a
/// tick that consumes main time requests anything.
pub open spec fn spec_game_effects(e: Effects, cfg: GameConfig, st: GameState, ev: Event) -> Effects {
    match ev {
        Event::Clock(duration) => if spec_tick_decrements(cfg, st) {
            spec_decrement_effects(e, st, spec_tick(cfg, st, duration))
        } else {
            e
        },
        _ => e,
    }
}

/// The previous game state behind the optional reference, if any.
pub open spec fn spec_prev_game(prev: Option<&GameState>) -> Option<GameState> {
    match prev {
        Some(s) => Some(*s),
        None => None,
    }
}

/// The indicator writes a render issues: both "to move" outputs, only when
/// the turn differs from the previous state.
pub open spec fn spec_turn_render(prev: Option<GameState>, cur: GameState) -> Seq<OutputOp> {
    if (match prev {
        Some(s) => s.turn != cur.turn,
        None => true,
    }) {
        match cur.turn {
            Player::Left => seq![OutputOp::LeftLed(true), OutputOp::RightLed(false)],
            Player::Right => seq![OutputOp::LeftLed(false), OutputOp::RightLed(true)],
        }
    } else {
        Seq::empty()
    }
}

/// The writes for the left player's time field, only when its displayed
/// whole-second value changed.
pub open spec fn spec_left_time_render(prev: Option<GameState>, cur: GameState) -> Seq<OutputOp> {
    if (match prev {
        Some(s) => s.left_time.spec_ceil_secs() != cur.left_time.spec_ceil_secs(),
        None => true,
    }) {
        seq![
            OutputOp::SetCursor(0, 0),
            OutputOp::Text(spec_format_secs(cur.left_time.spec_ceil_secs() as int)),
        ]
    } else {
        Seq::empty()
    }
}

/// The writes for the right player's time field, only when its displayed
/// whole-second value changed.
pub open spec fn spec_right_time_render(prev: Option<GameState>, cur: GameState) -> Seq<OutputOp> {
    if (match prev {
        Some(s) => s.right_time.spec_ceil_secs() != cur.right_time.spec_ceil_secs(),
        None => true,
    }) {
        seq![
            OutputOp::SetCursor(0, 11),
            OutputOp::Text(spec_format_secs(cur.right_time.spec_ceil_secs() as int)),
        ]
    } else {
        Seq::empty()
    }
}

/// The writes for the pause marker, only when the pause flag changed.
pub open spec fn spec_paused_render(prev: Option<GameState>, cur: GameState) -> Seq<OutputOp> {
    if (match prev {
        Some(s) => s.paused != cur.paused,
        None => true,
    }) {
        seq![
            OutputOp::SetCursor(1, 5),
            OutputOp::Text(
                if cur.paused {
                    "paused"@
                } else {
                    "      "@
                },
            ),
        ]
    } else {
        Seq::empty()
    }
}

/// Everything one game render writes.
pub open spec fn spec_game_render(prev: Option<GameState>, cur: GameState) -> Seq<OutputOp> {
    spec_turn_render(prev, cur) + spec_left_time_render(prev, cur) + spec_right_time_render(
        prev,
        cur,
    ) + spec_paused_render(prev, cur)
}

/// A game render succeeds exactly when every time it has to draw fits the
/// fixed-width field.
pub open spec fn spec_game_render_ok(prev: Option<GameState>, cur: GameState) -> bool {
    &&& (spec_left_time_render(prev, cur).len() > 0 ==> cur.left_time.spec_ceil_secs() <= 5999)
    &&& (spec_right_time_render(prev, cur).len() > 0 ==> cur.right_time.spec_ceil_secs() <= 5999)
}

/// Under every rule and for every tick span, remaining time after a tick is
/// never negative — it lives in an unsigned tick count and every decrement
/// clamps at zero — and it never increases, whether the game is paused or
/// running.
pub proof fn lemma_tick_monotone(cfg: GameConfig, st: GameState, duration: Duration)
    ensures
        spec_tick(cfg, st, duration).left_time.ticks <= st.left_time.ticks,
        spec_tick(cfg, st, duration).right_time.ticks <= st.right_time.ticks,
{
}

/// The Bronstein refund: when the mover completes a move, their time grows
/// by exactly `configured delay - unused delay remaining`, a credit that is
/// never negative and never exceeds the configured delay.
pub proof fn lemma_bronstein_credit(cfg: GameConfig, st: GameState)
    requires
        cfg.increment_type is Bronstein,
        st.inv(cfg),
        st.add_fits(cfg),
        !st.paused,
    ensures
        ({
            let moved = spec_press(cfg, st, st.turn);
            let granted = spec_initial_delay(cfg, st.turn);
            let credited = granted.ticks - st.delay.ticks;
            &&& 0 <= credited <= granted.ticks
            &&& (st.turn is Left ==> moved.left_time.ticks == st.left_time.ticks + credited)
            &&& (st.turn is Right ==> moved.right_time.ticks == st.right_time.ticks + credited)
        }),
{
}

impl GameState {
    /// The pending grace span never exceeds the span configured for the
    /// player to move, and rules without a grace concept have none pending.
    pub open spec fn inv(self, cfg: GameConfig) -> bool {
        match cfg.increment_type {
            IncrementType::SuddenDeath => self.delay.ticks == 0,
            IncrementType::Increment { .. } => self.delay.ticks == 0,
            IncrementType::Delay { .. } => self.delay.ticks <= spec_initial_delay(
                cfg,
                self.turn,
            ).ticks,
            IncrementType::Bronstein { .. } => self.delay.ticks <= spec_initial_delay(
                cfg,
                self.turn,
            ).ticks,
        }
    }

    /// The headroom one move completion needs: crediting a bonus or a refund
    /// must not overflow the tick counter.
    pub open spec fn add_fits(self, cfg: GameConfig) -> bool {
        match cfg.increment_type {
            IncrementType::SuddenDeath => true,
            IncrementType::Increment { left_increment, right_increment } => {
                &&& self.left_time.ticks + left_increment.ticks <= u64::MAX
                &&& self.right_time.ticks + right_increment.ticks <= u64::MAX
            },
            IncrementType::Delay { .. } => true,
            IncrementType::Bronstein { left_delay, right_delay } => {
                &&& self.left_time.ticks + left_delay.ticks <= u64::MAX
                &&& self.right_time.ticks + right_delay.ticks <= u64::MAX
            },
        }
    }

    /// The state a new game starts from.
    pub open spec fn spec_new(cfg: GameConfig, first_player: Player) -> GameState {
        GameState {
            turn: first_player,
            left_time: cfg.left_time,
            right_time: cfg.right_time,
            paused: true,
            delay: spec_initial_delay(cfg, first_player),
        }
    }

    /// Start a game: both times from the configuration, paused, the first
    /// player's grace span armed.
    pub fn new(game_config: &GameConfig, first_player: Player) -> (r: GameState)
        ensures
            r == Self::spec_new(*game_config, first_player),
            r.inv(*game_config),
    {
        let delay = match game_config.increment_type {
            IncrementType::Delay { left_delay, right_delay } => match first_player {
                Player::Left => left_delay,
                Player::Right => right_delay,
            },
            IncrementType::Bronstein { left_delay, right_delay } => match first_player {
                Player::Left => left_delay,
                Player::Right => right_delay,
            },
            _ => Duration::from_ticks(0),
        };
        GameState {
            turn: first_player,
            left_time: game_config.left_time,
            right_time: game_config.right_time,
            paused: true,
            delay,
        }
    }

    /// Apply one event to the running game and record the requested alerts
    /// and page transition.
    pub fn handle_event(&mut self, effects: &mut Effects, game_config: &GameConfig, event: &Event)
        requires
            old(self).inv(*game_config),
            old(self).add_fits(*game_config),
        ensures
            *final(self) == spec_game_step(*game_config, *old(self), *event),
            *final(effects) == spec_game_effects(*old(effects), *game_config, *old(self), *event),
            final(self).inv(*game_config),
    {
        match event {
            Event::ButtonPushed(Button::Left, _) => {
                if self.paused {
                    self.paused = false;
                } else if self.turn == Player::Left {
                    match game_config.increment_type {
                        IncrementType::SuddenDeath => {
                            self.delay = Duration::from_ticks(0);
                        },
                        IncrementType::Increment { left_increment, .. } => {
                            self.left_time = Duration::from_ticks(
                                self.left_time.as_ticks() + left_increment.as_ticks(),
                            );
                            self.delay = Duration::from_ticks(0);
                        },
                        IncrementType::Delay { right_delay, .. } => {
                            self.delay = right_delay;
                        },
                        IncrementType::Bronstein { left_delay, right_delay } => {
                            self.left_time = Duration::from_ticks(
                                self.left_time.as_ticks() + (left_delay.as_ticks()
                                    - self.delay.as_ticks()),
                            );
                            self.delay = right_delay;
                        },
                    }
                    self.turn = Player::Right;
                }
            },
            Event::ButtonPushed(Button::Right, _) => {
                if self.paused {
                    self.paused = false;
                } else if self.turn == Player::Right {
                    match game_config.increment_type {
                        IncrementType::SuddenDeath => {
                            self.delay = Duration::from_ticks(0);
                        },
                        IncrementType::Increment { right_increment, .. } => {
                            self.right_time = Duration::from_ticks(
                                self.right_time.as_ticks() + right_increment.as_ticks(),
                            );
                            self.delay = Duration::from_ticks(0);
                        },
                        IncrementType::Delay { left_delay, .. } => {
                            self.delay = left_delay;
                        },
                        IncrementType::Bronstein { left_delay, right_delay } => {
                            self.right_time = Duration::from_ticks(
                                self.right_time.as_ticks() + (right_delay.as_ticks()
                                    - self.delay.as_ticks()),
                            );
                            self.delay = left_delay;
                        },
                    }
                    self.turn = Player::Left;
                }
            },
            Event::ButtonPushed(Button::Control, PressType::Single) => {
                self.paused = !self.paused;
            },
            Event::ButtonPushed(Button::Control, PressType::Long) => {},
            Event::Clock(duration) => {
                if !self.paused {
                    if self.delay.as_ticks() != 0 {
                        match game_config.increment_type {
                            IncrementType::Delay { .. } => {
                                self.delay = self.delay.saturating_sub(*duration);
                            },
                            IncrementType::Bronstein { .. } => {
                                self.delay = self.delay.saturating_sub(*duration);
                                self.decrement_time(effects, duration);
                            },
                            _ => {},
                        }
                    } else {
                        self.decrement_time(effects, duration);
                    }
                }
            },
        }
    }

    /// Render only what changed against the previous game state: the turn
    /// indicators, each player's time, and the pause marker.
    #[verifier::rlimit(60)]
    pub fn display_state(&self, prev_state: Option<&GameState>, outputs: &mut Outputs) -> (r:
        Result<(), Error>)
        ensures
            r is Ok <==> spec_game_render_ok(spec_prev_game(prev_state), *self),
            r is Ok ==> final(outputs)@ == old(outputs)@ + spec_game_render(
                spec_prev_game(prev_state),
                *self,
            ),
    {
        let ghost base = old(outputs)@;
        let ghost prev = spec_prev_game(prev_state);

        let turn_changed = match prev_state {
            Some(s) => s.turn != self.turn,
            None => true,
        };
        if turn_changed {
            match self.turn {
                Player::Left => {
                    outputs.left_led(true);
                    outputs.right_led(false);
                },
                Player::Right => {
                    outputs.left_led(false);
                    outputs.right_led(true);
                },
            }
        }
        proof {
            assert(outputs@ =~= base + spec_turn_render(prev, *self));
        }

        let left_secs = self.left_time.ceil_secs();
        let left_changed = match prev_state {
            Some(s) => s.left_time.ceil_secs() != left_secs,
            None => true,
        };
        if left_changed {
            outputs.set_cursor(0, 0);
            let text = format_secs(left_secs)?;
            outputs.write_str(text.as_str());
        }
        proof {
            assert(outputs@ =~= base + spec_turn_render(prev, *self) + spec_left_time_render(
                prev,
                *self,
            ));
        }

        let right_secs = self.right_time.ceil_secs();
        let right_changed = match prev_state {
            Some(s) => s.right_time.ceil_secs() != right_secs,
            None => true,
        };
        if right_changed {
            outputs.set_cursor(0, 11);
            let text = format_secs(right_secs)?;
            outputs.write_str(text.as_str());
        }
        proof {
            assert(outputs@ =~= base + spec_turn_render(prev, *self) + spec_left_time_render(
                prev,
                *self,
            ) + spec_right_time_render(prev, *self));
        }

        let paused_changed = match prev_state {
            Some(s) => s.paused != self.paused,
            None => true,
        };
        if paused_changed {
            outputs.set_cursor(1, 5);
            if self.paused {
                outputs.write_str("paused");
            } else {
                outputs.write_str("      ");
            }
        }
        proof {
            assert(outputs@ =~= base + spec_game_render(prev, *self));
        }
        Ok(())
    }

    /// Consume the active player's main time and record the alert and
    /// game-over requests the decrement raises.
    fn decrement_time(&mut self, effects: &mut Effects, duration: &Duration)
        ensures
            *final(self) == spec_decrement(*old(self), *duration),
            *final(effects) == spec_decrement_effects(
                *old(effects),
                *old(self),
                spec_decrement(*old(self), *duration),
            ),
    {
        let prev_left_time = self.left_time;
        let prev_right_time = self.right_time;
        match self.turn {
            Player::Left => {
                self.left_time = self.left_time.saturating_sub(*duration);
            },
            Player::Right => {
                self.right_time = self.right_time.saturating_sub(*duration);
            },
        }

        let high_beep = time_passing(&Duration::from_secs(60), &prev_left_time, &self.left_time)
            || time_passing(&Duration::from_secs(60), &prev_right_time, &self.right_time)
            || time_passing(&Duration::from_secs(10), &prev_left_time, &self.left_time)
            || time_passing(&Duration::from_secs(10), &prev_right_time, &self.right_time)
            || time_passing(&Duration::from_secs(5), &prev_left_time, &self.left_time)
            || time_passing(&Duration::from_secs(5), &prev_right_time, &self.right_time)
            || time_passing(&Duration::from_secs(4), &prev_left_time, &self.left_time)
            || time_passing(&Duration::from_secs(4), &prev_right_time, &self.right_time)
            || time_passing(&Duration::from_secs(3), &prev_left_time, &self.left_time)
            || time_passing(&Duration::from_secs(3), &prev_right_time, &self.right_time)
            || time_passing(&Duration::from_secs(2), &prev_left_time, &self.left_time)
            || time_passing(&Duration::from_secs(2), &prev_right_time, &self.right_time)
            || time_passing(&Duration::from_secs(1), &prev_left_time, &self.left_time)
            || time_passing(&Duration::from_secs(1), &prev_right_time, &self.right_time);
        let low_beep = time_passing(&Duration::from_secs(0), &prev_left_time, &self.left_time)
            || time_passing(&Duration::from_secs(0), &prev_right_time, &self.right_time);

        if high_beep {
            effects.buzz(880, Duration::from_millis(100));
        } else if low_beep {
            effects.buzz(440, Duration::from_millis(500));
        }

        if self.left_time.as_ticks() == 0 {
            effects.page_change(Page::GameOver(Player::Left));
        } else if self.right_time.as_ticks() == 0 {
            effects.page_change(Page::GameOver(Player::Right));
        }
    }
}

} // verus!

