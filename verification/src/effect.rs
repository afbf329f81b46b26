//! Side effects requested while one event is processed.
//!
//! Handlers never act on the world directly: they record what should happen
//! in an [`Effects`] value, and the embedding event loop applies it after the
//! transition. Repeated requests within one event merge deterministically:
//! the higher buzzer frequency wins, tick-enable flags combine with or, and
//! the first page change wins.

use vstd::prelude::*;

use crate::app::Page;
use crate::time::Duration;

verus! {

/// A buzzer request: a tone at `freq` hertz for `duration`.
#[derive(Clone, Copy, PartialEq, Eq, Structural, Debug)]
pub struct Buzz {
    pub freq: u32,
    pub duration: Duration,
}

/// The side effects accumulated while one event is processed.
#[derive(Clone, Copy, Debug)]
pub struct Effects {
    pub set_clock: Option<bool>,
    pub buzz: Option<Buzz>,
    pub page_change: Option<Page>,
}

/// A request to the embedding program outside the event loop: start or stop
/// the tick source, sound the buzzer, or enter the low-power sleep state.
#[derive(Clone, Copy, Debug)]
pub enum SystemEvent {
    SetClock(bool),
    Buzz(Buzz),
    Sleep(bool),
}

impl Effects {
    /// The accumulator after a tick-enable request: combined with or.
    pub open spec fn spec_with_clock(self, clock: bool) -> Effects {
        Effects {
            set_clock: Some(
                match self.set_clock {
                    Some(prev) => prev || clock,
                    None => clock,
                },
            ),
            ..self
        }
    }

    /// The accumulator after a buzzer request: the higher frequency wins.
    pub open spec fn spec_with_buzz(self, freq: u32, duration: Duration) -> Effects {
        match self.buzz {
            Some(prev) => if freq > prev.freq {
                Effects { buzz: Some(Buzz { freq, duration }), ..self }
            } else {
                self
            },
            None => Effects { buzz: Some(Buzz { freq, duration }), ..self },
        }
    }

    /// The accumulator after a page-change request: the first wins.
    pub open spec fn spec_with_page(self, page: Page) -> Effects {
        match self.page_change {
            Some(_) => self,
            None => Effects { page_change: Some(page), ..self },
        }
    }

    /// An empty accumulator, created afresh for each event.
    pub fn new() -> (r: Effects)
        ensures
            r.set_clock is None,
            r.buzz is None,
            r.page_change is None,
    {
        Effects { set_clock: None, buzz: None, page_change: None }
    }

    /// Request the tick source on or off; merged with or against any request
    /// already recorded for this event.
    pub fn set_clock(&mut self, clock: bool)
        ensures
            *final(self) == old(self).spec_with_clock(clock),
    {
        let merged = match self.set_clock {
            Some(prev) => prev || clock,
            None => clock,
        };
        self.set_clock = Some(merged);
    }

    /// Request a buzzer tone; of two requests in one event the higher
    /// frequency is kept.
    pub fn buzz(&mut self, freq: u32, duration: Duration)
        ensures
            *final(self) == old(self).spec_with_buzz(freq, duration),
    {
        match self.buzz {
            Some(prev) => {
                if freq > prev.freq {
                    self.buzz = Some(Buzz { freq, duration });
                }
            },
            None => {
                self.buzz = Some(Buzz { freq, duration });
            },
        }
    }

    /// Request a page change; the first request in an event wins.
    pub fn page_change(&mut self, page: Page)
        ensures
            *final(self) == old(self).spec_with_page(page),
    {
        if self.page_change.is_none() {
            self.page_change = Some(page);
        }
    }
}

} // verus!
