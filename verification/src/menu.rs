//! The menu: a cursor over the configurable fields and bounded, clamped edits
//! to the game configuration.

use vstd::prelude::*;

use crate::app::{Button, Event, PressType};
use crate::aux::{format_duration, spec_format_secs};
use crate::error::Error;
use crate::output::{OutputOp, Outputs};
use crate::time::{Duration, TICKS_PER_SEC};

verus! {

/// The time-control rule, with its per-side spans.
#[derive(Clone, Copy, PartialEq, Eq, Structural, Debug)]
pub enum IncrementType {
    SuddenDeath,
    Increment { left_increment: Duration, right_increment: Duration },
    Delay { left_delay: Duration, right_delay: Duration },
    Bronstein { left_delay: Duration, right_delay: Duration },
}

/// The configuration a game starts from: each side's main time and the rule.
#[derive(Clone, Copy, PartialEq, Eq, Structural, Debug)]
pub struct GameConfig {
    pub left_time: Duration,
    pub right_time: Duration,
    pub increment_type: IncrementType,
}

/// The built-in configuration on power-up: the first preset.
pub open spec fn spec_default_config() -> GameConfig {
    spec_preset_config(0)
}

impl core::default::Default for GameConfig {
    fn default() -> (r: GameConfig)
        ensures
            r == spec_default_config(),
    {
        GameConfig {
            left_time: Duration::from_secs(600),
            right_time: Duration::from_secs(15),
            increment_type: IncrementType::Bronstein {
                left_delay: Duration::from_secs(15),
                right_delay: Duration::from_secs(15),
            },
        }
    }
}

/// The editable fields, in menu order.
#[derive(Clone, Copy, PartialEq, Eq, Structural, Debug)]
pub enum MenuItem {
    Preset,
    LeftTime,
    RightTime,
    IncrementType,
    LeftDelay,
    RightDelay,
}

/// An editable sub-column of a field: where its cursor sits on the display
/// and by how much one button press moves the value.
#[derive(Clone, Copy, PartialEq, Eq, Structural, Debug)]
pub struct Cursor {
    pub position: u8,
    pub multiplier: u64,
}

impl Cursor {
    pub fn new(position: u8, multiplier: u64) -> (r: Cursor)
        ensures
            r.position == position,
            r.multiplier == multiplier,
    {
        Cursor { position, multiplier }
    }
}

/// Number of fields in the menu.
pub const MENU_LEN: usize = 6;

/// The field at each menu position.
pub open spec fn spec_menu_item(i: int) -> MenuItem {
    if i == 0 {
        MenuItem::Preset
    } else if i == 1 {
        MenuItem::LeftTime
    } else if i == 2 {
        MenuItem::RightTime
    } else if i == 3 {
        MenuItem::IncrementType
    } else if i == 4 {
        MenuItem::LeftDelay
    } else {
        MenuItem::RightDelay
    }
}

/// The field at a menu position.
pub fn menu_item(i: usize) -> (r: MenuItem)
    requires
        i < MENU_LEN,
    ensures
        r == spec_menu_item(i as int),
{
    if i == 0 {
        MenuItem::Preset
    } else if i == 1 {
        MenuItem::LeftTime
    } else if i == 2 {
        MenuItem::RightTime
    } else if i == 3 {
        MenuItem::IncrementType
    } else if i == 4 {
        MenuItem::LeftDelay
    } else {
        MenuItem::RightDelay
    }
}

/// The sub-columns each field declares.
pub open spec fn spec_cols(item: MenuItem) -> Seq<Cursor> {
    match item {
        MenuItem::Preset => seq![Cursor { position: 0, multiplier: 1 }],
        MenuItem::LeftTime => seq![
            Cursor { position: 1, multiplier: 60 },
            Cursor { position: 4, multiplier: 1 },
        ],
        MenuItem::RightTime => seq![
            Cursor { position: 1, multiplier: 60 },
            Cursor { position: 4, multiplier: 1 },
        ],
        MenuItem::IncrementType => seq![Cursor { position: 0, multiplier: 1 }],
        MenuItem::LeftDelay => seq![
            Cursor { position: 1, multiplier: 60 },
            Cursor { position: 4, multiplier: 1 },
        ],
        MenuItem::RightDelay => seq![
            Cursor { position: 1, multiplier: 60 },
            Cursor { position: 4, multiplier: 1 },
        ],
    }
}

/// The largest value each field may take.
pub open spec fn spec_max_val(item: MenuItem) -> u64 {
    match item {
        MenuItem::Preset => 1,
        MenuItem::LeftTime => 3599,
        MenuItem::RightTime => 3599,
        MenuItem::IncrementType => 3,
        MenuItem::LeftDelay => 59,
        MenuItem::RightDelay => 59,
    }
}

impl MenuItem {
    /// The columns of this field with their cursor position on the display.
    fn cols(&self) -> (r: Vec<Cursor>)
        ensures
            r@ == spec_cols(*self),
    {
        let mut columns: Vec<Cursor> = Vec::new();
        match self {
            MenuItem::Preset => {
                columns.push(Cursor::new(0, 1));
            },
            MenuItem::LeftTime => {
                columns.push(Cursor::new(1, 60));
                columns.push(Cursor::new(4, 1));
            },
            MenuItem::RightTime => {
                columns.push(Cursor::new(1, 60));
                columns.push(Cursor::new(4, 1));
            },
            MenuItem::IncrementType => {
                columns.push(Cursor::new(0, 1));
            },
            MenuItem::LeftDelay => {
                columns.push(Cursor::new(1, 60));
                columns.push(Cursor::new(4, 1));
            },
            MenuItem::RightDelay => {
                columns.push(Cursor::new(1, 60));
                columns.push(Cursor::new(4, 1));
            },
        }
        proof {
            assert(columns@ =~= spec_cols(*self));
        }
        columns
    }

    /// The maximum value for the menu item.
    pub fn max_val(&self) -> (r: u64)
        ensures
            r == spec_max_val(*self),
    {
        match self {
            MenuItem::Preset => 1,
            MenuItem::LeftTime => 3599,
            MenuItem::RightTime => 3599,
            MenuItem::IncrementType => 3,
            MenuItem::LeftDelay => 59,
            MenuItem::RightDelay => 59,
        }
    }

    /// Apply one edit step to the field this item names.
    fn edit(&self, game_config: &mut GameConfig, increase: bool, multiplier: u64)
        requires
            multiplier <= 60,
        ensures
            *final(game_config) == spec_edit_item(*self, *old(game_config), increase, multiplier),
    {
        let max = self.max_val();
        match self {
            MenuItem::Preset => {
                let idx: Option<u64> = if *game_config == preset_config(0) {
                    Some(0)
                } else if *game_config == preset_config(1) {
                    Some(1)
                } else {
                    None
                };
                match idx {
                    None => {
                        *game_config = preset_config(0);
                    },
                    Some(i) => {
                        let j = edited(i, increase, multiplier, max);
                        *game_config = preset_config(j as usize);
                    },
                }
            },
            MenuItem::LeftTime => {
                let v = edited(game_config.left_time.as_secs(), increase, multiplier, max);
                game_config.left_time = Duration::from_secs(v);
            },
            MenuItem::RightTime => {
                let v = edited(game_config.right_time.as_secs(), increase, multiplier, max);
                game_config.right_time = Duration::from_secs(v);
            },
            MenuItem::IncrementType => {
                let idx: u64 = match game_config.increment_type {
                    IncrementType::SuddenDeath => 0,
                    IncrementType::Increment { .. } => 1,
                    IncrementType::Delay { .. } => 2,
                    IncrementType::Bronstein { .. } => 3,
                };
                let j = edited(idx, increase, multiplier, max);
                game_config.increment_type = increment_type_at(j as usize);
            },
            MenuItem::LeftDelay => {
                match game_config.increment_type {
                    IncrementType::SuddenDeath => {},
                    IncrementType::Increment { left_increment, right_increment } => {
                        let v = edited(left_increment.as_secs(), increase, multiplier, max);
                        game_config.increment_type = IncrementType::Increment {
                            left_increment: Duration::from_secs(v),
                            right_increment,
                        };
                    },
                    IncrementType::Delay { left_delay, right_delay } => {
                        let v = edited(left_delay.as_secs(), increase, multiplier, max);
                        game_config.increment_type = IncrementType::Delay {
                            left_delay: Duration::from_secs(v),
                            right_delay,
                        };
                    },
                    IncrementType::Bronstein { left_delay, right_delay } => {
                        let v = edited(left_delay.as_secs(), increase, multiplier, max);
                        game_config.increment_type = IncrementType::Bronstein {
                            left_delay: Duration::from_secs(v),
                            right_delay,
                        };
                    },
                }
            },
            MenuItem::RightDelay => {
                match game_config.increment_type {
                    IncrementType::SuddenDeath => {},
                    IncrementType::Increment { left_increment, right_increment } => {
                        let v = edited(right_increment.as_secs(), increase, multiplier, max);
                        game_config.increment_type = IncrementType::Increment {
                            left_increment,
                            right_increment: Duration::from_secs(v),
                        };
                    },
                    IncrementType::Delay { left_delay, right_delay } => {
                        let v = edited(right_delay.as_secs(), increase, multiplier, max);
                        game_config.increment_type = IncrementType::Delay {
                            left_delay,
                            right_delay: Duration::from_secs(v),
                        };
                    },
                    IncrementType::Bronstein { left_delay, right_delay } => {
                        let v = edited(right_delay.as_secs(), increase, multiplier, max);
                        game_config.increment_type = IncrementType::Bronstein {
                            left_delay,
                            right_delay: Duration::from_secs(v),
                        };
                    },
                }
            },
        }
    }
}

/// One edit step on a raw value: down by the multiplier floored at zero, or
/// up by the multiplier capped at the field's maximum.
pub open spec fn spec_edited(x: u64, increase: bool, mult: u64, max: u64) -> u64 {
    if increase {
        if x + mult <= max {
            (x + mult) as u64
        } else {
            max
        }
    } else {
        if x >= mult {
            (x - mult) as u64
        } else {
            0
        }
    }
}

fn edited(x: u64, increase: bool, mult: u64, max: u64) -> (r: u64)
    requires
        x <= u64::MAX - mult,
    ensures
        r == spec_edited(x, increase, mult, max),
{
    if increase {
        let s = x + mult;
        if s <= max {
            s
        } else {
            max
        }
    } else {
        if x >= mult {
            x - mult
        } else {
            0
        }
    }
}

/// What one edit step does to the configuration, for the field `item`.
pub open spec fn spec_edit_item(
    item: MenuItem,
    cfg: GameConfig,
    increase: bool,
    mult: u64,
) -> GameConfig {
    let max = spec_max_val(item);
    match item {
        MenuItem::Preset => match spec_preset_index(cfg) {
            Option::None => spec_preset_config(0),
            Option::Some(i) => spec_preset_config(spec_edited(i as u64, increase, mult, max) as int),
        },
        MenuItem::LeftTime => GameConfig {
            left_time: Duration::spec_secs(
                spec_edited((cfg.left_time.ticks / TICKS_PER_SEC) as u64, increase, mult, max) as int,
            ),
            ..cfg
        },
        MenuItem::RightTime => GameConfig {
            right_time: Duration::spec_secs(
                spec_edited((cfg.right_time.ticks / TICKS_PER_SEC) as u64, increase, mult, max) as int,
            ),
            ..cfg
        },
        MenuItem::IncrementType => GameConfig {
            increment_type: spec_increment_type_at(
                spec_edited(spec_rule_index(cfg.increment_type) as u64, increase, mult, max) as int,
            ),
            ..cfg
        },
        MenuItem::LeftDelay => GameConfig {
            increment_type: match cfg.increment_type {
                IncrementType::SuddenDeath => cfg.increment_type,
                IncrementType::Increment { left_increment, right_increment } =>
                    IncrementType::Increment {
                        left_increment: Duration::spec_secs(
                            spec_edited((left_increment.ticks / TICKS_PER_SEC) as u64, increase, mult, max) as int,
                        ),
                        right_increment,
                    },
                IncrementType::Delay { left_delay, right_delay } => IncrementType::Delay {
                    left_delay: Duration::spec_secs(
                        spec_edited((left_delay.ticks / TICKS_PER_SEC) as u64, increase, mult, max) as int,
                    ),
                    right_delay,
                },
                IncrementType::Bronstein { left_delay, right_delay } => IncrementType::Bronstein {
                    left_delay: Duration::spec_secs(
                        spec_edited((left_delay.ticks / TICKS_PER_SEC) as u64, increase, mult, max) as int,
                    ),
                    right_delay,
                },
            },
            ..cfg
        },
        MenuItem::RightDelay => GameConfig {
            increment_type: match cfg.increment_type {
                IncrementType::SuddenDeath => cfg.increment_type,
                IncrementType::Increment { left_increment, right_increment } =>
                    IncrementType::Increment {
                        left_increment,
                        right_increment: Duration::spec_secs(
                            spec_edited((right_increment.ticks / TICKS_PER_SEC) as u64, increase, mult, max) as int,
                        ),
                    },
                IncrementType::Delay { left_delay, right_delay } => IncrementType::Delay {
                    left_delay,
                    right_delay: Duration::spec_secs(
                        spec_edited((right_delay.ticks / TICKS_PER_SEC) as u64, increase, mult, max) as int,
                    ),
                },
                IncrementType::Bronstein { left_delay, right_delay } => IncrementType::Bronstein {
                    left_delay,
                    right_delay: Duration::spec_secs(
                        spec_edited((right_delay.ticks / TICKS_PER_SEC) as u64, increase, mult, max) as int,
                    ),
                },
            },
            ..cfg
        },
    }
}

/// The named presets, in table order.
pub open spec fn spec_preset_config(i: int) -> GameConfig {
    if i == 0 {
        GameConfig {
            left_time: Duration::spec_secs(600),
            right_time: Duration::spec_secs(15),
            increment_type: IncrementType::Bronstein {
                left_delay: Duration::spec_secs(15),
                right_delay: Duration::spec_secs(15),
            },
        }
    } else {
        GameConfig {
            left_time: Duration::spec_secs(15),
            right_time: Duration::spec_secs(600),
            increment_type: IncrementType::Bronstein {
                left_delay: Duration::spec_secs(15),
                right_delay: Duration::spec_secs(15),
            },
        }
    }
}

/// The display name of each preset.
pub open spec fn spec_preset_name(i: int) -> Seq<char> {
    if i == 0 {
        "Right handicap"@
    } else {
        "Left handicap"@
    }
}

/// The preset the configuration equals, if any.
pub open spec fn spec_preset_index(cfg: GameConfig) -> Option<int> {
    if cfg == spec_preset_config(0) {
        Option::Some(0int)
    } else if cfg == spec_preset_config(1) {
        Option::Some(1int)
    } else {
        Option::None
    }
}

/// The preset configuration at a table position.
pub fn preset_config(i: usize) -> (r: GameConfig)
    requires
        i < 2,
    ensures
        r == spec_preset_config(i as int),
{
    if i == 0 {
        GameConfig {
            left_time: Duration::from_secs(600),
            right_time: Duration::from_secs(15),
            increment_type: IncrementType::Bronstein {
                left_delay: Duration::from_secs(15),
                right_delay: Duration::from_secs(15),
            },
        }
    } else {
        GameConfig {
            left_time: Duration::from_secs(15),
            right_time: Duration::from_secs(600),
            increment_type: IncrementType::Bronstein {
                left_delay: Duration::from_secs(15),
                right_delay: Duration::from_secs(15),
            },
        }
    }
}

/// The preset name at a table position.
pub fn preset_name(i: usize) -> (r: &'static str)
    requires
        i < 2,
    ensures
        r@ == spec_preset_name(i as int),
{
    if i == 0 {
        "Right handicap"
    } else {
        "Left handicap"
    }
}

/// The position of a rule variant in the rule table.
pub open spec fn spec_rule_index(rule: IncrementType) -> int {
    match rule {
        IncrementType::SuddenDeath => 0,
        IncrementType::Increment { .. } => 1,
        IncrementType::Delay { .. } => 2,
        IncrementType::Bronstein { .. } => 3,
    }
}

/// The rule table: each variant with its default spans.
pub open spec fn spec_increment_type_at(i: int) -> IncrementType {
    if i == 0 {
        IncrementType::SuddenDeath
    } else if i == 1 {
        IncrementType::Increment {
            left_increment: Duration::spec_secs(10),
            right_increment: Duration::spec_secs(10),
        }
    } else if i == 2 {
        IncrementType::Delay {
            left_delay: Duration::spec_secs(10),
            right_delay: Duration::spec_secs(10),
        }
    } else {
        IncrementType::Bronstein {
            left_delay: Duration::spec_secs(10),
            right_delay: Duration::spec_secs(10),
        }
    }
}

/// Whether a field takes part in navigation under the active rule: the
/// delay and increment fields are hidden under sudden death.
pub open spec fn spec_enabled(cfg: GameConfig, item: MenuItem) -> bool {
    !(cfg.increment_type is SuddenDeath && (item is LeftDelay || item is RightDelay))
}

/// Whether a field takes part in navigation under the active rule.
pub fn item_enabled(cfg: &GameConfig, item: MenuItem) -> (r: bool)
    ensures
        r == spec_enabled(*cfg, item),
{
    let sudden_death = matches!(cfg.increment_type, IncrementType::SuddenDeath);
    let hidden = matches!(item, MenuItem::LeftDelay) || matches!(item, MenuItem::RightDelay);
    !(sudden_death && hidden)
}

/// One step through the menu positions, wrapping at the ends.
pub open spec fn spec_step_index(i: int, to_right: bool) -> int {
    if to_right {
        if i + 1 == MENU_LEN {
            0
        } else {
            i + 1
        }
    } else {
        if i == 0 {
            MENU_LEN - 1
        } else {
            i - 1
        }
    }
}

fn step_index(i: usize, to_right: bool) -> (r: usize)
    requires
        i < MENU_LEN,
    ensures
        r == spec_step_index(i as int, to_right),
        r < MENU_LEN,
{
    if to_right {
        if i + 1 == MENU_LEN {
            0
        } else {
            i + 1
        }
    } else {
        if i == 0 {
            MENU_LEN - 1
        } else {
            i - 1
        }
    }
}

/// Walk onward from `i` until an enabled field is found, giving up after
/// `fuel` steps so the walk always ends even if every field were disabled.
pub open spec fn spec_seek(cfg: GameConfig, i: int, to_right: bool, fuel: nat) -> int
    decreases fuel,
{
    if spec_enabled(cfg, spec_menu_item(i)) || fuel == 0 {
        i
    } else {
        spec_seek(cfg, spec_step_index(i, to_right), to_right, (fuel - 1) as nat)
    }
}

/// The menu position one navigation move lands on: the nearest enabled
/// field in the chosen direction, wrapping.
pub open spec fn spec_nav(cfg: GameConfig, i: int, to_right: bool) -> int {
    spec_seek(cfg, spec_step_index(i, to_right), to_right, (MENU_LEN - 1) as nat)
}

fn nav_index(cfg: &GameConfig, start: usize, to_right: bool) -> (r: usize)
    requires
        start < MENU_LEN,
    ensures
        r == spec_nav(*cfg, start as int, to_right),
        r < MENU_LEN,
{
    let mut i = step_index(start, to_right);
    let mut fuel: usize = MENU_LEN - 1;
    while !item_enabled(cfg, menu_item(i)) && fuel > 0
        invariant
            i < MENU_LEN,
            spec_seek(*cfg, i as int, to_right, fuel as nat) == spec_nav(
                *cfg,
                start as int,
                to_right,
            ),
        decreases fuel,
    {
        i = step_index(i, to_right);
        fuel = fuel - 1;
    }
    i
}

/// A navigation move always lands on a field enabled under the active rule:
/// the preset field is never disabled, so the walk finds an enabled field
/// within its fuel from any start in either direction.
pub proof fn lemma_nav_lands_enabled(cfg: GameConfig, i: int, to_right: bool)
    requires
        0 <= i < MENU_LEN,
    ensures
        spec_enabled(cfg, spec_menu_item(spec_nav(cfg, i, to_right))),
        0 <= spec_nav(cfg, i, to_right) < MENU_LEN,
{
    reveal_with_fuel(spec_seek, 7);
}

/// The selected field never becomes disabled: every event either moves the
/// selection to an enabled field or keeps both the selection and the rule
/// kind it is enabled under. In particular, disabling the delay fields by
/// switching the rule to sudden death can only happen while the rule field
/// itself is selected, and the next navigation move skips the disabled
/// fields.
pub proof fn lemma_step_keeps_item_enabled(ms: MenuState, cfg: GameConfig, ev: Event)
    requires
        ms.wf(),
        spec_enabled(cfg, spec_menu_item(ms.item_index as int)),
    ensures
        ({
            let stepped = ms.spec_step(cfg, ev);
            spec_enabled(stepped.1, spec_menu_item(stepped.0.item_index as int))
        }),
{
    if ms.edit_mode is NotEditing {
        match ev {
            Event::ButtonPushed(Button::Left, _) => {
                lemma_nav_lands_enabled(cfg, ms.item_index as int, false);
            },
            Event::ButtonPushed(Button::Right, _) => {
                lemma_nav_lands_enabled(cfg, ms.item_index as int, true);
            },
            _ => {},
        }
    }
}

/// Editing the preset field while the configuration equals a known preset
/// steps to the adjacent preset of the table, clamped at its ends.
pub proof fn lemma_preset_edit_step(cfg: GameConfig, i: int, increase: bool)
    requires
        0 <= i < 2,
        cfg == spec_preset_config(i),
    ensures
        ({
            let ms = MenuState { item_index: 0, edit_mode: EditState::Editing(0) };
            let button = if increase {
                Button::Right
            } else {
                Button::Left
            };
            let stepped = ms.spec_step(cfg, Event::ButtonPushed(button, PressType::Single));
            &&& stepped.1 == spec_preset_config(spec_edited(i as u64, increase, 1, 1) as int)
            &&& stepped.0 == ms
        }),
{
}

/// Editing the preset field while the configuration matches no known preset
/// snaps to the first preset of the table.
pub proof fn lemma_preset_edit_unknown(cfg: GameConfig, increase: bool)
    requires
        spec_preset_index(cfg) is None,
    ensures
        ({
            let ms = MenuState { item_index: 0, edit_mode: EditState::Editing(0) };
            let button = if increase {
                Button::Right
            } else {
                Button::Left
            };
            let stepped = ms.spec_step(cfg, Event::ButtonPushed(button, PressType::Single));
            &&& stepped.1 == spec_preset_config(0)
            &&& stepped.0 == ms
        }),
{
}

/// The editing sub-state: idle, choosing a column, or changing a value.
#[derive(Clone, Copy, PartialEq, Eq, Structural, Debug)]
pub enum EditState {
    NotEditing,
    Cursor(usize),
    Editing(usize),
}

/// The menu's own state: the selected field and the editing sub-state.
#[derive(Clone, Copy, PartialEq, Eq, Structural, Debug)]
pub struct MenuState {
    pub item_index: usize,
    pub edit_mode: EditState,
}

impl MenuState {
    /// The selected field exists and any column cursor points at one of its
    /// columns.
    pub open spec fn wf(self) -> bool {
        &&& self.item_index < MENU_LEN
        &&& match self.edit_mode {
            EditState::NotEditing => true,
            EditState::Cursor(col) => col < spec_cols(
                spec_menu_item(self.item_index as int),
            ).len(),
            EditState::Editing(col) => col < spec_cols(
                spec_menu_item(self.item_index as int),
            ).len(),
        }
    }

    /// A fresh menu: first field selected, not editing.
    pub fn new() -> (r: MenuState)
        ensures
            r.item_index == 0,
            r.edit_mode == EditState::NotEditing,
            r.wf(),
    {
        MenuState { item_index: 0, edit_mode: EditState::NotEditing }
    }

    /// What one event does to the menu state and the configuration.
    pub open spec fn spec_step(self, cfg: GameConfig, ev: Event) -> (MenuState, GameConfig) {
        match self.edit_mode {
            EditState::NotEditing => match ev {
                Event::ButtonPushed(Button::Left, _) => (
                    MenuState {
                        item_index: spec_nav(cfg, self.item_index as int, false) as usize,
                        edit_mode: self.edit_mode,
                    },
                    cfg,
                ),
                Event::ButtonPushed(Button::Right, _) => (
                    MenuState {
                        item_index: spec_nav(cfg, self.item_index as int, true) as usize,
                        edit_mode: self.edit_mode,
                    },
                    cfg,
                ),
                Event::ButtonPushed(Button::Control, PressType::Single) => (
                    MenuState {
                        item_index: self.item_index,
                        edit_mode: if spec_cols(spec_menu_item(self.item_index as int)).len() > 1 {
                            EditState::Cursor(0)
                        } else {
                            EditState::Editing(0)
                        },
                    },
                    cfg,
                ),
                _ => (self, cfg),
            },
            EditState::Cursor(col) => {
                let n = spec_cols(spec_menu_item(self.item_index as int)).len() as int;
                match ev {
                    Event::ButtonPushed(Button::Left, _) => (
                        MenuState {
                            item_index: self.item_index,
                            edit_mode: EditState::Cursor(
                                (if col == 0 {
                                    n - 1
                                } else {
                                    col - 1
                                }) as usize,
                            ),
                        },
                        cfg,
                    ),
                    Event::ButtonPushed(Button::Right, _) => (
                        MenuState {
                            item_index: self.item_index,
                            edit_mode: EditState::Cursor(((col + 1) as int % n) as usize),
                        },
                        cfg,
                    ),
                    Event::ButtonPushed(Button::Control, PressType::Single) => (
                        MenuState { item_index: self.item_index, edit_mode: EditState::Editing(col) },
                        cfg,
                    ),
                    _ => (self, cfg),
                }
            },
            EditState::Editing(col) => {
                let item = spec_menu_item(self.item_index as int);
                let mult = spec_cols(item)[col as int].multiplier;
                match ev {
                    Event::ButtonPushed(Button::Left, _) => (
                        self,
                        spec_edit_item(item, cfg, false, mult),
                    ),
                    Event::ButtonPushed(Button::Right, _) => (
                        self,
                        spec_edit_item(item, cfg, true, mult),
                    ),
                    Event::ButtonPushed(Button::Control, PressType::Single) => (
                        MenuState { item_index: self.item_index, edit_mode: EditState::NotEditing },
                        cfg,
                    ),
                    _ => (self, cfg),
                }
            },
        }
    }

    /// Apply one event: navigation between the enabled fields, movement of
    /// the column cursor, or a clamped edit of the selected field.
    pub fn handle_event(&mut self, game_config: &mut GameConfig, event: &Event)
        requires
            old(self).wf(),
        ensures
            *final(self) == old(self).spec_step(*old(game_config), *event).0,
            *final(game_config) == old(self).spec_step(*old(game_config), *event).1,
            final(self).wf(),
    {
        match self.edit_mode {
            EditState::NotEditing => match event {
                Event::ButtonPushed(Button::Left, _) => {
                    self.item_index = nav_index(game_config, self.item_index, false);
                },
                Event::ButtonPushed(Button::Right, _) => {
                    self.item_index = nav_index(game_config, self.item_index, true);
                },
                Event::ButtonPushed(Button::Control, PressType::Single) => {
                    if menu_item(self.item_index).cols().len() > 1 {
                        self.edit_mode = EditState::Cursor(0);
                    } else {
                        self.edit_mode = EditState::Editing(0);
                    }
                },
                _ => {},
            },
            EditState::Cursor(col) => match event {
                Event::ButtonPushed(Button::Left, _) => {
                    let n = menu_item(self.item_index).cols().len();
                    let col = if col == 0 {
                        n - 1
                    } else {
                        col - 1
                    };
                    self.edit_mode = EditState::Cursor(col);
                },
                Event::ButtonPushed(Button::Right, _) => {
                    let n = menu_item(self.item_index).cols().len();
                    self.edit_mode = EditState::Cursor((col + 1) % n);
                },
                Event::ButtonPushed(Button::Control, PressType::Single) => {
                    self.edit_mode = EditState::Editing(col);
                },
                _ => {},
            },
            EditState::Editing(col) => match event {
                Event::ButtonPushed(Button::Left, _) => {
                    let item = menu_item(self.item_index);
                    let mult = item.cols()[col].multiplier;
                    item.edit(game_config, false, mult);
                },
                Event::ButtonPushed(Button::Right, _) => {
                    let item = menu_item(self.item_index);
                    let mult = item.cols()[col].multiplier;
                    item.edit(game_config, true, mult);
                },
                Event::ButtonPushed(Button::Control, PressType::Single) => {
                    self.edit_mode = EditState::NotEditing;
                },
                _ => {},
            },
        }
    }
}

/// The previous menu state behind the optional reference, if any.
pub open spec fn spec_prev_menu(prev: Option<&MenuState>) -> Option<MenuState> {
    match prev {
        Some(s) => Some(*s),
        None => None,
    }
}

/// The writes of the field-name line: the selected field's name, which for
/// the shared delay/increment fields depends on the active rule.
pub open spec fn spec_print_menu(ms: MenuState, cfg: GameConfig) -> Seq<OutputOp> {
    seq![OutputOp::SetCursor(0, 0)] + match spec_menu_item(ms.item_index as int) {
        MenuItem::Preset => seq![OutputOp::Text("Preset"@)],
        MenuItem::LeftTime => seq![OutputOp::Text("Left time"@)],
        MenuItem::RightTime => seq![OutputOp::Text("Right time"@)],
        MenuItem::IncrementType => seq![OutputOp::Text("Increment type"@)],
        MenuItem::LeftDelay => match cfg.increment_type {
            IncrementType::SuddenDeath => Seq::empty(),
            IncrementType::Increment { .. } => seq![OutputOp::Text("Left increment"@)],
            IncrementType::Delay { .. } => seq![OutputOp::Text("Left delay"@)],
            IncrementType::Bronstein { .. } => seq![OutputOp::Text("Left delay"@)],
        },
        MenuItem::RightDelay => match cfg.increment_type {
            IncrementType::SuddenDeath => Seq::empty(),
            IncrementType::Increment { .. } => seq![OutputOp::Text("Right increment"@)],
            IncrementType::Delay { .. } => seq![OutputOp::Text("Right delay"@)],
            IncrementType::Bronstein { .. } => seq![OutputOp::Text("Right delay"@)],
        },
    }
}

/// The name shown for the current configuration on the preset line.
pub open spec fn spec_preset_display_name(cfg: GameConfig) -> Seq<char> {
    match spec_preset_index(cfg) {
        Some(i) => spec_preset_name(i),
        None => "Unknown"@,
    }
}

/// The writes of the value line for the selected field.
pub open spec fn spec_print_value(ms: MenuState, cfg: GameConfig) -> Seq<OutputOp> {
    seq![OutputOp::SetCursor(1, 0)] + match spec_menu_item(ms.item_index as int) {
        MenuItem::Preset => seq![
            OutputOp::Text("                "@),
            OutputOp::SetCursor(1, 0),
            OutputOp::Text(spec_preset_display_name(cfg)),
        ],
        MenuItem::LeftTime => seq![
            OutputOp::Text(spec_format_secs((cfg.left_time.ticks / TICKS_PER_SEC) as int)),
        ],
        MenuItem::RightTime => seq![
            OutputOp::Text(spec_format_secs((cfg.right_time.ticks / TICKS_PER_SEC) as int)),
        ],
        MenuItem::IncrementType => seq![
            OutputOp::SetCursor(1, 0),
            OutputOp::Text("                "@),
            OutputOp::SetCursor(1, 0),
            OutputOp::Text(
                match cfg.increment_type {
                    IncrementType::SuddenDeath => "Sudden death"@,
                    IncrementType::Increment { .. } => "Increment"@,
                    IncrementType::Delay { .. } => "Delay"@,
                    IncrementType::Bronstein { .. } => "Bronstein delay"@,
                },
            ),
        ],
        MenuItem::LeftDelay => match cfg.increment_type {
            IncrementType::SuddenDeath => Seq::empty(),
            IncrementType::Increment { left_increment, .. } => seq![
                OutputOp::Text(spec_format_secs((left_increment.ticks / TICKS_PER_SEC) as int)),
            ],
            IncrementType::Delay { left_delay, .. } => seq![
                OutputOp::Text(spec_format_secs((left_delay.ticks / TICKS_PER_SEC) as int)),
            ],
            IncrementType::Bronstein { left_delay, .. } => seq![
                OutputOp::Text(spec_format_secs((left_delay.ticks / TICKS_PER_SEC) as int)),
            ],
        },
        MenuItem::RightDelay => match cfg.increment_type {
            IncrementType::SuddenDeath => Seq::empty(),
            IncrementType::Increment { right_increment, .. } => seq![
                OutputOp::Text(spec_format_secs((right_increment.ticks / TICKS_PER_SEC) as int)),
            ],
            IncrementType::Delay { right_delay, .. } => seq![
                OutputOp::Text(spec_format_secs((right_delay.ticks / TICKS_PER_SEC) as int)),
            ],
            IncrementType::Bronstein { right_delay, .. } => seq![
                OutputOp::Text(spec_format_secs((right_delay.ticks / TICKS_PER_SEC) as int)),
            ],
        },
    }
}

/// The value line succeeds exactly when every span it has to draw fits the
/// fixed-width field.
pub open spec fn spec_print_value_ok(ms: MenuState, cfg: GameConfig) -> bool {
    match spec_menu_item(ms.item_index as int) {
        MenuItem::Preset => true,
        MenuItem::LeftTime => cfg.left_time.ticks / TICKS_PER_SEC <= 5999,
        MenuItem::RightTime => cfg.right_time.ticks / TICKS_PER_SEC <= 5999,
        MenuItem::IncrementType => true,
        MenuItem::LeftDelay => match cfg.increment_type {
            IncrementType::SuddenDeath => true,
            IncrementType::Increment { left_increment, .. } => left_increment.ticks / TICKS_PER_SEC
                <= 5999,
            IncrementType::Delay { left_delay, .. } => left_delay.ticks / TICKS_PER_SEC <= 5999,
            IncrementType::Bronstein { left_delay, .. } => left_delay.ticks / TICKS_PER_SEC <= 5999,
        },
        MenuItem::RightDelay => match cfg.increment_type {
            IncrementType::SuddenDeath => true,
            IncrementType::Increment { right_increment, .. } => right_increment.ticks
                / TICKS_PER_SEC <= 5999,
            IncrementType::Delay { right_delay, .. } => right_delay.ticks / TICKS_PER_SEC <= 5999,
            IncrementType::Bronstein { right_delay, .. } => right_delay.ticks / TICKS_PER_SEC
                <= 5999,
        },
    }
}

/// Whether anything shown on the menu page differs from the previous state.
pub open spec fn spec_menu_changed(
    prev: Option<MenuState>,
    prev_cfg: GameConfig,
    ms: MenuState,
    cfg: GameConfig,
) -> bool {
    !(prev == Some(ms) && prev_cfg == cfg)
}

/// Everything one menu render writes: nothing on a stable state, otherwise
/// the lines and cursor attributes the editing sub-state calls for.
pub open spec fn spec_menu_render(
    prev: Option<MenuState>,
    prev_cfg: GameConfig,
    ms: MenuState,
    cfg: GameConfig,
) -> Seq<OutputOp> {
    if spec_menu_changed(prev, prev_cfg, ms, cfg) {
        match ms.edit_mode {
            EditState::NotEditing => seq![
                OutputOp::Clear,
                OutputOp::CursorOn(false),
                OutputOp::CursorBlink(false),
            ] + spec_print_menu(ms, cfg) + spec_print_value(ms, cfg),
            EditState::Cursor(col) => spec_print_value(ms, cfg) + seq![
                OutputOp::SetCursor(
                    1,
                    spec_cols(spec_menu_item(ms.item_index as int))[col as int].position,
                ),
                OutputOp::CursorOn(true),
                OutputOp::CursorBlink(false),
            ],
            EditState::Editing(col) => spec_print_value(ms, cfg) + seq![
                OutputOp::SetCursor(
                    1,
                    spec_cols(spec_menu_item(ms.item_index as int))[col as int].position,
                ),
                OutputOp::CursorOn(false),
                OutputOp::CursorBlink(true),
            ],
        }
    } else {
        Seq::empty()
    }
}

/// A menu render succeeds exactly when the value line it has to draw fits.
pub open spec fn spec_menu_render_ok(
    prev: Option<MenuState>,
    prev_cfg: GameConfig,
    ms: MenuState,
    cfg: GameConfig,
) -> bool {
    spec_menu_changed(prev, prev_cfg, ms, cfg) ==> spec_print_value_ok(ms, cfg)
}

impl MenuState {
    /// Write the field-name line.
    fn print_menu(&self, game_config: &GameConfig, outputs: &mut Outputs) -> (r: Result<(), Error>)
        requires
            self.wf(),
        ensures
            r is Ok,
            final(outputs)@ == old(outputs)@ + spec_print_menu(*self, *game_config),
    {
        outputs.set_cursor(0, 0);
        match menu_item(self.item_index) {
            MenuItem::Preset => {
                outputs.write_str("Preset");
            },
            MenuItem::LeftTime => {
                outputs.write_str("Left time");
            },
            MenuItem::RightTime => {
                outputs.write_str("Right time");
            },
            MenuItem::IncrementType => {
                outputs.write_str("Increment type");
            },
            MenuItem::LeftDelay => match game_config.increment_type {
                IncrementType::SuddenDeath => {},
                IncrementType::Increment { .. } => {
                    outputs.write_str("Left increment");
                },
                IncrementType::Delay { .. } => {
                    outputs.write_str("Left delay");
                },
                IncrementType::Bronstein { .. } => {
                    outputs.write_str("Left delay");
                },
            },
            MenuItem::RightDelay => match game_config.increment_type {
                IncrementType::SuddenDeath => {},
                IncrementType::Increment { .. } => {
                    outputs.write_str("Right increment");
                },
                IncrementType::Delay { .. } => {
                    outputs.write_str("Right delay");
                },
                IncrementType::Bronstein { .. } => {
                    outputs.write_str("Right delay");
                },
            },
        }
        proof {
            assert(outputs@ =~= old(outputs)@ + spec_print_menu(*self, *game_config));
        }
        Ok(())
    }

    /// Write the value line.
    fn print_value(&self, game_config: &GameConfig, outputs: &mut Outputs) -> (r: Result<(), Error>)
        requires
            self.wf(),
        ensures
            r is Ok <==> spec_print_value_ok(*self, *game_config),
            r is Ok ==> final(outputs)@ == old(outputs)@ + spec_print_value(*self, *game_config),
    {
        outputs.set_cursor(1, 0);
        match menu_item(self.item_index) {
            MenuItem::Preset => {
                let name = if *game_config == preset_config(0) {
                    preset_name(0)
                } else if *game_config == preset_config(1) {
                    preset_name(1)
                } else {
                    "Unknown"
                };
                outputs.write_str("                ");
                outputs.set_cursor(1, 0);
                outputs.write_str(name);
            },
            MenuItem::LeftTime => {
                let text = format_duration(game_config.left_time)?;
                outputs.write_str(text.as_str());
            },
            MenuItem::RightTime => {
                let text = format_duration(game_config.right_time)?;
                outputs.write_str(text.as_str());
            },
            MenuItem::IncrementType => {
                outputs.set_cursor(1, 0);
                outputs.write_str("                ");
                outputs.set_cursor(1, 0);
                match game_config.increment_type {
                    IncrementType::SuddenDeath => {
                        outputs.write_str("Sudden death");
                    },
                    IncrementType::Increment { .. } => {
                        outputs.write_str("Increment");
                    },
                    IncrementType::Delay { .. } => {
                        outputs.write_str("Delay");
                    },
                    IncrementType::Bronstein { .. } => {
                        outputs.write_str("Bronstein delay");
                    },
                }
            },
            MenuItem::LeftDelay => match game_config.increment_type {
                IncrementType::SuddenDeath => {},
                IncrementType::Increment { left_increment, .. } => {
                    let text = format_duration(left_increment)?;
                    outputs.write_str(text.as_str());
                },
                IncrementType::Delay { left_delay, .. } => {
                    let text = format_duration(left_delay)?;
                    outputs.write_str(text.as_str());
                },
                IncrementType::Bronstein { left_delay, .. } => {
                    let text = format_duration(left_delay)?;
                    outputs.write_str(text.as_str());
                },
            },
            MenuItem::RightDelay => match game_config.increment_type {
                IncrementType::SuddenDeath => {},
                IncrementType::Increment { right_increment, .. } => {
                    let text = format_duration(right_increment)?;
                    outputs.write_str(text.as_str());
                },
                IncrementType::Delay { right_delay, .. } => {
                    let text = format_duration(right_delay)?;
                    outputs.write_str(text.as_str());
                },
                IncrementType::Bronstein { right_delay, .. } => {
                    let text = format_duration(right_delay)?;
                    outputs.write_str(text.as_str());
                },
            },
        }
        proof {
            assert(outputs@ =~= old(outputs)@ + spec_print_value(*self, *game_config));
        }
        Ok(())
    }

    /// Render the menu page, writing only when the shown state changed.
    pub fn display_state(
        &self,
        prev_state: Option<&MenuState>,
        prev_game_config: &GameConfig,
        game_config: &GameConfig,
        outputs: &mut Outputs,
    ) -> (r: Result<(), Error>)
        requires
            self.wf(),
        ensures
            r is Ok <==> spec_menu_render_ok(
                spec_prev_menu(prev_state),
                *prev_game_config,
                *self,
                *game_config,
            ),
            r is Ok ==> final(outputs)@ == old(outputs)@ + spec_menu_render(
                spec_prev_menu(prev_state),
                *prev_game_config,
                *self,
                *game_config,
            ),
    {
        let same_menu = match prev_state {
            Some(p) => *p == *self,
            None => false,
        };
        if !same_menu || !(*prev_game_config == *game_config) {
            match self.edit_mode {
                EditState::NotEditing => {
                    outputs.clear();
                    outputs.cursor_on(false);
                    outputs.cursor_blink(false);
                    self.print_menu(game_config, outputs)?;
                    self.print_value(game_config, outputs)?;
                },
                EditState::Cursor(col) => {
                    self.print_value(game_config, outputs)?;
                    let position = menu_item(self.item_index).cols()[col].position;
                    outputs.set_cursor(1, position);
                    outputs.cursor_on(true);
                    outputs.cursor_blink(false);
                },
                EditState::Editing(col) => {
                    self.print_value(game_config, outputs)?;
                    let position = menu_item(self.item_index).cols()[col].position;
                    outputs.set_cursor(1, position);
                    outputs.cursor_on(false);
                    outputs.cursor_blink(true);
                },
            }
        }
        proof {
            assert(outputs@ =~= old(outputs)@ + spec_menu_render(
                spec_prev_menu(prev_state),
                *prev_game_config,
                *self,
                *game_config,
            ));
        }
        Ok(())
    }
}

/// The rule variant at a table position, with its default spans.
pub fn increment_type_at(i: usize) -> (r: IncrementType)
    requires
        i < 4,
    ensures
        r == spec_increment_type_at(i as int),
{
    if i == 0 {
        IncrementType::SuddenDeath
    } else if i == 1 {
        IncrementType::Increment {
            left_increment: Duration::from_secs(10),
            right_increment: Duration::from_secs(10),
        }
    } else if i == 2 {
        IncrementType::Delay {
            left_delay: Duration::from_secs(10),
            right_delay: Duration::from_secs(10),
        }
    } else {
        IncrementType::Bronstein {
            left_delay: Duration::from_secs(10),
            right_delay: Duration::from_secs(10),
        }
    }
}

} // verus!
