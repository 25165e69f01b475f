//! The emulated gamepad: button and stick mapping tables, the axis state
//! machine, and the sink state holding the current level of each stick axis.

use vstd::prelude::*;

verus! {

// Event-kind tags of the input protocol.
pub const EV_SYN: u16 = 0;
pub const EV_KEY: u16 = 1;
pub const EV_ABS: u16 = 3;

// Key codes of the keys wired into the mapping tables.
pub const KEY_W: i32 = 17;
pub const KEY_E: i32 = 18;
pub const KEY_ENTER: i32 = 28;
pub const KEY_A: i32 = 30;
pub const KEY_S: i32 = 31;
pub const KEY_D: i32 = 32;
pub const KEY_G: i32 = 34;
pub const KEY_C: i32 = 46;
pub const KEY_SPACE: i32 = 57;

// Codes of the emulated buttons and axes.
pub const BTN_A: u16 = 0x130;
pub const BTN_B: u16 = 0x131;
pub const BTN_X: u16 = 0x133;
pub const BTN_Y: u16 = 0x134;
pub const ABS_X: u16 = 0;
pub const ABS_Y: u16 = 1;

/// One record of the input protocol, stripped of its timestamp: the kind
/// tag, the code naming a key, button or axis, and a signed value. The
/// embedding program stamps the time when it writes a record out.
#[derive(Debug, Clone, Copy, PartialEq, Eq, Structural)]
pub struct EventRecord {
    pub kind: u16,
    pub code: u16,
    pub value: i32,
}

/// The press-state carried by a key record's value field.
#[derive(Debug, Clone, Copy, PartialEq, Eq, Structural)]
pub enum ButtonState {
    Release,
    Press,
    Repeat,
}

impl ButtonState {
    /// The state a key record's value denotes: 0 is Release, 1 is Press,
    /// 2 is Repeat. Other values are protocol violations.
    pub open spec fn spec_from(value: i32) -> ButtonState {
        if value == 0 {
            ButtonState::Release
        } else if value == 1 {
            ButtonState::Press
        } else {
            ButtonState::Repeat
        }
    }

    /// Decode a key record's value field.
    pub fn from_value(value: i32) -> (r: ButtonState)
        requires
            0 <= value <= 2,
        ensures
            r == ButtonState::spec_from(value),
    {
        if value == 0 {
            ButtonState::Release
        } else if value == 1 {
            ButtonState::Press
        } else {
            ButtonState::Repeat
        }
    }

    /// The wire value of this state.
    pub open spec fn spec_value(self) -> i32 {
        match self {
            ButtonState::Release => 0,
            ButtonState::Press => 1,
            ButtonState::Repeat => 2,
        }
    }

    /// Encode this state as a record's value field.
    pub fn value(self) -> (r: i32)
        ensures
            r == self.spec_value(),
    {
        match self {
            ButtonState::Release => 0,
            ButtonState::Press => 1,
            ButtonState::Repeat => 2,
        }
    }
}

/// The closed set of emulated buttons.
#[derive(Debug, Clone, Copy, PartialEq, Eq, Structural)]
pub enum GamepadButton {
    A,
    B,
    X,
    Y,
}

impl GamepadButton {
    /// The wire code of this button.
    pub open spec fn spec_code(self) -> u16 {
        match self {
            GamepadButton::A => BTN_A,
            GamepadButton::B => BTN_B,
            GamepadButton::X => BTN_X,
            GamepadButton::Y => BTN_Y,
        }
    }

    /// Encode this button as a record's code field.
    pub fn code(self) -> (r: u16)
        ensures
            r == self.spec_code(),
    {
        match self {
            GamepadButton::A => BTN_A,
            GamepadButton::B => BTN_B,
            GamepadButton::X => BTN_X,
            GamepadButton::Y => BTN_Y,
        }
    }
}

/// The button table: which button identity a key code stands for, the
/// same for press, release and repeat alike. Enter and Space both alias
/// to button A; every other code maps to at most one button.
pub open spec fn spec_map_button(key: i32) -> Option<GamepadButton> {
    if key == KEY_ENTER || key == KEY_SPACE {
        Some(GamepadButton::A)
    } else if key == KEY_G {
        Some(GamepadButton::Y)
    } else if key == KEY_E {
        Some(GamepadButton::X)
    } else if key == KEY_C {
        Some(GamepadButton::B)
    } else {
        None
    }
}

/// Look a key code up in the button table.
pub fn map_button(key: i32) -> (r: Option<GamepadButton>)
    ensures
        r == spec_map_button(key),
{
    if key == KEY_ENTER || key == KEY_SPACE {
        Some(GamepadButton::A)
    } else if key == KEY_G {
        Some(GamepadButton::Y)
    } else if key == KEY_E {
        Some(GamepadButton::X)
    } else if key == KEY_C {
        Some(GamepadButton::B)
    } else {
        None
    }
}

/// The quantized level of one stick axis.
#[derive(Debug, Clone, Copy, PartialEq, Eq, Structural)]
pub enum StickAxisState {
    /// Bottom/Right
    High,
    /// Centre
    Neutral,
    /// Up/Left
    Low,
}

impl Default for StickAxisState {
    /// An axis rests at the centre until a directive moves it.
    fn default() -> (r: Self)
        ensures
            r == StickAxisState::Neutral,
    {
        StickAxisState::Neutral
    }
}

impl StickAxisState {
    /// The wire value of this level: the extrema of the emulated axis
    /// range for High and Low, zero for Neutral.
    pub open spec fn spec_value(self) -> i16 {
        match self {
            StickAxisState::High => 32767i16,
            StickAxisState::Neutral => 0i16,
            StickAxisState::Low => -32768i16,
        }
    }

    /// Encode this level as an axis record's value.
    pub fn value(self) -> (r: i16)
        ensures
            r == self.spec_value(),
    {
        match self {
            StickAxisState::High => 32767,
            StickAxisState::Neutral => 0,
            StickAxisState::Low => -32768,
        }
    }
}

/// The axis state machine: the level an axis takes when `requested` is
/// asked of it while it holds `current`. Requesting the level already
/// held keeps it; requesting Neutral always yields Neutral; requesting
/// the opposite extreme of the one held cancels to Neutral rather than
/// flipping, so that crossed directional keys leave the axis centred.
pub open spec fn next_level(current: StickAxisState, requested: StickAxisState) -> StickAxisState {
    match (current, requested) {
        (StickAxisState::High, StickAxisState::High) => StickAxisState::High,
        (StickAxisState::High, StickAxisState::Neutral) => StickAxisState::Neutral,
        (StickAxisState::High, StickAxisState::Low) => StickAxisState::Neutral,
        (StickAxisState::Neutral, StickAxisState::High) => StickAxisState::High,
        (StickAxisState::Neutral, StickAxisState::Neutral) => StickAxisState::Neutral,
        (StickAxisState::Neutral, StickAxisState::Low) => StickAxisState::Low,
        (StickAxisState::Low, StickAxisState::High) => StickAxisState::Neutral,
        (StickAxisState::Low, StickAxisState::Neutral) => StickAxisState::Neutral,
        (StickAxisState::Low, StickAxisState::Low) => StickAxisState::Low,
    }
}

/// Run the axis state machine one step.
pub fn next(current: StickAxisState, requested: StickAxisState) -> (r: StickAxisState)
    ensures
        r == next_level(current, requested),
{
    match (current, requested) {
        (StickAxisState::High, StickAxisState::High) => StickAxisState::High,
        (StickAxisState::High, StickAxisState::Neutral) => StickAxisState::Neutral,
        (StickAxisState::High, StickAxisState::Low) => StickAxisState::Neutral,
        (StickAxisState::Neutral, StickAxisState::High) => StickAxisState::High,
        (StickAxisState::Neutral, StickAxisState::Neutral) => StickAxisState::Neutral,
        (StickAxisState::Neutral, StickAxisState::Low) => StickAxisState::Low,
        (StickAxisState::Low, StickAxisState::High) => StickAxisState::Neutral,
        (StickAxisState::Low, StickAxisState::Neutral) => StickAxisState::Neutral,
        (StickAxisState::Low, StickAxisState::Low) => StickAxisState::Low,
    }
}

/// Requesting the level an axis already holds leaves it unchanged.
pub proof fn lemma_next_idempotent(l: StickAxisState)
    ensures
        next_level(l, l) == l,
{
}

/// A directive toward one extreme while the opposite extreme is held
/// cancels the axis to Neutral.
pub proof fn lemma_next_cancellation()
    ensures
        next_level(StickAxisState::High, StickAxisState::Low) == StickAxisState::Neutral,
        next_level(StickAxisState::Low, StickAxisState::High) == StickAxisState::Neutral,
{
}

/// A Neutral directive wins immediately, whatever the axis held.
pub proof fn lemma_neutral_dominates(current: StickAxisState)
    ensures
        next_level(current, StickAxisState::Neutral) == StickAxisState::Neutral,
{
}

/// A directive for the left stick: the axis it addresses and the level
/// requested of that axis.
#[derive(Debug, Clone, Copy, PartialEq, Eq, Structural)]
pub enum LeftStickAction {
    X(StickAxisState),
    Y(StickAxisState),
}

/// The stick table: which directive a key code and press-state stand
/// for. A press of a directional key requests the extreme of its axis;
/// a release of either key of an axis requests Neutral; repeats of
/// directional keys are deliberately dropped, not forwarded.
pub open spec fn spec_map_stick(key: i32, state: ButtonState) -> Option<LeftStickAction> {
    if key == KEY_W && state is Press {
        Some(LeftStickAction::Y(StickAxisState::Low))
    } else if key == KEY_S && state is Press {
        Some(LeftStickAction::Y(StickAxisState::High))
    } else if (key == KEY_W || key == KEY_S) && state is Release {
        Some(LeftStickAction::Y(StickAxisState::Neutral))
    } else if key == KEY_A && state is Press {
        Some(LeftStickAction::X(StickAxisState::Low))
    } else if key == KEY_D && state is Press {
        Some(LeftStickAction::X(StickAxisState::High))
    } else if (key == KEY_A || key == KEY_D) && state is Release {
        Some(LeftStickAction::X(StickAxisState::Neutral))
    } else {
        None
    }
}

/// Look a key code and press-state up in the stick table.
pub fn map_stick(key: i32, state: ButtonState) -> (r: Option<LeftStickAction>)
    ensures
        r == spec_map_stick(key, state),
{
    let press = matches!(state, ButtonState::Press);
    let release = matches!(state, ButtonState::Release);
    if key == KEY_W && press {
        Some(LeftStickAction::Y(StickAxisState::Low))
    } else if key == KEY_S && press {
        Some(LeftStickAction::Y(StickAxisState::High))
    } else if (key == KEY_W || key == KEY_S) && release {
        Some(LeftStickAction::Y(StickAxisState::Neutral))
    } else if key == KEY_A && press {
        Some(LeftStickAction::X(StickAxisState::Low))
    } else if key == KEY_D && press {
        Some(LeftStickAction::X(StickAxisState::High))
    } else if (key == KEY_A || key == KEY_D) && release {
        Some(LeftStickAction::X(StickAxisState::Neutral))
    } else {
        None
    }
}

/// The record announcing a button action: a key-kind record carrying the
/// button's code and the press-state's wire value.
pub open spec fn button_record(button: GamepadButton, state: ButtonState) -> EventRecord {
    EventRecord { kind: EV_KEY, code: button.spec_code(), value: state.spec_value() }
}

/// The record announcing that an axis now holds `level`: an absolute-axis
/// record carrying the axis code and the level's wire value.
pub open spec fn axis_record(axis_code: u16, level: StickAxisState) -> EventRecord {
    EventRecord { kind: EV_ABS, code: axis_code, value: level.spec_value() as i32 }
}

/// The synchronization marker closing one batch of changes.
pub open spec fn sync_record() -> EventRecord {
    EventRecord { kind: EV_SYN, code: 0, value: 0 }
}

/// The sink side of the translation: the descriptor of the emulated
/// device, carried as a plain value for the embedding program's writes,
/// and the current level of each left-stick axis — the only mutable
/// state of the core. Each axis always holds exactly one of the three
/// levels, and is mutated only through the axis state machine.
pub struct GamepadFd {
    fd: i32,
    left_x: StickAxisState,
    left_y: StickAxisState,
}

impl GamepadFd {
    /// The descriptor this sink writes through.
    pub closed spec fn spec_fd(self) -> i32 {
        self.fd
    }

    /// The level the horizontal axis holds.
    pub closed spec fn x_level(self) -> StickAxisState {
        self.left_x
    }

    /// The level the vertical axis holds.
    pub closed spec fn y_level(self) -> StickAxisState {
        self.left_y
    }

    /// Wrap a descriptor of a registered emulated device. Both axes start
    /// at Neutral.
    pub fn new(fd: i32) -> (r: GamepadFd)
        ensures
            r.spec_fd() == fd,
            r.x_level() == StickAxisState::Neutral,
            r.y_level() == StickAxisState::Neutral,
    {
        GamepadFd { fd, left_x: StickAxisState::default(), left_y: StickAxisState::default() }
    }

    /// The descriptor, for the embedding program's write calls.
    pub fn fd(&self) -> (r: i32)
        ensures
            r == self.spec_fd(),
    {
        self.fd
    }

    /// Run the axis state machine on the axis the directive addresses;
    /// the other axis and the descriptor are untouched.
    pub fn update_stick(&mut self, action: LeftStickAction)
        ensures
            final(self).spec_fd() == old(self).spec_fd(),
            action matches LeftStickAction::X(s) ==> {
                &&& final(self).x_level() == next_level(old(self).x_level(), s)
                &&& final(self).y_level() == old(self).y_level()
            },
            action matches LeftStickAction::Y(s) ==> {
                &&& final(self).y_level() == next_level(old(self).y_level(), s)
                &&& final(self).x_level() == old(self).x_level()
            },
    {
        match action {
            LeftStickAction::X(state) => {
                self.left_x = next(self.left_x, state);
            },
            LeftStickAction::Y(state) => {
                self.left_y = next(self.left_y, state);
            },
        }
    }

    /// The record to write for a button action. Buttons carry no state in
    /// the sink, so nothing changes and no deduplication happens: equal
    /// actions yield equal records each time.
    pub fn button_action(&self, button: GamepadButton, state: ButtonState) -> (r: EventRecord)
        ensures
            r == button_record(button, state),
    {
        EventRecord { kind: EV_KEY, code: button.code(), value: state.value() }
    }

    /// Apply a stick directive and return the record to write: the axis
    /// state machine runs first, and the record carries the level the
    /// axis holds afterwards.
    pub fn stick_action(&mut self, action: LeftStickAction) -> (r: EventRecord)
        ensures
            final(self).spec_fd() == old(self).spec_fd(),
            action matches LeftStickAction::X(s) ==> {
                &&& final(self).x_level() == next_level(old(self).x_level(), s)
                &&& final(self).y_level() == old(self).y_level()
                &&& r == axis_record(ABS_X, final(self).x_level())
            },
            action matches LeftStickAction::Y(s) ==> {
                &&& final(self).y_level() == next_level(old(self).y_level(), s)
                &&& final(self).x_level() == old(self).x_level()
                &&& r == axis_record(ABS_Y, final(self).y_level())
            },
    {
        self.update_stick(action);
        let (code, value) = match action {
            LeftStickAction::X(_) => (ABS_X, self.left_x.value()),
            LeftStickAction::Y(_) => (ABS_Y, self.left_y.value()),
        };
        EventRecord { kind: EV_ABS, code, value: value as i32 }
    }

    /// The synchronization marker to write once per drain cycle; it has
    /// no state effect.
    pub fn sync(&self) -> (r: EventRecord)
        ensures
            r == sync_record(),
    {
        EventRecord { kind: EV_SYN, code: 0, value: 0 }
    }
}

} // verus!
