//! The event model of the ReMOTE 25SL: its input ports and the typed events
//! that its keys, dials, sliders, pads and buttons produce.

use vstd::prelude::*;
use crate::pitch::LetterOctave;

verus! {

/// The name of the first port on which the `25SL` emits MIDI input values.
pub const MIDI_INPUT_PORT_0: &'static str = "ReMOTE SL 24:0";

/// The name of the second port on which the `25SL` emits MIDI input values.
pub const MIDI_INPUT_PORT_1: &'static str = "ReMOTE SL 24:1";

/// The name of the third port on which the `25SL` emits MIDI input values.
pub const MIDI_INPUT_PORT_2: &'static str = "ReMOTE SL 24:2";

/// The MIDI input ports on which the `25SL` emits MIDI input values.
#[derive(Copy, Clone, Debug, Hash, PartialEq, Eq)]
pub enum InputPort {
    /// Receives keyboard note events as well as `Pitch` and `Mod` `Control` events.
    A,
    /// Receives all other `Control` events.
    B,
    /// Receives messages about newly loaded presets.
    C,
}

/// All possible events that might be emitted from the ReMOTE 25SL.
#[derive(Copy, Clone, Debug, Hash, PartialEq, Eq)]
pub enum Event {
    Control(Control),
    Key(State, LetterOctave, u8),
}

/// Note events emitted from key presses.
#[derive(Copy, Clone, Debug, Hash, PartialEq, Eq)]
pub enum State {
    /// The note was pressed.
    On,
    /// The note was released.
    Off,
}

/// Most controls on the 25SL come in 8 strips.
#[derive(Copy, Clone, Debug, Hash, PartialEq, Eq, PartialOrd, Ord)]
pub enum Oct { A, B, C, D, E, F, G, H }

/// The 4 distinct rows on which `Button`s are placed.
#[derive(Copy, Clone, Debug, Hash, PartialEq, Eq)]
pub enum ButtonRow {
    TopLeft,
    BottomLeft,
    TopRight,
    BottomRight,
}

/// Axes on which the `TouchPad` can output values.
#[derive(Copy, Clone, Debug, Hash, PartialEq, Eq)]
pub enum Axis { X, Y }

/// The left and right sides of the controller.
#[derive(Copy, Clone, Debug, Hash, PartialEq, Eq)]
pub enum Side {
    Left,
    Right,
}

/// The page up and down buttons.
#[derive(Copy, Clone, Debug, Hash, PartialEq, Eq)]
pub enum Page {
    Up,
    Down,
}

/// The four buttons on the upper left hand side of the controller from top to bottom.
#[derive(Copy, Clone, Debug, Hash, PartialEq, Eq)]
pub enum LeftButton { A, B, C, D }

/// The three buttons on the upper right hand side of the controller from top to bottom.
#[derive(Copy, Clone, Debug, Hash, PartialEq, Eq)]
pub enum RightButton { A, B, C }

/// Media playback-style control buttons.
#[derive(Copy, Clone, Debug, Hash, PartialEq, Eq)]
pub enum Playback {
    Previous,
    Next,
    Stop,
    Play,
    Loop,
    Record,
}

/// Controller events.
#[derive(Copy, Clone, Debug, Hash, PartialEq, Eq)]
pub enum Control {
    /// A magnitude in the direction in which the dial was turned.
    ///
    /// Values may range from -64 to 64 (exclusive on the right).
    RotaryDial(Oct, i8),

    /// The value to which the slider was set.
    ///
    /// Values range from `0` to `127` (inclusive).
    RotarySlider(Oct, u8),

    /// The value to which the slider was set.
    ///
    /// Values range from `0` to `127` (inclusive).
    VerticalSlider(Oct, u8),

    /// The force with which the pad was pressed.
    ///
    /// Values range from `0` to `127` (inclusive).
    PressurePad(Oct, u8),

    /// A button was pressed on the given row.
    Button(ButtonRow, Oct, State),

    /// The position on the touch pad that was pressed.
    ///
    /// Values range from `0` to `127` (inclusive).
    TouchPad(Axis, u8),

    /// The position of the pitch bender.
    ///
    /// Values range from -64 to 64 (exclusive on the right).
    Pitch(i8),

    /// The position of the modulation bender.
    ///
    /// Values range from 0 to 127 (inclusive).
    Mod(u8),

    /// The page up and down buttons on the top left and right of the controller.
    Page(Side, Page, State),

    /// The four buttons on the upper left hand side of the controller.
    LeftButton(LeftButton, State),

    /// The three buttons on the upper right hand side of the controller.
    RightButton(RightButton, State),

    /// Media playback-style control buttons.
    Playback(Playback, State),
}

/// The `Oct` whose ordinal position within its strip of eight is `n`,
/// where 0 is `A`, 1 is `B`, and so on up to 7 for `H`.
pub open spec fn spec_oct(n: int) -> Oct {
    if n == 0 { Oct::A }
    else if n == 1 { Oct::B }
    else if n == 2 { Oct::C }
    else if n == 3 { Oct::D }
    else if n == 4 { Oct::E }
    else if n == 5 { Oct::F }
    else if n == 6 { Oct::G }
    else { Oct::H }
}

impl Oct {
    /// Create an `Oct` from the given value where 0 == A, 1 == B, etc.
    ///
    /// Values outside 0-7 have no position within a strip and yield `None`.
    pub fn from_u8(n: u8) -> (r: Option<Self>)
        ensures
            r == (if n < 8 { Some(spec_oct(n as int)) } else { None::<Oct> }),
    {
        match n {
            0 => Some(Oct::A),
            1 => Some(Oct::B),
            2 => Some(Oct::C),
            3 => Some(Oct::D),
            4 => Some(Oct::E),
            5 => Some(Oct::F),
            6 => Some(Oct::G),
            7 => Some(Oct::H),
            _ => None,
        }
    }
}

/// Relies on `str`'s `PartialEq` implementation: two `&str` values compare
/// equal exactly when their character sequences are equal.
#[verifier::external_body]
fn str_eq(a: &str, b: &str) -> (r: bool)
    ensures
        r == (a@ == b@),
{
    a == b
}

impl InputPort {
    /// Determine the `InputPort` from the name of the transport endpoint on
    /// which the device emits it: `"ReMOTE SL 24:0"`, `"ReMOTE SL 24:1"` and
    /// `"ReMOTE SL 24:2"` name ports `A`, `B` and `C`; any other name is not
    /// one of the device's ports.
    pub fn from_name(name: &str) -> (r: Option<Self>)
        ensures
            r == (if name@ == "ReMOTE SL 24:0"@ { Some(InputPort::A) }
                else if name@ == "ReMOTE SL 24:1"@ { Some(InputPort::B) }
                else if name@ == "ReMOTE SL 24:2"@ { Some(InputPort::C) }
                else { None::<InputPort> }),
    {
        if str_eq(name, MIDI_INPUT_PORT_0) {
            Some(InputPort::A)
        } else if str_eq(name, MIDI_INPUT_PORT_1) {
            Some(InputPort::B)
        } else if str_eq(name, MIDI_INPUT_PORT_2) {
            Some(InputPort::C)
        } else {
            None
        }
    }
}

impl From<Control> for Event {
    fn from(control: Control) -> (r: Self) {
        Event::Control(control)
    }
}

impl vstd::std_specs::convert::FromSpecImpl<Control> for Event {
    open spec fn obeys_from_spec() -> bool {
        true
    }

    open spec fn from_spec(control: Control) -> Event {
        Event::Control(control)
    }
}

} // verus!
