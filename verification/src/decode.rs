//! The decoder: the mapping from an input port and a raw 3-byte MIDI message
//! to a typed event.

use vstd::prelude::*;
use crate::event::Axis;
use crate::event::ButtonRow;
use crate::event::Control;
use crate::event::Event;
use crate::event::InputPort;
use crate::event::LeftButton;
use crate::event::Oct;
use crate::event::Page;
use crate::event::Playback;
use crate::event::RightButton;
use crate::event::Side;
use crate::event::State;
use crate::event::spec_oct;
use crate::pitch::LetterOctave;
use crate::pitch::spec_letter_octave;

verus! {

/// The press state encoded by a button's data2 byte: 0 means released, any
/// other value means pressed.
pub open spec fn spec_state(v: u8) -> State {
    if v == 0 { State::Off } else { State::On }
}

/// The signed magnitude of a dial turn encoded by data2 value `v`: values
/// above 64 turn into their negated offset from 64, values up to 64 pass
/// through. Meaningful for `v <= 127`, the values the device emits.
pub open spec fn spec_dial_magnitude(v: u8) -> i8 {
    if v > 64 { (64 - v) as i8 } else { v as i8 }
}

/// The touch pad axis selected by data1 value `n`: 68 is X, 69 is Y.
pub open spec fn spec_axis(n: u8) -> Axis {
    if n == 68 { Axis::X } else { Axis::Y }
}

/// The side of the controller whose page button has data1 value `n`, for `n`
/// in 88-91: 88 and 89 lie on the left, 90 and 91 on the right.
pub open spec fn spec_side(n: u8) -> Side {
    if n == 88 || n == 89 { Side::Left } else { Side::Right }
}

/// The page direction of the page button with data1 value `n`, for `n` in
/// 88-91: 88 and 90 page up, 89 and 91 page down.
pub open spec fn spec_page(n: u8) -> Page {
    if n == 88 || n == 90 { Page::Up } else { Page::Down }
}

/// The left-hand side button with data1 value `n`, for `n` in 80-83, from top
/// to bottom.
pub open spec fn spec_left_button(n: u8) -> LeftButton {
    if n == 80 { LeftButton::A }
    else if n == 81 { LeftButton::B }
    else if n == 82 { LeftButton::C }
    else { LeftButton::D }
}

/// The right-hand side button with data1 value `n`, for `n` in 85-87, from top
/// to bottom.
pub open spec fn spec_right_button(n: u8) -> RightButton {
    if n == 85 { RightButton::A }
    else if n == 86 { RightButton::B }
    else { RightButton::C }
}

/// The playback button with data1 value `n`, for `n` in 72-77.
pub open spec fn spec_playback(n: u8) -> Playback {
    if n == 72 { Playback::Previous }
    else if n == 73 { Playback::Next }
    else if n == 74 { Playback::Stop }
    else if n == 75 { Playback::Play }
    else if n == 76 { Playback::Record }
    else { Playback::Loop }
}

/// Port A carries the keyboard and the two bend wheels: pitch bend on status
/// 224 with data1 0, modulation on status 176 with data1 1, and note on/off on
/// statuses 144 and 128. A pitch bend whose data2 byte exceeds 127 names a
/// magnitude outside the representable -64 to 63 range and decodes to nothing.
pub open spec fn spec_decode_port_a(s: u8, d1: u8, d2: u8) -> Option<Event> {
    if s == 224 && d1 == 0 {
        if d2 <= 127 {
            Some(Event::Control(Control::Pitch((d2 - 64) as i8)))
        } else {
            None
        }
    } else if s == 176 && d1 == 1 {
        Some(Event::Control(Control::Mod(d2)))
    } else if s == 144 {
        Some(Event::Key(State::On, spec_letter_octave(d1), d2))
    } else if s == 128 {
        Some(Event::Key(State::Off, spec_letter_octave(d1), d2))
    } else {
        None
    }
}

/// Port B carries the control surface. Status 176 selects the continuous and
/// button controls by disjoint data1 ranges, status 144 the pressure pads; a
/// data1 value outside every range decodes to nothing. A dial turn whose data2
/// byte exceeds 127 names a magnitude outside the representable range and
/// decodes to nothing.
pub open spec fn spec_decode_port_b(s: u8, n: u8, v: u8) -> Option<Event> {
    if s == 176 && 56 <= n && n <= 63 {
        if v <= 127 {
            Some(Event::Control(Control::RotaryDial(spec_oct(n - 56), spec_dial_magnitude(v))))
        } else {
            None
        }
    } else if s == 176 && 8 <= n && n <= 15 {
        Some(Event::Control(Control::RotarySlider(spec_oct(n - 8), v)))
    } else if s == 176 && 16 <= n && n <= 23 {
        Some(Event::Control(Control::VerticalSlider(spec_oct(n - 16), v)))
    } else if s == 144 && 36 <= n && n <= 43 {
        Some(Event::Control(Control::PressurePad(spec_oct(n - 36), v)))
    } else if s == 176 && (n == 68 || n == 69) {
        Some(Event::Control(Control::TouchPad(spec_axis(n), v)))
    } else if s == 176 && 24 <= n && n <= 31 {
        Some(Event::Control(Control::Button(ButtonRow::TopLeft, spec_oct(n - 24), spec_state(v))))
    } else if s == 176 && 32 <= n && n <= 39 {
        Some(Event::Control(Control::Button(ButtonRow::BottomLeft, spec_oct(n - 32), spec_state(v))))
    } else if s == 176 && 40 <= n && n <= 47 {
        Some(Event::Control(Control::Button(ButtonRow::TopRight, spec_oct(n - 40), spec_state(v))))
    } else if s == 176 && 48 <= n && n <= 55 {
        Some(Event::Control(Control::Button(ButtonRow::BottomRight, spec_oct(n - 48), spec_state(v))))
    } else if s == 176 && 88 <= n && n <= 91 {
        Some(Event::Control(Control::Page(spec_side(n), spec_page(n), spec_state(v))))
    } else if s == 176 && 80 <= n && n <= 83 {
        Some(Event::Control(Control::LeftButton(spec_left_button(n), spec_state(v))))
    } else if s == 176 && 85 <= n && n <= 87 {
        Some(Event::Control(Control::RightButton(spec_right_button(n), spec_state(v))))
    } else if s == 176 && 72 <= n && n <= 77 {
        Some(Event::Control(Control::Playback(spec_playback(n), spec_state(v))))
    } else {
        None
    }
}

/// What `Event::from_midi` yields for a port and the raw bytes of a message:
/// a keyboard or bend event on port A, a control surface event on port B,
/// nothing on port C, and nothing for any message that is not exactly three
/// bytes long or matches no entry of the device's assignment table.
pub open spec fn spec_decode(port: InputPort, msg: Seq<u8>) -> Option<Event> {
    if msg.len() != 3 {
        None
    } else {
        match port {
            InputPort::A => spec_decode_port_a(msg[0], msg[1], msg[2]),
            InputPort::B => spec_decode_port_b(msg[0], msg[1], msg[2]),
            InputPort::C => None,
        }
    }
}

impl Event {
    /// Produce an `Event` from the given MIDI input port and the MIDI message
    /// itself.
    pub fn from_midi(port: InputPort, msg: &[u8]) -> (r: Option<Self>)
        ensures
            r == spec_decode(port, msg@),
    {
        if msg.len() != 3 {
            return None;
        }
        let s: u8 = msg[0];
        let d1: u8 = msg[1];
        let d2: u8 = msg[2];
        match port {
            // Receive keyboard note events and pitch/mod bend values.
            InputPort::A => {
                if s == 224 && d1 == 0 {
                    // Pitch bend.
                    if d2 <= 127 {
                        Some(Event::from(Control::Pitch((d2 as i8) - 64)))
                    } else {
                        None
                    }
                } else if s == 176 && d1 == 1 {
                    // Modulation bend.
                    Some(Event::from(Control::Mod(d2)))
                } else if s == 144 {
                    // Note pressed on the keyboard.
                    Some(Event::Key(State::On, LetterOctave::from_note(d1), d2))
                } else if s == 128 {
                    // Note released on the keyboard.
                    Some(Event::Key(State::Off, LetterOctave::from_note(d1), d2))
                } else {
                    None
                }
            },

            // Receive control events.
            InputPort::B => {
                if s == 176 && 56 <= d1 && d1 <= 63 {
                    // Rotary dialers.
                    match Oct::from_u8(d1 - 56) {
                        Some(oct) => {
                            if d2 <= 127 {
                                let value: i8 = if d2 > 64 { -((d2 as i8) - 64) } else { d2 as i8 };
                                Some(Event::from(Control::RotaryDial(oct, value)))
                            } else {
                                None
                            }
                        },
                        None => None,
                    }
                } else if s == 176 && 8 <= d1 && d1 <= 15 {
                    // Rotary sliders.
                    match Oct::from_u8(d1 - 8) {
                        Some(oct) => Some(Event::from(Control::RotarySlider(oct, d2))),
                        None => None,
                    }
                } else if s == 176 && 16 <= d1 && d1 <= 23 {
                    // Vertical sliders.
                    match Oct::from_u8(d1 - 16) {
                        Some(oct) => Some(Event::from(Control::VerticalSlider(oct, d2))),
                        None => None,
                    }
                } else if s == 144 && 36 <= d1 && d1 <= 43 {
                    // Pressure pads.
                    match Oct::from_u8(d1 - 36) {
                        Some(oct) => Some(Event::from(Control::PressurePad(oct, d2))),
                        None => None,
                    }
                } else if s == 176 && (d1 == 68 || d1 == 69) {
                    // Touch pad.
                    let axis = if d1 == 68 { Axis::X } else { Axis::Y };
                    Some(Event::from(Control::TouchPad(axis, d2)))
                } else if s == 176 && 24 <= d1 && d1 <= 31 {
                    // Top left row buttons.
                    match Oct::from_u8(d1 - 24) {
                        Some(oct) => {
                            let state = if d2 == 0 { State::Off } else { State::On };
                            Some(Event::from(Control::Button(ButtonRow::TopLeft, oct, state)))
                        },
                        None => None,
                    }
                } else if s == 176 && 32 <= d1 && d1 <= 39 {
                    // Bottom left row buttons.
                    match Oct::from_u8(d1 - 32) {
                        Some(oct) => {
                            let state = if d2 == 0 { State::Off } else { State::On };
                            Some(Event::from(Control::Button(ButtonRow::BottomLeft, oct, state)))
                        },
                        None => None,
                    }
                } else if s == 176 && 40 <= d1 && d1 <= 47 {
                    // Top right row buttons.
                    match Oct::from_u8(d1 - 40) {
                        Some(oct) => {
                            let state = if d2 == 0 { State::Off } else { State::On };
                            Some(Event::from(Control::Button(ButtonRow::TopRight, oct, state)))
                        },
                        None => None,
                    }
                } else if s == 176 && 48 <= d1 && d1 <= 55 {
                    // Bottom right row buttons.
                    match Oct::from_u8(d1 - 48) {
                        Some(oct) => {
                            let state = if d2 == 0 { State::Off } else { State::On };
                            Some(Event::from(Control::Button(ButtonRow::BottomRight, oct, state)))
                        },
                        None => None,
                    }
                } else if s == 176 && 88 <= d1 && d1 <= 91 {
                    // Page up and down.
                    let side = if d1 == 88 || d1 == 89 { Side::Left } else { Side::Right };
                    let page = if d1 == 88 || d1 == 90 { Page::Up } else { Page::Down };
                    let state = if d2 == 0 { State::Off } else { State::On };
                    Some(Event::from(Control::Page(side, page, state)))
                } else if s == 176 && 80 <= d1 && d1 <= 83 {
                    // Left-hand side buttons.
                    let button = match d1 {
                        80 => LeftButton::A,
                        81 => LeftButton::B,
                        82 => LeftButton::C,
                        _ => LeftButton::D,
                    };
                    let state = if d2 == 0 { State::Off } else { State::On };
                    Some(Event::from(Control::LeftButton(button, state)))
                } else if s == 176 && 85 <= d1 && d1 <= 87 {
                    // Right-hand side buttons.
                    let button = match d1 {
                        85 => RightButton::A,
                        86 => RightButton::B,
                        _ => RightButton::C,
                    };
                    let state = if d2 == 0 { State::Off } else { State::On };
                    Some(Event::from(Control::RightButton(button, state)))
                } else if s == 176 && 72 <= d1 && d1 <= 77 {
                    // Playback buttons.
                    let playback = match d1 {
                        72 => Playback::Previous,
                        73 => Playback::Next,
                        74 => Playback::Stop,
                        75 => Playback::Play,
                        76 => Playback::Record,
                        _ => Playback::Loop,
                    };
                    let state = if d2 == 0 { State::Off } else { State::On };
                    Some(Event::from(Control::Playback(playback, state)))
                } else {
                    None
                }
            },

            // Receive preset state loaded from the controller.
            InputPort::C => None,
        }
    }
}

} // verus!
