//! Laws of the decoder: what the classification guarantees over whole ranges
//! of inputs, proved once and for all.

use vstd::prelude::*;
use crate::decode::spec_decode;
use crate::decode::spec_dial_magnitude;
use crate::decode::spec_state;
use crate::event::ButtonRow;
use crate::event::Control;
use crate::event::Event;
use crate::event::InputPort;
use crate::event::State;
use crate::event::spec_oct;
use crate::pitch::spec_letter_octave;

verus! {

/// On every port, a message whose length is not exactly three bytes decodes
/// to nothing.
pub proof fn lemma_wrong_length_yields_none(port: InputPort, msg: Seq<u8>)
    requires
        msg.len() != 3,
    ensures
        spec_decode(port, msg) is None,
{
}

/// On port A, a pitch bend message with data2 value `v` decodes to the pitch
/// control whose magnitude is `v - 64`, and for every nonzero `v` the
/// magnitude lies strictly between -64 and 64.
pub proof fn lemma_port_a_pitch_bend(v: u8)
    requires
        1 <= v <= 127,
    ensures
        spec_decode(InputPort::A, seq![224u8, 0u8, v])
            == Some(Event::Control(Control::Pitch((v - 64) as i8))),
        -64 < v - 64 < 64,
{
}

/// On port A, a modulation message with data2 value `v` decodes to the
/// modulation control carrying `v` unchanged.
pub proof fn lemma_port_a_modulation(v: u8)
    requires
        v <= 127,
    ensures
        spec_decode(InputPort::A, seq![176u8, 1u8, v]) == Some(Event::Control(Control::Mod(v))),
{
}

/// On port A, status 144 decodes to a pressed key and status 128 to a
/// released key, each carrying the pitch named by the note number `n` and the
/// velocity `vel` unchanged.
pub proof fn lemma_port_a_keys(n: u8, vel: u8)
    requires
        n <= 127,
        vel <= 127,
    ensures
        spec_decode(InputPort::A, seq![144u8, n, vel])
            == Some(Event::Key(State::On, spec_letter_octave(n), vel)),
        spec_decode(InputPort::A, seq![128u8, n, vel])
            == Some(Event::Key(State::Off, spec_letter_octave(n), vel)),
{
}

/// On port B, within each eight-wide data1 range of the device's assignment
/// table, the decoded control carries the octet `n - range_start`, over the
/// whole range and in particular at both of its ends.
pub proof fn lemma_port_b_octet_offsets(n: u8, v: u8)
    requires
        v <= 127,
    ensures
        56 <= n <= 63 ==> spec_decode(InputPort::B, seq![176u8, n, v])
            == Some(Event::Control(Control::RotaryDial(spec_oct(n - 56), spec_dial_magnitude(v)))),
        8 <= n <= 15 ==> spec_decode(InputPort::B, seq![176u8, n, v])
            == Some(Event::Control(Control::RotarySlider(spec_oct(n - 8), v))),
        16 <= n <= 23 ==> spec_decode(InputPort::B, seq![176u8, n, v])
            == Some(Event::Control(Control::VerticalSlider(spec_oct(n - 16), v))),
        36 <= n <= 43 ==> spec_decode(InputPort::B, seq![144u8, n, v])
            == Some(Event::Control(Control::PressurePad(spec_oct(n - 36), v))),
        24 <= n <= 31 ==> spec_decode(InputPort::B, seq![176u8, n, v])
            == Some(Event::Control(Control::Button(
                ButtonRow::TopLeft, spec_oct(n - 24), spec_state(v)))),
        32 <= n <= 39 ==> spec_decode(InputPort::B, seq![176u8, n, v])
            == Some(Event::Control(Control::Button(
                ButtonRow::BottomLeft, spec_oct(n - 32), spec_state(v)))),
        40 <= n <= 47 ==> spec_decode(InputPort::B, seq![176u8, n, v])
            == Some(Event::Control(Control::Button(
                ButtonRow::TopRight, spec_oct(n - 40), spec_state(v)))),
        48 <= n <= 55 ==> spec_decode(InputPort::B, seq![176u8, n, v])
            == Some(Event::Control(Control::Button(
                ButtonRow::BottomRight, spec_oct(n - 48), spec_state(v)))),
{
}

/// On port B, a data1 value covered by no range of the assignment table
/// decodes to nothing, under status 176 and under status 144 alike.
pub proof fn lemma_port_b_unmapped_yields_none(n: u8, v: u8)
    ensures
        !(8 <= n <= 63 || 68 <= n <= 69 || 72 <= n <= 77 || 80 <= n <= 83 || 85 <= n <= 87
            || 88 <= n <= 91)
            ==> spec_decode(InputPort::B, seq![176u8, n, v]) is None,
        !(36 <= n <= 43) ==> spec_decode(InputPort::B, seq![144u8, n, v]) is None,
{
}

/// The state that a button, page, side or playback control carries, if the
/// decoded event is such a control.
pub open spec fn spec_event_state(e: Event) -> Option<State> {
    match e {
        Event::Control(c) => match c {
            Control::Button(_, _, st) => Some(st),
            Control::Page(_, _, st) => Some(st),
            Control::LeftButton(_, st) => Some(st),
            Control::RightButton(_, st) => Some(st),
            Control::Playback(_, st) => Some(st),
            _ => None,
        },
        _ => None,
    }
}

/// On port B, every button, page, left, right and playback message decodes to
/// a control whose state is released exactly when data2 is 0 and pressed for
/// every nonzero data2 value.
pub proof fn lemma_button_state_mapping(n: u8, v: u8)
    requires
        (24 <= n <= 55) || (72 <= n <= 77) || (80 <= n <= 83) || (85 <= n <= 87)
            || (88 <= n <= 91),
    ensures
        spec_decode(InputPort::B, seq![176u8, n, v]) matches Some(e)
            && spec_event_state(e) == Some(spec_state(v)),
        spec_state(v) == (if v == 0 { State::Off } else { State::On }),
{
}

/// Port C decodes every message to nothing.
pub proof fn lemma_port_c_yields_none(msg: Seq<u8>)
    ensures
        spec_decode(InputPort::C, msg) is None,
{
}

/// How many of the control-change data1 ranges of port B's assignment table
/// contain the value `n`.
pub open spec fn spec_cc_ranges_containing(n: u8) -> int {
    (if 8 <= n <= 15 { 1int } else { 0int })
        + (if 16 <= n <= 23 { 1int } else { 0int })
        + (if 24 <= n <= 31 { 1int } else { 0int })
        + (if 32 <= n <= 39 { 1int } else { 0int })
        + (if 40 <= n <= 47 { 1int } else { 0int })
        + (if 48 <= n <= 55 { 1int } else { 0int })
        + (if 56 <= n <= 63 { 1int } else { 0int })
        + (if 68 <= n <= 69 { 1int } else { 0int })
        + (if 72 <= n <= 77 { 1int } else { 0int })
        + (if 80 <= n <= 83 { 1int } else { 0int })
        + (if 85 <= n <= 87 { 1int } else { 0int })
        + (if 88 <= n <= 91 { 1int } else { 0int })
}

/// The control-change classification of port B is exhaustive and unambiguous:
/// every data1 value lies in at most one range of the assignment table, a
/// value in no range decodes to nothing, and a value in one range decodes to
/// a control for every data2 value the device emits.
pub proof fn lemma_port_b_classification_exhaustive(n: u8, v: u8)
    requires
        v <= 127,
    ensures
        spec_cc_ranges_containing(n) <= 1,
        spec_cc_ranges_containing(n) == 0
            ==> spec_decode(InputPort::B, seq![176u8, n, v]) is None,
        spec_cc_ranges_containing(n) == 1
            ==> spec_decode(InputPort::B, seq![176u8, n, v]) is Some,
{
}

} // verus!
