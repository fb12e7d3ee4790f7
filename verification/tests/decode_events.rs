use novation_remote_25sl::Axis;
use novation_remote_25sl::ButtonRow;
use novation_remote_25sl::Control;
use novation_remote_25sl::Event;
use novation_remote_25sl::InputPort;
use novation_remote_25sl::LeftButton;
use novation_remote_25sl::Letter;
use novation_remote_25sl::LetterOctave;
use novation_remote_25sl::Oct;
use novation_remote_25sl::Page;
use novation_remote_25sl::Playback;
use novation_remote_25sl::RightButton;
use novation_remote_25sl::Side;
use novation_remote_25sl::State;

fn control(c: Control) -> Option<Event> {
    Some(Event::Control(c))
}

#[test]
fn wrong_length_yields_none_on_every_port() {
    for port in [InputPort::A, InputPort::B, InputPort::C] {
        assert_eq!(Event::from_midi(port, &[]), None);
        assert_eq!(Event::from_midi(port, &[144]), None);
        assert_eq!(Event::from_midi(port, &[144, 60]), None);
        assert_eq!(Event::from_midi(port, &[144, 60, 100, 0]), None);
    }
}

#[test]
fn port_a_pitch_bend() {
    assert_eq!(Event::from_midi(InputPort::A, &[224, 0, 0]), control(Control::Pitch(-64)));
    assert_eq!(Event::from_midi(InputPort::A, &[224, 0, 1]), control(Control::Pitch(-63)));
    assert_eq!(Event::from_midi(InputPort::A, &[224, 0, 64]), control(Control::Pitch(0)));
    assert_eq!(Event::from_midi(InputPort::A, &[224, 0, 127]), control(Control::Pitch(63)));
    // A data2 byte past the 7-bit range names no representable magnitude.
    assert_eq!(Event::from_midi(InputPort::A, &[224, 0, 128]), None);
    // Pitch bend carries data1 0 alone.
    assert_eq!(Event::from_midi(InputPort::A, &[224, 1, 64]), None);
}

#[test]
fn port_a_modulation_passes_the_value_through() {
    assert_eq!(Event::from_midi(InputPort::A, &[176, 1, 0]), control(Control::Mod(0)));
    assert_eq!(Event::from_midi(InputPort::A, &[176, 1, 27]), control(Control::Mod(27)));
    assert_eq!(Event::from_midi(InputPort::A, &[176, 1, 127]), control(Control::Mod(127)));
    // Modulation carries data1 1 alone.
    assert_eq!(Event::from_midi(InputPort::A, &[176, 0, 27]), None);
    assert_eq!(Event::from_midi(InputPort::A, &[176, 2, 27]), None);
}

#[test]
fn port_a_keys() {
    assert_eq!(
        Event::from_midi(InputPort::A, &[144, 60, 100]),
        Some(Event::Key(State::On, LetterOctave(Letter::C, 4), 100)),
    );
    assert_eq!(
        Event::from_midi(InputPort::A, &[128, 60, 0]),
        Some(Event::Key(State::Off, LetterOctave(Letter::C, 4), 0)),
    );
    assert_eq!(
        Event::from_midi(InputPort::A, &[144, 0, 127]),
        Some(Event::Key(State::On, LetterOctave(Letter::C, -1), 127)),
    );
    assert_eq!(
        Event::from_midi(InputPort::A, &[128, 127, 1]),
        Some(Event::Key(State::Off, LetterOctave(Letter::G, 9), 1)),
    );
}

#[test]
fn port_a_unrecognized_status_yields_none() {
    assert_eq!(Event::from_midi(InputPort::A, &[150, 60, 100]), None);
    assert_eq!(Event::from_midi(InputPort::A, &[0, 0, 0]), None);
    assert_eq!(Event::from_midi(InputPort::A, &[255, 60, 100]), None);
}

#[test]
fn port_b_rotary_dial_octets_cover_the_range() {
    assert_eq!(Event::from_midi(InputPort::B, &[176, 56, 1]), control(Control::RotaryDial(Oct::A, 1)));
    assert_eq!(Event::from_midi(InputPort::B, &[176, 57, 1]), control(Control::RotaryDial(Oct::B, 1)));
    assert_eq!(Event::from_midi(InputPort::B, &[176, 63, 1]), control(Control::RotaryDial(Oct::H, 1)));
}

#[test]
fn port_b_rotary_dial_value_mapping() {
    // Values up to 64 pass through; values above 64 negate their offset from 64.
    assert_eq!(Event::from_midi(InputPort::B, &[176, 56, 0]), control(Control::RotaryDial(Oct::A, 0)));
    assert_eq!(Event::from_midi(InputPort::B, &[176, 56, 63]), control(Control::RotaryDial(Oct::A, 63)));
    assert_eq!(Event::from_midi(InputPort::B, &[176, 56, 64]), control(Control::RotaryDial(Oct::A, 64)));
    assert_eq!(Event::from_midi(InputPort::B, &[176, 56, 65]), control(Control::RotaryDial(Oct::A, -1)));
    assert_eq!(Event::from_midi(InputPort::B, &[176, 56, 127]), control(Control::RotaryDial(Oct::A, -63)));
    // A data2 byte past the 7-bit range names no representable magnitude.
    assert_eq!(Event::from_midi(InputPort::B, &[176, 56, 128]), None);
    assert_eq!(Event::from_midi(InputPort::B, &[176, 56, 255]), None);
}

#[test]
fn port_b_rotary_sliders() {
    assert_eq!(Event::from_midi(InputPort::B, &[176, 8, 0]), control(Control::RotarySlider(Oct::A, 0)));
    assert_eq!(Event::from_midi(InputPort::B, &[176, 15, 127]), control(Control::RotarySlider(Oct::H, 127)));
    assert_eq!(Event::from_midi(InputPort::B, &[176, 12, 99]), control(Control::RotarySlider(Oct::E, 99)));
}

#[test]
fn port_b_vertical_sliders() {
    assert_eq!(Event::from_midi(InputPort::B, &[176, 16, 5]), control(Control::VerticalSlider(Oct::A, 5)));
    assert_eq!(Event::from_midi(InputPort::B, &[176, 23, 127]), control(Control::VerticalSlider(Oct::H, 127)));
}

#[test]
fn port_b_pressure_pads_use_status_144() {
    assert_eq!(Event::from_midi(InputPort::B, &[144, 36, 90]), control(Control::PressurePad(Oct::A, 90)));
    assert_eq!(Event::from_midi(InputPort::B, &[144, 43, 1]), control(Control::PressurePad(Oct::H, 1)));
    // Under status 176 the same data1 value belongs to a button row instead.
    assert_eq!(
        Event::from_midi(InputPort::B, &[176, 36, 90]),
        control(Control::Button(ButtonRow::BottomLeft, Oct::E, State::On)),
    );
    // And status 144 answers to the pad range alone.
    assert_eq!(Event::from_midi(InputPort::B, &[144, 35, 90]), None);
    assert_eq!(Event::from_midi(InputPort::B, &[144, 44, 90]), None);
}

#[test]
fn port_b_touch_pad_axes() {
    assert_eq!(Event::from_midi(InputPort::B, &[176, 68, 40]), control(Control::TouchPad(Axis::X, 40)));
    assert_eq!(Event::from_midi(InputPort::B, &[176, 69, 41]), control(Control::TouchPad(Axis::Y, 41)));
}

#[test]
fn port_b_button_rows_cover_their_ranges() {
    let rows = [
        (24u8, ButtonRow::TopLeft),
        (32u8, ButtonRow::BottomLeft),
        (40u8, ButtonRow::TopRight),
        (48u8, ButtonRow::BottomRight),
    ];
    for (start, row) in rows {
        assert_eq!(
            Event::from_midi(InputPort::B, &[176, start, 127]),
            control(Control::Button(row, Oct::A, State::On)),
        );
        assert_eq!(
            Event::from_midi(InputPort::B, &[176, start + 7, 127]),
            control(Control::Button(row, Oct::H, State::On)),
        );
        assert_eq!(
            Event::from_midi(InputPort::B, &[176, start + 3, 0]),
            control(Control::Button(row, Oct::D, State::Off)),
        );
    }
}

#[test]
fn button_state_is_released_on_zero_and_pressed_on_any_nonzero_value() {
    assert_eq!(Event::from_midi(InputPort::B, &[176, 24, 0]), control(Control::Button(ButtonRow::TopLeft, Oct::A, State::Off)));
    assert_eq!(Event::from_midi(InputPort::B, &[176, 24, 1]), control(Control::Button(ButtonRow::TopLeft, Oct::A, State::On)));
    assert_eq!(Event::from_midi(InputPort::B, &[176, 24, 127]), control(Control::Button(ButtonRow::TopLeft, Oct::A, State::On)));
    assert_eq!(Event::from_midi(InputPort::B, &[176, 88, 0]), control(Control::Page(Side::Left, Page::Up, State::Off)));
    assert_eq!(Event::from_midi(InputPort::B, &[176, 88, 1]), control(Control::Page(Side::Left, Page::Up, State::On)));
    assert_eq!(Event::from_midi(InputPort::B, &[176, 80, 0]), control(Control::LeftButton(LeftButton::A, State::Off)));
    assert_eq!(Event::from_midi(InputPort::B, &[176, 80, 127]), control(Control::LeftButton(LeftButton::A, State::On)));
    assert_eq!(Event::from_midi(InputPort::B, &[176, 85, 0]), control(Control::RightButton(RightButton::A, State::Off)));
    assert_eq!(Event::from_midi(InputPort::B, &[176, 85, 1]), control(Control::RightButton(RightButton::A, State::On)));
    assert_eq!(Event::from_midi(InputPort::B, &[176, 75, 0]), control(Control::Playback(Playback::Play, State::Off)));
    assert_eq!(Event::from_midi(InputPort::B, &[176, 75, 127]), control(Control::Playback(Playback::Play, State::On)));
}

#[test]
fn port_b_page_buttons() {
    assert_eq!(Event::from_midi(InputPort::B, &[176, 88, 1]), control(Control::Page(Side::Left, Page::Up, State::On)));
    assert_eq!(Event::from_midi(InputPort::B, &[176, 89, 1]), control(Control::Page(Side::Left, Page::Down, State::On)));
    assert_eq!(Event::from_midi(InputPort::B, &[176, 90, 1]), control(Control::Page(Side::Right, Page::Up, State::On)));
    assert_eq!(Event::from_midi(InputPort::B, &[176, 91, 1]), control(Control::Page(Side::Right, Page::Down, State::On)));
}

#[test]
fn port_b_left_and_right_buttons() {
    assert_eq!(Event::from_midi(InputPort::B, &[176, 80, 1]), control(Control::LeftButton(LeftButton::A, State::On)));
    assert_eq!(Event::from_midi(InputPort::B, &[176, 81, 1]), control(Control::LeftButton(LeftButton::B, State::On)));
    assert_eq!(Event::from_midi(InputPort::B, &[176, 82, 1]), control(Control::LeftButton(LeftButton::C, State::On)));
    assert_eq!(Event::from_midi(InputPort::B, &[176, 83, 1]), control(Control::LeftButton(LeftButton::D, State::On)));
    assert_eq!(Event::from_midi(InputPort::B, &[176, 85, 1]), control(Control::RightButton(RightButton::A, State::On)));
    assert_eq!(Event::from_midi(InputPort::B, &[176, 86, 1]), control(Control::RightButton(RightButton::B, State::On)));
    assert_eq!(Event::from_midi(InputPort::B, &[176, 87, 1]), control(Control::RightButton(RightButton::C, State::On)));
}

#[test]
fn port_b_playback_buttons() {
    assert_eq!(Event::from_midi(InputPort::B, &[176, 72, 1]), control(Control::Playback(Playback::Previous, State::On)));
    assert_eq!(Event::from_midi(InputPort::B, &[176, 73, 1]), control(Control::Playback(Playback::Next, State::On)));
    assert_eq!(Event::from_midi(InputPort::B, &[176, 74, 1]), control(Control::Playback(Playback::Stop, State::On)));
    assert_eq!(Event::from_midi(InputPort::B, &[176, 75, 1]), control(Control::Playback(Playback::Play, State::On)));
    assert_eq!(Event::from_midi(InputPort::B, &[176, 76, 1]), control(Control::Playback(Playback::Record, State::On)));
    assert_eq!(Event::from_midi(InputPort::B, &[176, 77, 1]), control(Control::Playback(Playback::Loop, State::On)));
}

#[test]
fn port_b_unmapped_data1_values_yield_none() {
    assert_eq!(Event::from_midi(InputPort::B, &[176, 0, 1]), None);
    assert_eq!(Event::from_midi(InputPort::B, &[176, 1, 1]), None);
    assert_eq!(Event::from_midi(InputPort::B, &[176, 7, 1]), None);
    assert_eq!(Event::from_midi(InputPort::B, &[176, 64, 1]), None);
    assert_eq!(Event::from_midi(InputPort::B, &[176, 67, 1]), None);
    assert_eq!(Event::from_midi(InputPort::B, &[176, 70, 1]), None);
    assert_eq!(Event::from_midi(InputPort::B, &[176, 71, 1]), None);
    assert_eq!(Event::from_midi(InputPort::B, &[176, 78, 1]), None);
    assert_eq!(Event::from_midi(InputPort::B, &[176, 79, 1]), None);
    assert_eq!(Event::from_midi(InputPort::B, &[176, 84, 1]), None);
    assert_eq!(Event::from_midi(InputPort::B, &[176, 92, 1]), None);
    assert_eq!(Event::from_midi(InputPort::B, &[176, 127, 1]), None);
    assert_eq!(Event::from_midi(InputPort::B, &[144, 1, 1]), None);
    assert_eq!(Event::from_midi(InputPort::B, &[150, 56, 1]), None);
}

#[test]
fn port_b_boundary_between_dial_range_and_its_neighbours() {
    // 63 is the last dial value; 64 lies past every range.
    assert!(Event::from_midi(InputPort::B, &[176, 63, 1]).is_some());
    assert_eq!(Event::from_midi(InputPort::B, &[176, 64, 1]), None);
    // 55 is the last bottom right button; 56 starts the dials.
    assert_eq!(Event::from_midi(InputPort::B, &[176, 55, 1]), control(Control::Button(ButtonRow::BottomRight, Oct::H, State::On)));
    assert_eq!(Event::from_midi(InputPort::B, &[176, 56, 1]), control(Control::RotaryDial(Oct::A, 1)));
}

#[test]
fn port_b_status_176_classifies_every_data1_value_exactly_once() {
    // The union of the table's control-change ranges, and which range starts
    // where; every data1 value must fall in at most one of them, and decode
    // to a control exactly when it falls in one.
    let ranges: [(u8, u8); 12] = [
        (8, 15),
        (16, 23),
        (24, 31),
        (32, 39),
        (40, 47),
        (48, 55),
        (56, 63),
        (68, 69),
        (72, 77),
        (80, 83),
        (85, 87),
        (88, 91),
    ];
    for n in 0u8..=127 {
        let containing = ranges.iter().filter(|(lo, hi)| *lo <= n && n <= *hi).count();
        assert!(containing <= 1, "data1 {} lies in {} ranges", n, containing);
        let decoded = Event::from_midi(InputPort::B, &[176, n, 1]);
        assert_eq!(decoded.is_some(), containing == 1, "data1 {}", n);
    }
}

#[test]
fn port_c_always_yields_none() {
    assert_eq!(Event::from_midi(InputPort::C, &[144, 60, 100]), None);
    assert_eq!(Event::from_midi(InputPort::C, &[176, 56, 65]), None);
    assert_eq!(Event::from_midi(InputPort::C, &[224, 0, 64]), None);
    assert_eq!(Event::from_midi(InputPort::C, &[0, 0, 0]), None);
    assert_eq!(Event::from_midi(InputPort::C, &[255, 255, 255]), None);
}

#[test]
fn decode_is_pure() {
    let cases: [(InputPort, [u8; 3]); 4] = [
        (InputPort::A, [144, 60, 100]),
        (InputPort::A, [224, 0, 13]),
        (InputPort::B, [176, 56, 65]),
        (InputPort::C, [144, 60, 100]),
    ];
    for (port, msg) in cases {
        assert_eq!(Event::from_midi(port, &msg), Event::from_midi(port, &msg));
    }
}

#[test]
fn event_from_control_wraps_the_control() {
    let c = Control::Mod(5);
    assert_eq!(Event::from(c), Event::Control(c));
}
