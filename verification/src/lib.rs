//! Decoding of the raw 3-byte MIDI messages emitted by the Novation ReMOTE
//! 25SL controller into strongly typed, exhaustively classified events.
//!
//! The decoder is a pure, stateless translation: given one of the device's
//! three input ports and the raw bytes of a message, it yields either a
//! recognized event or `None`.

mod decode;
mod event;
mod laws;
mod pitch;

pub use decode::spec_axis;
pub use decode::spec_decode;
pub use decode::spec_decode_port_a;
pub use decode::spec_decode_port_b;
pub use decode::spec_dial_magnitude;
pub use decode::spec_left_button;
pub use decode::spec_page;
pub use decode::spec_playback;
pub use decode::spec_right_button;
pub use decode::spec_side;
pub use decode::spec_state;
pub use laws::lemma_button_state_mapping;
pub use laws::lemma_port_a_keys;
pub use laws::lemma_port_a_modulation;
pub use laws::lemma_port_a_pitch_bend;
pub use laws::lemma_port_b_classification_exhaustive;
pub use laws::lemma_port_b_octet_offsets;
pub use laws::lemma_port_b_unmapped_yields_none;
pub use laws::lemma_port_c_yields_none;
pub use laws::lemma_wrong_length_yields_none;
pub use laws::spec_cc_ranges_containing;
pub use laws::spec_event_state;
pub use event::Axis;
pub use event::MIDI_INPUT_PORT_0;
pub use event::MIDI_INPUT_PORT_1;
pub use event::MIDI_INPUT_PORT_2;
pub use event::ButtonRow;
pub use event::Control;
pub use event::Event;
pub use event::InputPort;
pub use event::LeftButton;
pub use event::Oct;
pub use event::Page;
pub use event::Playback;
pub use event::RightButton;
pub use event::Side;
pub use event::State;
pub use event::spec_oct;
pub use pitch::Letter;
pub use pitch::LetterOctave;
pub use pitch::spec_letter;
pub use pitch::spec_letter_octave;
