//! Typed MIDI messages and their decoding from raw bytes.

use midi_control::MidiMessage as WireMessage;
use midi_control::{Channel, ControlEvent, KeyEvent, SysExEvent};
use vstd::prelude::*;

verus! {

/// One decoded MIDI message. Channels are `0..=15`.
#[derive(Debug, PartialEq, Eq)]
pub enum MidiMessage {
    Invalid,
    NoteOn { channel: u8, key: u8, velocity: u8 },
    NoteOff { channel: u8, key: u8, velocity: u8 },
    PolyKeyPressure { channel: u8, key: u8, pressure: u8 },
    ControlChange { channel: u8, control: u8, value: u8 },
    ProgramChange { channel: u8, program: u8 },
    ChannelPressure { channel: u8, pressure: u8 },
    PitchBend { channel: u8, lsb: u8, msb: u8 },
    /// A System Exclusive message, carried through as midi-control read it.
    SysEx(SysExEvent),
}

/// The mathematical value of a `MidiMessage`: its variant and its fields,
/// a System Exclusive message by its variant alone.
pub enum MessageModel {
    Invalid,
    NoteOn { channel: u8, key: u8, velocity: u8 },
    NoteOff { channel: u8, key: u8, velocity: u8 },
    PolyKeyPressure { channel: u8, key: u8, pressure: u8 },
    ControlChange { channel: u8, control: u8, value: u8 },
    ProgramChange { channel: u8, program: u8 },
    ChannelPressure { channel: u8, pressure: u8 },
    PitchBend { channel: u8, lsb: u8, msb: u8 },
    SysEx,
}

impl View for MidiMessage {
    type V = MessageModel;

    open spec fn view(&self) -> MessageModel {
        match *self {
            MidiMessage::Invalid => MessageModel::Invalid,
            MidiMessage::NoteOn { channel, key, velocity } => MessageModel::NoteOn { channel, key, velocity },
            MidiMessage::NoteOff { channel, key, velocity } => MessageModel::NoteOff { channel, key, velocity },
            MidiMessage::PolyKeyPressure { channel, key, pressure } => MessageModel::PolyKeyPressure { channel, key, pressure },
            MidiMessage::ControlChange { channel, control, value } => MessageModel::ControlChange { channel, control, value },
            MidiMessage::ProgramChange { channel, program } => MessageModel::ProgramChange { channel, program },
            MidiMessage::ChannelPressure { channel, pressure } => MessageModel::ChannelPressure { channel, pressure },
            MidiMessage::PitchBend { channel, lsb, msb } => MessageModel::PitchBend { channel, lsb, msb },
            MidiMessage::SysEx(_) => MessageModel::SysEx,
        }
    }
}

/// midi-control's `Channel`: a field-less enum, `Ch1` to `Ch16` and
/// `Invalid`, whose variants Verus reads from the crate.
#[verifier::external_type_specification]
pub struct ExChannel(Channel);

/// midi-control's `KeyEvent`: public fields `key` and `value`, read by Verus.
#[verifier::external_type_specification]
pub struct ExKeyEvent(KeyEvent);

/// midi-control's `ControlEvent`: public fields `control` and `value`, read
/// by Verus.
#[verifier::external_type_specification]
pub struct ExControlEvent(ControlEvent);

/// midi-control's `SysExEvent`, opaque: it is only carried through.
#[verifier::external_type_specification]
#[verifier::external_body]
pub struct ExSysExEvent(SysExEvent);

/// midi-control's `MidiMessage`, whose variants Verus reads from the crate.
#[verifier::external_type_specification]
pub struct ExMidiMessage(WireMessage);

/// The number of a midi-control channel: `Ch1` is `0`.
pub open spec fn channel_index(c: Channel) -> u8 {
    match c {
        Channel::Ch1 => 0,
        Channel::Ch2 => 1,
        Channel::Ch3 => 2,
        Channel::Ch4 => 3,
        Channel::Ch5 => 4,
        Channel::Ch6 => 5,
        Channel::Ch7 => 6,
        Channel::Ch8 => 7,
        Channel::Ch9 => 8,
        Channel::Ch10 => 9,
        Channel::Ch11 => 10,
        Channel::Ch12 => 11,
        Channel::Ch13 => 12,
        Channel::Ch14 => 13,
        Channel::Ch15 => 14,
        Channel::Ch16 => 15,
        Channel::Invalid => 16,
    }
}

/// The model of a message as midi-control represents it.
pub open spec fn model_of(m: WireMessage) -> MessageModel {
    match m {
        WireMessage::Invalid => MessageModel::Invalid,
        WireMessage::NoteOn(c, e) => MessageModel::NoteOn { channel: channel_index(c), key: e.key, velocity: e.value },
        WireMessage::NoteOff(c, e) => MessageModel::NoteOff { channel: channel_index(c), key: e.key, velocity: e.value },
        WireMessage::PolyKeyPressure(c, e) => MessageModel::PolyKeyPressure { channel: channel_index(c), key: e.key, pressure: e.value },
        WireMessage::ControlChange(c, e) => MessageModel::ControlChange { channel: channel_index(c), control: e.control, value: e.value },
        WireMessage::ProgramChange(c, p) => MessageModel::ProgramChange { channel: channel_index(c), program: p },
        WireMessage::ChannelPressure(c, p) => MessageModel::ChannelPressure { channel: channel_index(c), pressure: p },
        WireMessage::PitchBend(c, l, h) => MessageModel::PitchBend { channel: channel_index(c), lsb: l, msb: h },
        WireMessage::SysEx(_) => MessageModel::SysEx,
    }
}

/// Status byte that opens a System Exclusive message.
pub const SYSEX_STATUS: u8 = 0xF0;

/// Second byte of a universal non-real-time System Exclusive message.
pub const SYSEX_NON_REAL_TIME: u8 = 0x7E;

/// Second byte of a universal real-time System Exclusive message.
pub const SYSEX_REAL_TIME: u8 = 0x7F;

/// A System Exclusive message too short for the header its second byte
/// announces. Such bytes decode to `Invalid`.
pub open spec fn sysex_truncated(b: Seq<u8>) -> bool {
    &&& b.len() >= 3
    &&& b[0] == SYSEX_STATUS
    &&& ((b[1] == SYSEX_NON_REAL_TIME || b[1] == SYSEX_REAL_TIME) && b.len() < 5
        || b[1] == 0 && b.len() < 4)
}

/// The message that the raw bytes `b` encode. The high nibble of the status
/// byte selects the kind of a channel message and the low nibble its channel;
/// fewer than three bytes, a data byte in status position, and system
/// messages other than System Exclusive are `Invalid`, and so is a System
/// Exclusive message too short for its header.
pub open spec fn message_of(b: Seq<u8>) -> MessageModel {
    if b.len() < 3 {
        MessageModel::Invalid
    } else {
        let status = b[0];
        let channel = (status % 16) as u8;
        if status < 0x80 {
            MessageModel::Invalid
        } else if status < 0x90 {
            MessageModel::NoteOff { channel, key: b[1], velocity: b[2] }
        } else if status < 0xA0 {
            MessageModel::NoteOn { channel, key: b[1], velocity: b[2] }
        } else if status < 0xB0 {
            MessageModel::PolyKeyPressure { channel, key: b[1], pressure: b[2] }
        } else if status < 0xC0 {
            MessageModel::ControlChange { channel, control: b[1], value: b[2] }
        } else if status < 0xD0 {
            MessageModel::ProgramChange { channel, program: b[1] }
        } else if status < 0xE0 {
            MessageModel::ChannelPressure { channel, pressure: b[1] }
        } else if status < 0xF0 {
            MessageModel::PitchBend { channel, lsb: b[1], msb: b[2] }
        } else if status == SYSEX_STATUS && !sysex_truncated(b) {
            MessageModel::SysEx
        } else {
            MessageModel::Invalid
        }
    }
}

/// Relies on `<midi_control::MidiMessage as From<&[u8]>>::from`: it decodes
/// the bytes as `message_of` states. It panics on a truncated System
/// Exclusive header, which `requires` leaves out.
#[verifier::external_body]
fn decode_with_midi_control(bytes: &[u8]) -> (r: WireMessage)
    requires
        !sysex_truncated(bytes@),
    ensures
        model_of(r) == message_of(bytes@),
{
    WireMessage::from(bytes)
}

/// The channel number of a midi-control channel.
pub fn channel_number(c: Channel) -> (r: u8)
    ensures
        r == channel_index(c),
{
    match c {
        Channel::Ch1 => 0,
        Channel::Ch2 => 1,
        Channel::Ch3 => 2,
        Channel::Ch4 => 3,
        Channel::Ch5 => 4,
        Channel::Ch6 => 5,
        Channel::Ch7 => 6,
        Channel::Ch8 => 7,
        Channel::Ch9 => 8,
        Channel::Ch10 => 9,
        Channel::Ch11 => 10,
        Channel::Ch12 => 11,
        Channel::Ch13 => 12,
        Channel::Ch14 => 13,
        Channel::Ch15 => 14,
        Channel::Ch16 => 15,
        Channel::Invalid => 16,
    }
}

/// Takes a message as midi-control represents it into this library's form.
pub fn from_midi_control(m: WireMessage) -> (r: MidiMessage)
    ensures
        r@ == model_of(m),
{
    match m {
        WireMessage::Invalid => MidiMessage::Invalid,
        WireMessage::NoteOn(c, e) => MidiMessage::NoteOn { channel: channel_number(c), key: e.key, velocity: e.value },
        WireMessage::NoteOff(c, e) => MidiMessage::NoteOff { channel: channel_number(c), key: e.key, velocity: e.value },
        WireMessage::PolyKeyPressure(c, e) => MidiMessage::PolyKeyPressure { channel: channel_number(c), key: e.key, pressure: e.value },
        WireMessage::ControlChange(c, e) => MidiMessage::ControlChange { channel: channel_number(c), control: e.control, value: e.value },
        WireMessage::ProgramChange(c, p) => MidiMessage::ProgramChange { channel: channel_number(c), program: p },
        WireMessage::ChannelPressure(c, p) => MidiMessage::ChannelPressure { channel: channel_number(c), pressure: p },
        WireMessage::PitchBend(c, l, h) => MidiMessage::PitchBend { channel: channel_number(c), lsb: l, msb: h },
        WireMessage::SysEx(e) => MidiMessage::SysEx(e),
    }
}

/// Decodes one raw MIDI byte sequence into exactly one message. Never panics:
/// malformed, truncated or unrecognised input decodes to `Invalid`.
pub fn decode(bytes: &[u8]) -> (r: MidiMessage)
    ensures
        r@ == message_of(bytes@),
{
    let n = bytes.len();
    if n >= 3 && bytes[0] == SYSEX_STATUS {
        let second = bytes[1];
        if (second == SYSEX_NON_REAL_TIME || second == SYSEX_REAL_TIME) && n < 5 {
            return MidiMessage::Invalid;
        }
        if second == 0 && n < 4 {
            return MidiMessage::Invalid;
        }
    }
    from_midi_control(decode_with_midi_control(bytes))
}

/// Decoding is deterministic: byte sequences that are equal decode to the
/// same message, variant and fields alike.
pub proof fn decoding_is_deterministic(a: Seq<u8>, b: Seq<u8>, m1: MidiMessage, m2: MidiMessage)
    requires
        a == b,
        m1@ == message_of(a),
        m2@ == message_of(b),
    ensures
        m1@ == m2@,
{
}

} // verus!
