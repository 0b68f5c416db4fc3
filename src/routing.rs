//! The dispatcher's routing policy: which engine call a decoded message
//! becomes. Engine parameters that the engine takes as fractions are carried
//! here as exact integers; the fraction each one stands for is documented on
//! its field.

use crate::message::{MessageModel, MidiMessage};
use vstd::prelude::*;

verus! {

/// The engine variant, as far as routing depends on it.
#[derive(Clone, Copy, Debug, PartialEq, Eq, Structural)]
pub enum EngineVariant {
    /// The wave-table engine, which maps controllers by itself.
    WaveTable,
    /// Any other engine; controllers go through the fixed knob table.
    Other,
}

/// An engine parameter that a control change can set.
#[derive(Clone, Copy, Debug, PartialEq, Eq, Structural)]
pub enum ControlTarget {
    Knob1,
    Knob2,
    Knob3,
    Knob4,
    Knob5,
    Knob6,
    Knob7,
    Knob8,
    VolumeSwell,
}

/// A call on the engine's capability surface.
#[derive(Clone, Copy, Debug, PartialEq, Eq, Structural)]
pub enum EngineCall {
    /// `play(note, velocity)`.
    Play { note: u8, velocity: u8 },
    /// `stop(note)`.
    Stop { note: u8 },
    /// `bend(raw / 16000 - 1)`.
    Bend { raw: i16 },
    /// `unbend()`.
    Unbend,
    /// The knob or volume call of `target`, with `value / 127`.
    SetControl { target: ControlTarget, value: u8 },
    /// The wave-table engine's own MIDI input, handed the routed message
    /// itself, unmodified.
    ForwardMessage,
}

/// What the dispatcher does with one message.
#[derive(Clone, Copy, Debug, PartialEq, Eq, Structural)]
pub enum Route {
    /// The message was invalid: it is reported and dropped.
    ReportInvalid,
    /// The message becomes this engine call.
    Call(EngineCall),
    /// The message changes nothing.
    Ignore,
}

/// The signed 16-bit little-endian integer with bytes `lsb`, `msb`.
pub open spec fn int16_le(lsb: u8, msb: u8) -> int {
    let u = lsb + 256 * msb;
    if u >= 0x8000 { u - 0x10000 } else { u }
}

/// Whether the bend amount `raw / 16000 - 1` lies outside the dead zone
/// `[-0.02, 0.02]`, that is `amount > 1/50 || amount < -1/50`, multiplied out.
pub open spec fn outside_dead_zone(raw: int) -> bool {
    50 * (raw - 16000) > 16000 || 50 * (raw - 16000) < -16000
}

/// The fixed table from control number to engine parameter, used by every
/// engine variant but the wave-table one.
pub open spec fn control_target(control: u8) -> Option<ControlTarget> {
    if control == 70 {
        Some(ControlTarget::Knob1)
    } else if control == 71 {
        Some(ControlTarget::Knob2)
    } else if control == 72 {
        Some(ControlTarget::Knob3)
    } else if control == 73 {
        Some(ControlTarget::Knob4)
    } else if control == 74 {
        Some(ControlTarget::Knob5)
    } else if control == 75 {
        Some(ControlTarget::Knob6)
    } else if control == 76 {
        Some(ControlTarget::Knob7)
    } else if control == 77 {
        Some(ControlTarget::Knob8)
    } else if control == 1 {
        Some(ControlTarget::VolumeSwell)
    } else {
        None
    }
}

/// The route of message `m` on an engine of variant `v`.
pub open spec fn route_of(m: MessageModel, v: EngineVariant) -> Route {
    match m {
        MessageModel::Invalid => Route::ReportInvalid,
        MessageModel::NoteOn { key, velocity, .. } => Route::Call(EngineCall::Play { note: key, velocity }),
        MessageModel::NoteOff { key, .. } => Route::Call(EngineCall::Stop { note: key }),
        MessageModel::PitchBend { lsb, msb, .. } => if outside_dead_zone(int16_le(lsb, msb)) {
            Route::Call(EngineCall::Bend { raw: int16_le(lsb, msb) as i16 })
        } else {
            Route::Call(EngineCall::Unbend)
        },
        MessageModel::ControlChange { control, value, .. } => match v {
            EngineVariant::WaveTable => Route::Call(EngineCall::ForwardMessage),
            EngineVariant::Other => match control_target(control) {
                Some(target) => Route::Call(EngineCall::SetControl { target, value }),
                None => Route::Ignore,
            },
        },
        _ => Route::Ignore,
    }
}

/// Reads the signed 16-bit little-endian integer with bytes `lsb`, `msb`.
pub fn int16_from_le(lsb: u8, msb: u8) -> (r: i16)
    ensures
        r as int == int16_le(lsb, msb),
{
    let u: i32 = lsb as i32 + 256 * msb as i32;
    if u >= 0x8000 {
        (u - 0x10000) as i16
    } else {
        u as i16
    }
}

/// Whether a bend of `raw / 16000 - 1` is large enough to apply; within the
/// dead zone the pitch is reset instead.
pub fn is_outside_dead_zone(raw: i16) -> (r: bool)
    ensures
        r == outside_dead_zone(raw as int),
{
    let offset: i32 = raw as i32 - 16000;
    50 * offset > 16000 || 50 * offset < -16000
}

/// Looks up the engine parameter that control number `control` sets on an
/// engine that is not the wave-table one.
pub fn control_target_of(control: u8) -> (r: Option<ControlTarget>)
    ensures
        r == control_target(control),
{
    match control {
        70 => Some(ControlTarget::Knob1),
        71 => Some(ControlTarget::Knob2),
        72 => Some(ControlTarget::Knob3),
        73 => Some(ControlTarget::Knob4),
        74 => Some(ControlTarget::Knob5),
        75 => Some(ControlTarget::Knob6),
        76 => Some(ControlTarget::Knob7),
        77 => Some(ControlTarget::Knob8),
        1 => Some(ControlTarget::VolumeSwell),
        _ => None,
    }
}

/// Decides what the dispatcher does with `msg` on an engine of variant
/// `variant`.
pub fn route(msg: &MidiMessage, variant: EngineVariant) -> (r: Route)
    ensures
        r == route_of(msg@, variant),
{
    match msg {
        MidiMessage::Invalid => Route::ReportInvalid,
        MidiMessage::NoteOn { key, velocity, .. } => Route::Call(EngineCall::Play { note: *key, velocity: *velocity }),
        MidiMessage::NoteOff { key, .. } => Route::Call(EngineCall::Stop { note: *key }),
        MidiMessage::PitchBend { lsb, msb, .. } => {
            let raw = int16_from_le(*lsb, *msb);
            if is_outside_dead_zone(raw) {
                Route::Call(EngineCall::Bend { raw })
            } else {
                Route::Call(EngineCall::Unbend)
            }
        },
        MidiMessage::ControlChange { control, value, .. } => match variant {
            EngineVariant::WaveTable => Route::Call(EngineCall::ForwardMessage),
            EngineVariant::Other => match control_target_of(*control) {
                Some(target) => Route::Call(EngineCall::SetControl { target, value: *value }),
                None => Route::Ignore,
            },
        },
        _ => Route::Ignore,
    }
}

/// A pitch bend routes to `bend` with the raw value its two bytes encode as a
/// signed 16-bit little-endian integer, unclamped (the amount is
/// `raw / 16000 - 1`), when that amount lies outside the dead zone, and to
/// `unbend` otherwise.
pub proof fn pitch_bend_routing(channel: u8, lsb: u8, msb: u8, v: EngineVariant)
    ensures
        (int16_le(lsb, msb) as i16) as int == int16_le(lsb, msb),
        outside_dead_zone(int16_le(lsb, msb)) ==> route_of(MessageModel::PitchBend { channel, lsb, msb }, v)
            == Route::Call(EngineCall::Bend { raw: int16_le(lsb, msb) as i16 }),
        !outside_dead_zone(int16_le(lsb, msb)) ==> route_of(MessageModel::PitchBend { channel, lsb, msb }, v)
            == Route::Call(EngineCall::Unbend),
{
}

/// The dead zone is closed: a bend amount of exactly `0.02` or `-0.02`
/// (raw `16320` or `15680`) is inside it, and any raw value beyond those
/// bounds is outside.
pub proof fn dead_zone_bounds(raw: int)
    ensures
        outside_dead_zone(raw) <==> (raw > 16320 || raw < 15680),
        !outside_dead_zone(16320),
        !outside_dead_zone(15680),
{
}

/// On an engine other than the wave-table one, the controls `70..=77` and
/// `1` each set exactly one parameter, each a different one, with the
/// message's value; every other control number changes nothing.
pub proof fn control_table_is_total_and_stable(channel: u8, control: u8, value: u8)
    ensures
        control_target(control) is Some <==> (70 <= control <= 77 || control == 1),
        control_target(control) matches Some(target) ==> route_of(
            MessageModel::ControlChange { channel, control, value },
            EngineVariant::Other,
        ) == Route::Call(EngineCall::SetControl { target, value }),
        control_target(control) is None ==> route_of(
            MessageModel::ControlChange { channel, control, value },
            EngineVariant::Other,
        ) == Route::Ignore,
        forall|other: u8|
            other != control && control_target(control) is Some ==> #[trigger] control_target(other)
                != control_target(control),
{
}

/// On the wave-table engine every control change, whatever its control
/// number, is handed on unmodified to the engine's own MIDI input.
pub proof fn wave_table_receives_control_changes(channel: u8, control: u8, value: u8)
    ensures
        route_of(MessageModel::ControlChange { channel, control, value }, EngineVariant::WaveTable)
            == Route::Call(EngineCall::ForwardMessage),
{
}

} // verus!
