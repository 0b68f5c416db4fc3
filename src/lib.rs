//! Real-time MIDI coordination core of a tablet synthesizer: decoding of raw
//! MIDI bytes, routing of decoded messages to the synthesis engine, filling of
//! audio chunks, and the registry of discovered input devices.

pub mod message;
pub mod routing;
pub mod registry;
pub mod render;
pub mod screen;
