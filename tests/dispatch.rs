use tab_synth::message::{decode, MidiMessage};
use tab_synth::routing::{
    control_target_of, int16_from_le, is_outside_dead_zone, route, ControlTarget, EngineCall,
    EngineVariant, Route,
};

fn bend_amount(raw: i16) -> f32 {
    raw as f32 / 16000.0 - 1.0
}

fn pitch_bend(lsb: u8, msb: u8) -> MidiMessage {
    MidiMessage::PitchBend { channel: 0, lsb, msb }
}

#[test]
fn reads_int16_little_endian() {
    assert_eq!(int16_from_le(0x00, 0x40), 16384);
    assert_eq!(int16_from_le(0x34, 0x12), 0x1234);
    assert_eq!(int16_from_le(0xFF, 0xFF), -1);
    assert_eq!(int16_from_le(0x00, 0x80), i16::MIN);
    assert_eq!(int16_from_le(0x7F, 0x7F), 32639);
}

#[test]
fn pitch_bend_follows_formula_without_clamping() {
    assert_eq!(route(&pitch_bend(0x00, 0x40), EngineVariant::Other), Route::Call(EngineCall::Bend { raw: 16384 }));
    assert!((bend_amount(16384) - 0.024).abs() < 1e-6);
    assert_eq!(route(&pitch_bend(0x7F, 0x7F), EngineVariant::Other), Route::Call(EngineCall::Bend { raw: 32639 }));
    assert!((bend_amount(32639) - 1.0399375).abs() < 1e-5);
    assert_eq!(route(&pitch_bend(0x00, 0x00), EngineVariant::Other), Route::Call(EngineCall::Bend { raw: 0 }));
    assert_eq!(bend_amount(0), -1.0);
    assert_eq!(route(&pitch_bend(0x00, 0x80), EngineVariant::Other), Route::Call(EngineCall::Bend { raw: i16::MIN }));
    assert!(bend_amount(i16::MIN) < -3.0);
}

#[test]
fn dead_zone_boundaries() {
    // 16320 / 16000 - 1 == 0.02 and 15680 / 16000 - 1 == -0.02: both unbend.
    assert_eq!(int16_from_le(0xC0, 0x3F), 16320);
    assert_eq!(int16_from_le(0x40, 0x3D), 15680);
    assert_eq!(route(&pitch_bend(0xC0, 0x3F), EngineVariant::Other), Route::Call(EngineCall::Unbend));
    assert_eq!(route(&pitch_bend(0x40, 0x3D), EngineVariant::Other), Route::Call(EngineCall::Unbend));
    assert_eq!(route(&pitch_bend(0x80, 0x3E), EngineVariant::Other), Route::Call(EngineCall::Unbend));
    // 16322 is a bend of 0.020125 and 15678 one of -0.020125: both bend.
    assert!(bend_amount(16322) > 0.0201);
    assert!(bend_amount(15678) < -0.0201);
    assert_eq!(route(&pitch_bend(0xC2, 0x3F), EngineVariant::Other), Route::Call(EngineCall::Bend { raw: 16322 }));
    assert_eq!(route(&pitch_bend(0x3E, 0x3D), EngineVariant::Other), Route::Call(EngineCall::Bend { raw: 15678 }));
    assert!(!is_outside_dead_zone(16320));
    assert!(!is_outside_dead_zone(15680));
    assert!(is_outside_dead_zone(16321));
    assert!(is_outside_dead_zone(15679));
}

#[test]
fn control_table_is_total_and_stable() {
    let expected = [
        (70u8, ControlTarget::Knob1),
        (71, ControlTarget::Knob2),
        (72, ControlTarget::Knob3),
        (73, ControlTarget::Knob4),
        (74, ControlTarget::Knob5),
        (75, ControlTarget::Knob6),
        (76, ControlTarget::Knob7),
        (77, ControlTarget::Knob8),
        (1, ControlTarget::VolumeSwell),
    ];
    for control in 0..=255u8 {
        let msg = MidiMessage::ControlChange { channel: 2, control, value: 90 };
        let found = expected.iter().find(|(c, _)| *c == control);
        match found {
            Some((_, target)) => {
                assert_eq!(control_target_of(control), Some(*target));
                assert_eq!(
                    route(&msg, EngineVariant::Other),
                    Route::Call(EngineCall::SetControl { target: *target, value: 90 })
                );
            }
            None => {
                assert_eq!(control_target_of(control), None);
                assert_eq!(route(&msg, EngineVariant::Other), Route::Ignore);
            }
        }
    }
    assert!((90.0f32 / 127.0 - 0.708_661_4).abs() < 1e-6);
}

#[test]
fn wave_table_receives_every_control_change() {
    for control in 0..=255u8 {
        let msg = MidiMessage::ControlChange { channel: 0, control, value: 3 };
        assert_eq!(route(&msg, EngineVariant::WaveTable), Route::Call(EngineCall::ForwardMessage));
    }
}

#[test]
fn invalid_is_reported_and_other_kinds_ignored() {
    assert_eq!(route(&MidiMessage::Invalid, EngineVariant::Other), Route::ReportInvalid);
    assert_eq!(route(&MidiMessage::Invalid, EngineVariant::WaveTable), Route::ReportInvalid);
    assert_eq!(route(&MidiMessage::ProgramChange { channel: 0, program: 4 }, EngineVariant::Other), Route::Ignore);
    assert_eq!(
        route(&MidiMessage::PolyKeyPressure { channel: 0, key: 4, pressure: 9 }, EngineVariant::WaveTable),
        Route::Ignore
    );
    assert_eq!(route(&MidiMessage::ChannelPressure { channel: 0, pressure: 9 }, EngineVariant::Other), Route::Ignore);
}

#[test]
fn note_on_then_note_off_plays_then_stops() {
    let calls: Vec<Route> = [vec![0x90u8, 60, 100], vec![0x80u8, 60, 0]]
        .iter()
        .map(|bytes| route(&decode(bytes), EngineVariant::Other))
        .collect();
    assert_eq!(
        calls,
        vec![
            Route::Call(EngineCall::Play { note: 60, velocity: 100 }),
            Route::Call(EngineCall::Stop { note: 60 }),
        ]
    );
}
