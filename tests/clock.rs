use microsequencer::clock::{transfer_due, ClockMode, ClockPulse, ClockState};
use microsequencer::error::MachineError;

#[test]
fn single_pulse_modes_pulse_once() {
    let c1 = ClockState::cl1();
    assert_eq!(c1.mode, ClockMode::CL1);
    assert_eq!(c1.pulse_count, 1);
    assert_eq!(c1.pulses, [ClockPulse::P1, ClockPulse::NONE]);
    let c2 = ClockState::cl2();
    assert_eq!(c2.mode, ClockMode::CL2);
    assert_eq!(c2.pulse_count, 1);
    assert_eq!(c2.pulses, [ClockPulse::P2, ClockPulse::NONE]);
}

#[test]
fn cl3_pulses_twice() {
    let c3 = ClockState::cl3();
    assert_eq!(c3.mode, ClockMode::CL3);
    assert_eq!(c3.pulse_count, 2);
    assert_eq!(c3.pulses, [ClockPulse::P2, ClockPulse::P3]);
}

#[test]
fn p2_is_due_except_in_cl3() {
    assert!(transfer_due(ClockMode::CL1, ClockPulse::P2));
    assert!(transfer_due(ClockMode::CL2, ClockPulse::P2));
    assert!(!transfer_due(ClockMode::CL3, ClockPulse::P2));
}

#[test]
fn p1_and_p3_are_always_due_and_none_never() {
    for mode in [ClockMode::OFF, ClockMode::CL1, ClockMode::CL2, ClockMode::CL3] {
        assert!(transfer_due(mode, ClockPulse::P1));
        assert!(transfer_due(mode, ClockPulse::P3));
        assert!(!transfer_due(mode, ClockPulse::NONE));
    }
}

#[test]
fn clock_field_selects_next_mode() {
    let expected = [
        (1u8, ClockMode::CL1),
        (2, ClockMode::CL1),
        (3, ClockMode::CL2),
        (4, ClockMode::CL2),
        (5, ClockMode::CL3),
        (6, ClockMode::CL3),
    ];
    for (field, mode) in expected {
        let c = ClockState::from_field(field).unwrap();
        assert_eq!(c.mode, mode);
    }
    assert_eq!(ClockState::from_field(6).unwrap().pulse_count, 2);
}

#[test]
fn impossible_clock_fields_are_rejected() {
    for field in [0u8, 7, 0o10, 255] {
        assert_eq!(
            ClockState::from_field(field).unwrap_err(),
            MachineError::ImpossibleClockState { value: field }
        );
    }
}
