use microsequencer::error::{Component, MachineError};
use microsequencer::machinestate::MachineState;
use microsequencer::microbranch_control::evaluate_bubc;

fn state(ubf: u8, switch: bool, d: u16) -> MachineState {
    let mut s = MachineState::new();
    s.u_word.ubf = ubf;
    s.switch = switch;
    s.d = d;
    s
}

#[test]
fn bank_a_noop_is_zero() {
    assert_eq!(evaluate_bubc(&state(0, true, 0)), Ok(0));
    assert_eq!(evaluate_bubc(&state(0, false, 5)), Ok(0));
}

#[test]
fn bank_a_switch_test_follows_switch() {
    assert_eq!(evaluate_bubc(&state(0o06, true, 7)), Ok(1));
    assert_eq!(evaluate_bubc(&state(0o06, false, 7)), Ok(0));
}

#[test]
fn bank_a_zero_test_follows_d() {
    assert_eq!(evaluate_bubc(&state(0o12, false, 0)), Ok(1));
    assert_eq!(evaluate_bubc(&state(0o12, true, 1)), Ok(0));
    assert_eq!(evaluate_bubc(&state(0o12, true, 0x8000)), Ok(0));
}

#[test]
fn bank_a_other_inputs_are_unspecified() {
    for index in [1u8, 2, 3, 4, 5, 7, 8, 9, 11, 12, 13, 14, 15] {
        assert_eq!(
            evaluate_bubc(&state(index, false, 0)),
            Err(MachineError::UnspecifiedSelector { component: Component::BranchBankA, value: index })
        );
    }
}

#[test]
fn bank_b_input_three_is_invalid() {
    for (switch, d) in [(false, 0u16), (true, 0), (true, 9)] {
        assert_eq!(
            evaluate_bubc(&state(0o23, switch, d)),
            Err(MachineError::InvalidSelector { component: Component::BranchBankB, value: 3 })
        );
    }
}

#[test]
fn bank_b_input_four_waits_on_second_multiplexer() {
    assert_eq!(
        evaluate_bubc(&state(0o24, false, 0)),
        Err(MachineError::UnspecifiedSelector {
            component: Component::BranchBankBSecond,
            value: 4
        })
    );
}

#[test]
fn bank_b_other_inputs_are_unspecified() {
    for index in [0u8, 1, 2, 5, 6, 10, 15] {
        assert_eq!(
            evaluate_bubc(&state(0o20 + index, false, 0)),
            Err(MachineError::UnspecifiedSelector { component: Component::BranchBankB, value: index })
        );
    }
}

#[test]
fn branch_field_above_five_bits_is_invalid() {
    for ubf in [0o40u8, 0o46, 255] {
        assert_eq!(
            evaluate_bubc(&state(ubf, false, 0)),
            Err(MachineError::InvalidSelector { component: Component::BranchField, value: ubf })
        );
    }
}
