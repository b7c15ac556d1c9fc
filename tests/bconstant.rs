use microsequencer::bconstant::{evaluate_bconstant, MM_VECTOR, SINCLK_OFF};
use microsequencer::error::{Component, MachineError};
use microsequencer::machinestate::MachineState;

fn state_with_sinclk(sinclk: bool) -> MachineState {
    let mut s = MachineState::new();
    s.sinclk = sinclk;
    s
}

#[test]
fn small_constants_in_either_clock_mode() {
    for sinclk in [true, false] {
        let s = state_with_sinclk(sinclk);
        assert_eq!(evaluate_bconstant(&s, 0), Ok(0));
        assert_eq!(evaluate_bconstant(&s, 1), Ok(1));
        assert_eq!(evaluate_bconstant(&s, 2), Ok(2));
    }
}

#[test]
fn fixed_hardware_constants() {
    let s = MachineState::new();
    assert_eq!(evaluate_bconstant(&s, 0o10), Ok(0xFF78));
    assert_eq!(evaluate_bconstant(&s, 0o12), Ok(0x000F));
    assert_eq!(evaluate_bconstant(&s, 0o13), Ok(0x003F));
    assert_eq!(evaluate_bconstant(&s, 0o15), Ok(0x00A8));
    assert_eq!(evaluate_bconstant(&s, 0o15), Ok(MM_VECTOR));
    assert_eq!(evaluate_bconstant(&s, 0o17), Ok(0x0004));
}

#[test]
fn sinclk_constant_depends_on_single_clock_mode() {
    assert_eq!(evaluate_bconstant(&state_with_sinclk(true), 0o14), Ok(0));
    assert_eq!(evaluate_bconstant(&state_with_sinclk(false), 0o14), Ok(0x0010));
    assert_ne!(SINCLK_OFF, 0);
}

#[test]
fn unspecified_constants_are_reported() {
    let s = MachineState::new();
    for sbc in [0o03u8, 0o07, 0o11, 0o16] {
        assert_eq!(
            evaluate_bconstant(&s, sbc),
            Err(MachineError::UnspecifiedSelector { component: Component::BConstant, value: sbc })
        );
    }
}

#[test]
fn unused_and_out_of_range_constants_are_invalid() {
    for sinclk in [true, false] {
        let s = state_with_sinclk(sinclk);
        for sbc in [0o04u8, 0o05, 0o06, 16, 17, 0o77, 255] {
            assert_eq!(
                evaluate_bconstant(&s, sbc),
                Err(MachineError::InvalidSelector { component: Component::BConstant, value: sbc })
            );
        }
    }
}
