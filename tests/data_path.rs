use microsequencer::data_path::{evaluate_bmux, evaluate_dmux};
use microsequencer::error::{Component, MachineError};

#[test]
fn dmux_shift_inserts_carry_at_top() {
    assert_eq!(evaluate_dmux(3, 0, 0, 0x0001, 1), Ok(0x8000));
    assert_eq!(evaluate_dmux(3, 0, 0, 0x0001, 0), Ok(0x0000));
    assert_eq!(evaluate_dmux(3, 0, 0, 0xFFFF, 0), Ok(0x7FFF));
    assert_eq!(evaluate_dmux(3, 0, 0, 0x1234, 1), Ok(0x891A));
}

#[test]
fn dmux_selects_its_inputs() {
    assert_eq!(evaluate_dmux(0, 0x1111, 0x2222, 0x3333, 0), Ok(0x1111));
    assert_eq!(evaluate_dmux(1, 0x1111, 0x2222, 0x3333, 0), Ok(0x2222));
    for d in [0u16, 1, 0x3333, 0x8000, 0xFFFF] {
        assert_eq!(evaluate_dmux(2, 0x1111, 0x2222, d, 1), Ok(d));
    }
}

#[test]
fn dmux_rejects_selectors_above_three() {
    for sdm in [4u8, 5, 0o17, 255] {
        assert_eq!(
            evaluate_dmux(sdm, 0, 0, 0, 0),
            Err(MachineError::InvalidSelector { component: Component::DMux, value: sdm })
        );
    }
}

#[test]
fn bmux_all_selectors_against_table() {
    let b = 0x1234u16;
    let k = 0xABCDu16;
    // Low byte by bits 0-1: 0,1 -> 0x34, 2 -> 0x12, 3 -> 0xCD.
    // High byte by bits 2-3: 0 -> 0x12, 1 -> 0x00 (bit 7 of B clear), 2 -> 0x34, 3 -> 0xAB.
    let expected: [u16; 16] = [
        0x1234, 0x1234, 0x1212, 0x12CD, 0x0034, 0x0034, 0x0012, 0x00CD, 0x3434, 0x3434, 0x3412,
        0x34CD, 0xAB34, 0xAB34, 0xAB12, 0xABCD,
    ];
    for sbm in 0u8..16 {
        assert_eq!(evaluate_bmux(sbm, b, k), Ok(expected[sbm as usize]), "selector {}", sbm);
    }
}

#[test]
fn bmux_low_two_high_zero_copies_high_byte_down() {
    assert_eq!(evaluate_bmux(0b0010, 0x1234, 0), Ok(0x1212));
}

#[test]
fn bmux_sign_extends_bit_seven() {
    assert_eq!(evaluate_bmux(0b0100, 0x1280, 0), Ok(0xFF80));
    assert_eq!(evaluate_bmux(0b0100, 0xFF7F, 0), Ok(0x007F));
}

#[test]
fn bmux_swap_twice_restores_b() {
    let once = evaluate_bmux(0b1010, 0x1234, 0x5555).unwrap();
    assert_eq!(once, 0x3412);
    assert_eq!(evaluate_bmux(0b1010, once, 0xAAAA), Ok(0x1234));
}

#[test]
fn bmux_rejects_selectors_above_fifteen() {
    for sbm in [16u8, 0o20, 0o37, 255] {
        assert_eq!(
            evaluate_bmux(sbm, 0x1234, 0),
            Err(MachineError::InvalidSelector { component: Component::BMux, value: sbm })
        );
    }
}
