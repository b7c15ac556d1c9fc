use vstd::prelude::*;

use crate::error::{Component, MachineError};
use crate::machinestate::MachineState;

verus! {

// The branch-control value is formed by several multiplexers:
//   bank A: E97, a 16-input multiplexer (branch tests 17:00);
//   bank B: E81, a 16-input multiplexer (branch tests 37:20), together with
//           E72, which supplies a second bit.
// Banks A and B are mutually exclusive, chosen by bit 4 of the branch field.
// Inputs that the architecture defines but this model does not yet cover
// are reported as unspecified, never read as 0.

/// Bank A (E97) at input `index`.
pub open spec fn spec_bank_a(index: u8, switch: bool, d_is_zero: bool) -> Result<u8, MachineError> {
    if index == 0 {
        // no-op
        Ok(0)
    } else if index == 6 {
        Ok(if switch { 1 } else { 0 })
    } else if index == 0o12 {
        Ok(if d_is_zero { 1 } else { 0 })
    } else {
        Err(MachineError::UnspecifiedSelector { component: Component::BranchBankA, value: index })
    }
}

/// First multiplexer of bank B (E81) at input `index`.
pub open spec fn spec_bank_b(index: u8) -> Result<u8, MachineError> {
    if index == 3 {
        Err(MachineError::InvalidSelector { component: Component::BranchBankB, value: index })
    } else if index == 4 {
        Ok(0)
    } else {
        Err(MachineError::UnspecifiedSelector { component: Component::BranchBankB, value: index })
    }
}

/// Second multiplexer of bank B (E72) at input `index`.
pub open spec fn spec_bank_b_second(index: u8) -> Result<u8, MachineError> {
    if index == 3 {
        Err(
            MachineError::InvalidSelector { component: Component::BranchBankBSecond, value: index },
        )
    } else {
        Err(
            MachineError::UnspecifiedSelector {
                component: Component::BranchBankBSecond,
                value: index,
            },
        )
    }
}

/// The branch-control value for branch field `ubf`: bit 4 picks the bank and
/// bits 0-3 the input. Bank A gives bit 0; bank B gives bit 0 from its first
/// multiplexer and bit 1 from its second.
pub open spec fn spec_branch_control(ubf: u8, switch: bool, d_is_zero: bool) -> Result<u8, MachineError> {
    let index = (ubf % 16) as u8;
    if ubf >= 32 {
        Err(MachineError::InvalidSelector { component: Component::BranchField, value: ubf })
    } else if ubf < 16 {
        spec_bank_a(index, switch, d_is_zero)
    } else {
        match spec_bank_b(index) {
            Err(e) => Err(e),
            Ok(first) => match spec_bank_b_second(index) {
                Err(e) => Err(e),
                Ok(second) => Ok((first + 2 * second) as u8),
            },
        }
    }
}

/// Bank A (E97).
fn bank_a(index: u8, switch: bool, d_is_zero: bool) -> (r: Result<u8, MachineError>)
    ensures
        r == spec_bank_a(index, switch, d_is_zero),
{
    let unspecified = MachineError::UnspecifiedSelector {
        component: Component::BranchBankA,
        value: index,
    };
    match index {
        0 => Ok(0),  // no-op
        1 => Err(unspecified),
        2 => Err(unspecified),
        3 => Err(unspecified),
        4 => Err(unspecified),
        5 => Err(unspecified),
        6 => Ok(switch as u8),  // branch on the switch flip-flop
        7 => Err(unspecified),
        8 => Err(unspecified),
        9 => Err(unspecified),
        10 => Ok(d_is_zero as u8),  // branch on D = 0
        11 => Err(unspecified),
        12 => Err(unspecified),
        13 => Err(unspecified),
        14 => Err(unspecified),
        15 => Err(unspecified),  // branch on IR03
        _ => Err(unspecified),
    }
}

/// First multiplexer of bank B (E81).
fn bank_b(index: u8) -> (r: Result<u8, MachineError>)
    ensures
        r == spec_bank_b(index),
{
    let unspecified = MachineError::UnspecifiedSelector {
        component: Component::BranchBankB,
        value: index,
    };
    match index {
        0 => Err(unspecified),  // branch test 20
        1 => Err(unspecified),
        2 => Err(unspecified),
        3 => Err(MachineError::InvalidSelector { component: Component::BranchBankB, value: index }),  // not used
        4 => Ok(0),
        5 => Err(unspecified),
        6 => Err(unspecified),
        7 => Err(unspecified),
        8 => Err(unspecified),
        9 => Err(unspecified),
        10 => Err(unspecified),
        11 => Err(unspecified),
        12 => Err(unspecified),
        13 => Err(unspecified),
        14 => Err(unspecified),
        15 => Err(unspecified),
        _ => Err(unspecified),
    }
}

/// Second multiplexer of bank B (E72).
fn bank_b_second(index: u8) -> (r: Result<u8, MachineError>)
    ensures
        r == spec_bank_b_second(index),
{
    let unspecified = MachineError::UnspecifiedSelector {
        component: Component::BranchBankBSecond,
        value: index,
    };
    match index {
        3 => Err(
            MachineError::InvalidSelector { component: Component::BranchBankBSecond, value: index },
        ),  // not used
        _ => Err(unspecified),
    }
}

/// Evaluates the branch multiplexers for the branch field of the latched
/// micro-word, against the switch flip-flop and the D register.
pub fn evaluate_bubc(state: &MachineState) -> (r: Result<u8, MachineError>)
    ensures
        r == spec_branch_control(state.u_word.ubf, state.switch, state.d == 0),
{
    let ubf: u8 = state.u_word.ubf;
    if ubf >> 5 != 0 {
        assert(ubf >= 32) by (bit_vector)
            requires
                ubf >> 5 != 0,
        ;
        return Err(MachineError::InvalidSelector { component: Component::BranchField, value: ubf });
    }
    let bank: u8 = (ubf >> 4) & 1;
    let index: u8 = ubf & 0b1111;
    assert(index == ubf % 16 && (bank == 0 <==> ubf < 16) && ubf < 32) by (bit_vector)
        requires
            ubf >> 5 == 0,
            bank == (ubf >> 4) & 1,
            index == ubf & 0b1111,
    ;
    if bank == 0 {
        bank_a(index, state.switch, state.d == 0)
    } else {
        // Both multiplexers of bank B see the same input.
        let first: u8 = match bank_b(index) {
            Ok(v) => v,
            Err(e) => return Err(e),
        };
        let second: u8 = match bank_b_second(index) {
            Ok(v) => v,
            Err(e) => return Err(e),
        };
        Ok(first | (second << 1))
    }
}

/// Bank A input 6 reads the switch flip-flop and input `0o12` reads the
/// D-register zero test, exactly; bank B input 3 is always rejected.
pub proof fn lemma_branch_laws(switch: bool, d: u16)
    ensures
        spec_branch_control(0o06, switch, d == 0) == Ok::<u8, MachineError>(
            if switch { 1 } else { 0 },
        ),
        spec_branch_control(0o12, switch, d == 0) == Ok::<u8, MachineError>(
            if d == 0 { 1 } else { 0 },
        ),
        spec_branch_control(0o23, switch, d == 0) == Err::<u8, MachineError>(
            MachineError::InvalidSelector { component: Component::BranchBankB, value: 3 },
        ),
{
}

} // verus!
