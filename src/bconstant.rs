use vstd::prelude::*;

use crate::error::{Component, MachineError};
use crate::machinestate::MachineState;

verus! {

// In the hardware some B-constant data lines do double duty (BC(11:08) and
// BC(15:12, 10:09) are shared); here all sixteen bits are generated
// individually, with the same resulting constants.

/// Status register address.
pub const SR_ADDRESS: u16 = 0b1111111101111000;

/// Condition-code mask.
pub const CC_MASK: u16 = 0b0000000000001111;

/// Mask of the count field of a subtract-one-and-branch instruction.
pub const SOB_MASK: u16 = 0b0000000000111111;

/// Constant selected by `0o14` when the machine is not in single-clock mode.
pub const SINCLK_OFF: u16 = 0b0000000000010000;

/// Memory-management trap vector.
pub const MM_VECTOR: u16 = 0b0000000010101000;

/// Stack adjustment by four.
pub const STACK04: u16 = 0b0000000000000100;

/// The constant generated for selector `sbc` in the given clock condition.
pub open spec fn spec_bconstant(sbc: u8, single_clock: bool) -> Result<u16, MachineError> {
    if sbc == 0o00 {
        Ok(0)
    } else if sbc == 0o01 {
        Ok(1)
    } else if sbc == 0o02 {
        Ok(2)
    } else if sbc == 0o10 {
        Ok(SR_ADDRESS)
    } else if sbc == 0o12 {
        Ok(CC_MASK)
    } else if sbc == 0o13 {
        Ok(SOB_MASK)
    } else if sbc == 0o14 {
        Ok(if single_clock { 0 } else { SINCLK_OFF })
    } else if sbc == 0o15 {
        Ok(MM_VECTOR)
    } else if sbc == 0o17 {
        Ok(STACK04)
    } else if sbc == 0o03 || sbc == 0o07 || sbc == 0o11 || sbc == 0o16 {
        Err(MachineError::UnspecifiedSelector { component: Component::BConstant, value: sbc })
    } else {
        // 0o04 to 0o06 are not used by the hardware; 0o20 and above do not exist.
        Err(MachineError::InvalidSelector { component: Component::BConstant, value: sbc })
    }
}

/// The B constant for selector `sbc`; only selector `0o14` depends on the
/// machine state (its single-clock flag).
pub fn evaluate_bconstant(state: &MachineState, sbc: u8) -> (r: Result<u16, MachineError>)
    ensures
        r == spec_bconstant(sbc, state.sinclk),
{
    let unspecified = MachineError::UnspecifiedSelector { component: Component::BConstant, value: sbc };
    let invalid = MachineError::InvalidSelector { component: Component::BConstant, value: sbc };
    match sbc {
        0o00 => Ok(0),
        0o01 => Ok(1),  // CONST1
        0o02 => Ok(2),  // CONST2
        0o03 => Err(unspecified),
        0o04 => Err(invalid),  // not used
        0o05 => Err(invalid),  // not used
        0o06 => Err(invalid),  // not used
        0o07 => Err(unspecified),
        0o10 => Ok(SR_ADDRESS),
        0o11 => Err(unspecified),
        0o12 => Ok(CC_MASK),
        0o13 => Ok(SOB_MASK),
        0o14 => {
            // SINCLK
            if state.sinclk {
                Ok(0)
            } else {
                Ok(SINCLK_OFF)
            }
        },
        0o15 => Ok(MM_VECTOR),
        0o16 => Err(unspecified),
        0o17 => Ok(STACK04),
        _ => Err(invalid),
    }
}

/// Selectors 0, 1 and 2 generate their own value in either clock condition;
/// selector `0o14` generates 0 in single-clock mode and a fixed nonzero
/// pattern otherwise; selectors 4, 5, 6 and every selector from 16 up are
/// always rejected as invalid.
pub proof fn lemma_bconstant_laws(sbc: u8, single_clock: bool)
    ensures
        sbc <= 2 ==> spec_bconstant(sbc, single_clock) == Ok::<u16, MachineError>(sbc as u16),
        spec_bconstant(0o14, true) == Ok::<u16, MachineError>(0),
        spec_bconstant(0o14, false) == Ok::<u16, MachineError>(SINCLK_OFF),
        SINCLK_OFF != 0,
        (4 <= sbc <= 6 || sbc >= 16) ==> spec_bconstant(sbc, single_clock) == Err::<
            u16,
            MachineError,
        >(MachineError::InvalidSelector { component: Component::BConstant, value: sbc }),
{
}

} // verus!
