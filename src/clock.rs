use vstd::prelude::*;

use crate::error::MachineError;

verus! {

/// One named timing phase within a machine cycle.
#[derive(Clone, Copy, Debug, PartialEq, Eq, Structural)]
pub enum ClockPulse {
    NONE,
    P1,
    P2,
    P3,
}

/// The clocking mode of a machine cycle.
#[derive(Clone, Copy, Debug, PartialEq, Eq, Structural)]
pub enum ClockMode {
    OFF,
    CL1,
    CL2,
    CL3,
}

/// A clock mode together with the pulses that it produces in one cycle.
///
/// Only the positions below `pulse_count` carry a pulse; the rest are `NONE`.
#[derive(Clone, Copy, Debug, PartialEq, Eq)]
pub struct ClockState {
    pub mode: ClockMode,
    pub pulse_count: u32,
    pub pulses: [ClockPulse; 2],
}

/// The clock state of each mode: CL1 and CL2 pulse once (P1, respectively
/// P2), CL3 twice (P2 then P3); OFF does not pulse.
pub open spec fn spec_clock_state(mode: ClockMode) -> ClockState {
    match mode {
        ClockMode::CL1 => ClockState {
            mode,
            pulse_count: 1,
            pulses: [ClockPulse::P1, ClockPulse::NONE],
        },
        ClockMode::CL2 => ClockState {
            mode,
            pulse_count: 1,
            pulses: [ClockPulse::P2, ClockPulse::NONE],
        },
        ClockMode::CL3 => ClockState {
            mode,
            pulse_count: 2,
            pulses: [ClockPulse::P2, ClockPulse::P3],
        },
        ClockMode::OFF => ClockState {
            mode,
            pulse_count: 0,
            pulses: [ClockPulse::NONE, ClockPulse::NONE],
        },
    }
}

/// A register transfer happens on P1, on P2 unless the mode is CL3, and on P3.
pub open spec fn spec_transfer_due(mode: ClockMode, pulse: ClockPulse) -> bool {
    match pulse {
        ClockPulse::P1 => true,
        ClockPulse::P2 => mode != ClockMode::CL3,
        ClockPulse::P3 => true,
        ClockPulse::NONE => false,
    }
}

/// The clock state that a micro-word's clock-mode field selects for the
/// next cycle.
pub open spec fn spec_next_clock(field: u8) -> Result<ClockState, MachineError> {
    if field == 1 || field == 2 {
        Ok(spec_clock_state(ClockMode::CL1))
    } else if field == 3 || field == 4 {
        Ok(spec_clock_state(ClockMode::CL2))
    } else if field == 5 || field == 6 {
        Ok(spec_clock_state(ClockMode::CL3))
    } else {
        Err(MachineError::ImpossibleClockState { value: field })
    }
}

impl ClockState {
    /// The state is one of the three running modes, with that mode's pulses.
    pub open spec fn wf(&self) -> bool {
        self.mode != ClockMode::OFF && *self == spec_clock_state(self.mode)
    }

    /// Single-pulse mode on P1.
    pub fn cl1() -> (r: ClockState)
        ensures
            r == spec_clock_state(ClockMode::CL1),
    {
        ClockState { mode: ClockMode::CL1, pulse_count: 1, pulses: [ClockPulse::P1, ClockPulse::NONE] }
    }

    /// Single-pulse mode on P2.
    pub fn cl2() -> (r: ClockState)
        ensures
            r == spec_clock_state(ClockMode::CL2),
    {
        ClockState { mode: ClockMode::CL2, pulse_count: 1, pulses: [ClockPulse::P2, ClockPulse::NONE] }
    }

    /// Two-pulse mode, P2 then P3.
    pub fn cl3() -> (r: ClockState)
        ensures
            r == spec_clock_state(ClockMode::CL3),
    {
        ClockState { mode: ClockMode::CL3, pulse_count: 2, pulses: [ClockPulse::P2, ClockPulse::P3] }
    }

    /// The clock state selected by a micro-word's clock-mode field:
    /// 1-2 give CL1, 3-4 CL2, 5-6 CL3; any other value is impossible.
    pub fn from_field(field: u8) -> (r: Result<ClockState, MachineError>)
        ensures
            r == spec_next_clock(field),
    {
        match field {
            1 | 2 => Ok(ClockState::cl1()),
            3 | 4 => Ok(ClockState::cl2()),
            5 | 6 => Ok(ClockState::cl3()),
            _ => Err(MachineError::ImpossibleClockState { value: field }),
        }
    }
}

/// Whether a register transfer happens on `pulse` in clock mode `mode`.
pub fn transfer_due(mode: ClockMode, pulse: ClockPulse) -> (r: bool)
    ensures
        r == spec_transfer_due(mode, pulse),
{
    match pulse {
        ClockPulse::P1 => true,
        ClockPulse::P2 => !matches!(mode, ClockMode::CL3),
        ClockPulse::P3 => true,
        ClockPulse::NONE => false,
    }
}

/// Each running mode pulses once (CL1, CL2) or twice (CL3): exactly the
/// positions below its pulse count hold a pulse, and P2 is a transfer pulse
/// in every mode but CL3.
pub proof fn lemma_clock_modes(c: ClockState)
    requires
        c.wf(),
    ensures
        c.pulse_count == (if c.mode == ClockMode::CL3 { 2int } else { 1int }),
        c.pulses@.len() == 2,
        forall|i: int| 0 <= i < 2 ==> (#[trigger] c.pulses@[i] != ClockPulse::NONE <==> i < c.pulse_count),
        !spec_transfer_due(c.mode, ClockPulse::P2) <==> c.mode == ClockMode::CL3,
{
}

} // verus!
