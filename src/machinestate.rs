use vstd::prelude::*;

use crate::clock::{spec_clock_state, ClockMode, ClockState};
use crate::microrom::{rom_word, MicroWord};

verus! {

/// Whether the machine starts in single-clock mode (stepped from the panel,
/// which skips the switch debounce).
pub const SINGLE_CLOCK_MODE: bool = true;

/// Micro-address at which the machine starts.
pub const STARTING_UPP: u8 = 0;

/// The registers and latches of the control unit.
#[derive(Clone, Copy, Debug, PartialEq, Eq)]
pub struct MachineState {
    /// Data display latch, driven from the data path.
    pub data_display: u16,
    /// Clocking mode of the next machine cycle.
    pub clk_mode: ClockState,
    /// Single-clock mode flag.
    pub sinclk: bool,
    /// The micro-word latched from the ROM for the current micro-address.
    pub u_word: MicroWord,
    /// Microprogram pointer: the current micro-address.
    pub upp: u8,
    /// Buffered microprogram pointer, a snapshot for the diagnostic panel.
    pub bupp: u8,
    /// Past microprogram pointer, latched on each register transfer.
    pub pupp: u8,
    /// Branch-control latch, OR-ed into the next micro-address.
    pub bubc: u8,
    /// Branch-control value still settling; it becomes `bubc` on the next
    /// register transfer.
    pub bubc_flux: u8,
    /// Switch flip-flop, set from the operator panel.
    pub switch: bool,
    /// B register.
    pub b: u16,
    /// D register.
    pub d: u16,
}

impl MachineState {
    /// The clock state is one of the three running modes.
    pub open spec fn wf(&self) -> bool {
        self.clk_mode.wf()
    }

    /// The state after reset: pointer at the starting micro-address with its
    /// word latched, mode CL1, all latches and registers clear.
    pub fn new() -> (r: MachineState)
        ensures
            r.wf(),
            r.clk_mode == spec_clock_state(ClockMode::CL1),
            r.data_display == 0,
            r.sinclk == SINGLE_CLOCK_MODE,
            r.u_word == rom_word(STARTING_UPP as int),
            r.upp == STARTING_UPP,
            r.bupp == 0,
            r.pupp == 0,
            r.bubc == 0,
            r.bubc_flux == 0,
            !r.switch,
            r.b == 0,
            r.d == 0,
    {
        MachineState {
            data_display: 0,
            clk_mode: ClockState::cl1(),
            sinclk: SINGLE_CLOCK_MODE,
            u_word: MicroWord::at_address(STARTING_UPP),
            upp: STARTING_UPP,
            bupp: 0,
            pupp: 0,
            bubc: 0,
            bubc_flux: 0,
            switch: false,
            b: 0,
            d: 0,
        }
    }
}

} // verus!
