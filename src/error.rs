use vstd::prelude::*;

verus! {

/// The part of the control logic whose selector was out of its defined range.
#[derive(Clone, Copy, Debug, PartialEq, Eq, Structural)]
pub enum Component {
    /// The B-constant generator.
    BConstant,
    /// The B-source multiplexer.
    BMux,
    /// The D-source multiplexer.
    DMux,
    /// The five-bit branch field as a whole.
    BranchField,
    /// Branch multiplexer bank A (E97).
    BranchBankA,
    /// First branch multiplexer of bank B (E81).
    BranchBankB,
    /// Second branch multiplexer of bank B (E72).
    BranchBankBSecond,
}

/// A machine state that the modelled hardware does not define; each one
/// stops the run.
#[derive(Clone, Copy, Debug, PartialEq, Eq, Structural)]
pub enum MachineError {
    /// The micro-ROM entry at `address` holds no control word.
    UnimplementedMicroaddress { address: u8 },
    /// The selector is defined by the architecture, but its behaviour is not
    /// modelled yet.
    UnspecifiedSelector { component: Component, value: u8 },
    /// The selector is outside the component's range, or is reserved.
    InvalidSelector { component: Component, value: u8 },
    /// The clock-mode field of the current micro-word is not in `1..=6`.
    ImpossibleClockState { value: u8 },
}

} // verus!
