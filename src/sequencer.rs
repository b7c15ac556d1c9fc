use vstd::prelude::*;

use crate::clock::{spec_next_clock, spec_transfer_due, transfer_due, ClockPulse, ClockState};
use crate::error::MachineError;
use crate::machinestate::MachineState;
use crate::microbranch_control::{evaluate_bubc, spec_branch_control};
use crate::microrom::{spec_fetch, MicroRom, MicroWord};

verus! {

/// The micro-address formed at a register transfer: the latched word's
/// program field OR the branch-control latch of the previous cycle.
pub open spec fn spec_next_upp(s: MachineState) -> u8 {
    s.u_word.upf | s.bubc
}

/// The registers once the pointers are updated, `w` is latched as the current
/// micro-word and the settled branch value moves into the branch latch.
pub open spec fn spec_latched(s: MachineState, w: MicroWord) -> MachineState {
    MachineState {
        pupp: s.upp,
        upp: spec_next_upp(s),
        bupp: spec_next_upp(s),
        u_word: w,
        bubc: s.bubc_flux,
        ..s
    }
}

/// One register transfer from state `s`, as the new state and the outcome.
///
/// A fetch of an address without a control word leaves the state as it was.
/// Otherwise the word is latched, and the branch multiplexers are evaluated
/// on it; their value becomes the settling branch value.
pub open spec fn spec_transfer(s: MachineState, rom: Seq<MicroWord>) -> (MachineState, Result<
    (),
    MachineError,
>) {
    match spec_fetch(rom, spec_next_upp(s)) {
        Err(e) => (s, Err(e)),
        Ok(w) => {
            let l = spec_latched(s, w);
            match spec_branch_control(w.ubf, l.switch, l.d == 0) {
                Ok(v) => (MachineState { bubc_flux: v, ..l }, Ok(())),
                Err(e) => (l, Err(e)),
            }
        },
    }
}

/// One clock pulse: a register transfer where one is due, else nothing.
pub open spec fn spec_pulse(s: MachineState, rom: Seq<MicroWord>, pulse: ClockPulse) -> (
    MachineState,
    Result<(), MachineError>,
) {
    if spec_transfer_due(s.clk_mode.mode, pulse) {
        spec_transfer(s, rom)
    } else {
        (s, Ok(()))
    }
}

/// The pulses `ps` in order, stopping at the first error.
pub open spec fn spec_pulses(s: MachineState, rom: Seq<MicroWord>, ps: Seq<ClockPulse>) -> (
    MachineState,
    Result<(), MachineError>,
)
    decreases ps.len(),
{
    if ps.len() == 0 {
        (s, Ok(()))
    } else {
        let (t, r) = spec_pulses(s, rom, ps.drop_last());
        if r is Err {
            (t, r)
        } else {
            spec_pulse(t, rom, ps.last())
        }
    }
}

/// The pulses of the current clock mode in one machine cycle.
pub open spec fn cycle_pulses(s: MachineState) -> Seq<ClockPulse> {
    s.clk_mode.pulses@.take(s.clk_mode.pulse_count as int)
}

/// One machine cycle: the mode's pulses, then the clock mode of the next
/// cycle, selected by the clock-mode field of the latched word.
pub open spec fn spec_cycle(s: MachineState, rom: Seq<MicroWord>) -> (MachineState, Result<
    (),
    MachineError,
>) {
    let (t, r) = spec_pulses(s, rom, cycle_pulses(s));
    if r is Err {
        (t, r)
    } else {
        match spec_next_clock(t.u_word.clk) {
            Ok(c) => (MachineState { clk_mode: c, ..t }, Ok(())),
            Err(e) => (t, Err(e)),
        }
    }
}

/// Latches the next micro-address and micro-word and advances the branch
/// pipeline by one stage.
pub fn register_transfer(state: &mut MachineState, rom: &MicroRom) -> (r: Result<(), MachineError>)
    ensures
        (*final(state), r) == spec_transfer(*old(state), rom@),
{
    let a: u8 = state.u_word.upf | state.bubc;
    let w = match rom.fetch(a) {
        Ok(w) => w,
        Err(e) => return Err(e),
    };
    state.pupp = state.upp;
    state.upp = a;
    // At the start of the next cycle both pointers name the current word.
    state.bupp = a;
    state.u_word = w;
    // The branch lines settle for one machine cycle before they are used.
    state.bubc = state.bubc_flux;
    match evaluate_bubc(state) {
        Ok(v) => {
            state.bubc_flux = v;
            Ok(())
        },
        Err(e) => Err(e),
    }
}

/// Applies one clock pulse of the current mode.
pub fn clock_pulse(state: &mut MachineState, rom: &MicroRom, pulse: ClockPulse) -> (r: Result<
    (),
    MachineError,
>)
    ensures
        (*final(state), r) == spec_pulse(*old(state), rom@, pulse),
{
    if transfer_due(state.clk_mode.mode, pulse) {
        register_transfer(state, rom)
    } else {
        Ok(())
    }
}

/// Once the pulses up to `i` have failed, the later ones change nothing.
proof fn lemma_pulses_stop(s: MachineState, rom: Seq<MicroWord>, ps: Seq<ClockPulse>, i: int)
    requires
        0 <= i <= ps.len(),
        spec_pulses(s, rom, ps.take(i)).1 is Err,
    ensures
        spec_pulses(s, rom, ps) == spec_pulses(s, rom, ps.take(i)),
    decreases ps.len(),
{
    if i == ps.len() {
        assert(ps.take(i) =~= ps);
    } else {
        assert(ps.drop_last().take(i) =~= ps.take(i));
        lemma_pulses_stop(s, rom, ps.drop_last(), i);
    }
}

/// Runs one machine cycle: every pulse of the current clock mode in order,
/// then the selection of the next clock mode.
pub fn machine_cycle(state: &mut MachineState, rom: &MicroRom) -> (r: Result<(), MachineError>)
    requires
        old(state).wf(),
    ensures
        final(state).wf(),
        (*final(state), r) == spec_cycle(*old(state), rom@),
{
    let ghost s0 = *state;
    let count: u32 = state.clk_mode.pulse_count;
    let pulses = state.clk_mode.pulses;
    let mut i: u32 = 0;
    while i < count
        invariant
            s0 == *old(state),
            s0.wf(),
            count == s0.clk_mode.pulse_count,
            pulses == s0.clk_mode.pulses,
            count <= 2,
            i <= count,
            (*state, Ok::<(), MachineError>(())) == spec_pulses(s0, rom@, pulses@.take(i as int)),
            state.clk_mode == s0.clk_mode,
        decreases count - i,
    {
        let ghost before = *state;
        let r = clock_pulse(state, rom, pulses[i as usize]);
        proof {
            let ps = pulses@.take(i + 1);
            assert(ps.drop_last() =~= pulses@.take(i as int));
            assert(ps.last() == pulses@[i as int]);
            assert(spec_pulses(s0, rom@, ps) == spec_pulse(before, rom@, pulses@[i as int]));
        }
        if let Err(e) = r {
            proof {
                assert(cycle_pulses(s0).take(i + 1) =~= pulses@.take(i + 1));
                lemma_pulses_stop(s0, rom@, cycle_pulses(s0), i + 1);
            }
            return Err(e);
        }
        i = i + 1;
    }
    proof {
        assert(pulses@.take(count as int) =~= cycle_pulses(s0));
    }
    // The next clock mode must be known before the next cycle begins.
    match ClockState::from_field(state.u_word.clk) {
        Ok(c) => {
            state.clk_mode = c;
            Ok(())
        },
        Err(e) => Err(e),
    }
}

} // verus!

verus! {

/// A pulse on which no register transfer is due leaves every register,
/// pointer, latch and the latched micro-word unchanged.
pub proof fn lemma_idle_pulse(s: MachineState, rom: Seq<MicroWord>, pulse: ClockPulse)
    requires
        !spec_transfer_due(s.clk_mode.mode, pulse),
    ensures
        spec_pulse(s, rom, pulse) == (s, Ok::<(), MachineError>(())),
{
}

/// A machine cycle that succeeds makes exactly one register transfer: the
/// old pointer moves to the past pointer, the new pointer is the program
/// field OR the branch value settled in the previous cycle, the latched word
/// is the ROM entry at the new pointer, and the next clock mode is the one
/// that word selects. The panel switch and the data registers are untouched.
pub proof fn lemma_cycle_single_transfer(s: MachineState, rom: Seq<MicroWord>)
    requires
        s.wf(),
        spec_cycle(s, rom).1 is Ok,
    ensures
        ({
            let t = spec_cycle(s, rom).0;
            &&& t.pupp == s.upp
            &&& t.upp == s.u_word.upf | s.bubc
            &&& t.bupp == t.upp
            &&& t.u_word == rom[t.upp as int]
            &&& t.u_word.implemented
            &&& t.bubc == s.bubc_flux
            &&& spec_branch_control(t.u_word.ubf, s.switch, s.d == 0) == Ok::<u8, MachineError>(
                t.bubc_flux,
            )
            &&& spec_next_clock(t.u_word.clk) == Ok::<ClockState, MachineError>(t.clk_mode)
            &&& t.switch == s.switch && t.b == s.b && t.d == s.d
            &&& t.sinclk == s.sinclk && t.data_display == s.data_display
        }),
{
    let ps = cycle_pulses(s);
    let p = s.clk_mode.pulses@;
    if s.clk_mode.pulse_count == 1 {
        assert(ps.drop_last() =~= Seq::<ClockPulse>::empty());
        assert(spec_pulses(s, rom, ps.drop_last()) == (s, Ok::<(), MachineError>(())));
        assert(ps.last() == p[0]);
        assert(spec_pulses(s, rom, ps) == spec_transfer(s, rom));
    } else {
        assert(ps.drop_last().drop_last() =~= Seq::<ClockPulse>::empty());
        assert(spec_pulses(s, rom, ps.drop_last().drop_last()) == (s, Ok::<(), MachineError>(())));
        assert(ps.drop_last().last() == p[0]);
        assert(ps.last() == p[1]);
        assert(spec_pulses(s, rom, ps.drop_last()) == (s, Ok::<(), MachineError>(())));
        assert(spec_pulses(s, rom, ps) == spec_transfer(s, rom));
    }
}

} // verus!
