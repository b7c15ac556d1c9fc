use vstd::prelude::*;

use crate::error::MachineError;

verus! {

/// Number of entries in the micro-ROM, one per 8-bit micro-address.
pub const ROM_SIZE: usize = 256;

/// One control word of the micro-ROM.
///
/// An entry whose `implemented` flag is unset holds no valid field values.
#[derive(Clone, Copy, Debug, PartialEq, Eq, Structural)]
pub struct MicroWord {
    pub implemented: bool,
    /// Microprogram field: base of the successor micro-address (8 bits).
    pub upf: u8,
    /// General register select (4 bits).
    pub rif: u8,
    /// Source of the general register address.
    pub srx: u8,
    /// Microbranch field: bank bit and branch multiplexer input (5 bits).
    pub ubf: u8,
    /// Bus address multiplexer select.
    pub sba: u8,
    /// D-source multiplexer select (2 bits).
    pub sdm: u8,
    /// B-source multiplexer select (4 bits).
    pub sbm: u8,
    /// B-constant select (4 bits).
    pub sbc: u8,
    /// ALU operation select.
    pub alu: u8,
    /// Processor status word select (3 bits).
    pub sps: u8,
    /// Discrete alteration of data.
    pub dad: u8,
    /// Bus controls.
    pub bus: u8,
    /// Clock the bus address.
    pub cba: u8,
    /// Clock the ALU output into the D register.
    pub cd: u8,
    /// Clock the D-source multiplexer into the B register.
    pub cb: u8,
    /// Write the D-source multiplexer into the general registers.
    pub wr: u8,
    /// Clock bus data into the instruction register.
    pub cir: u8,
    /// Clock-mode select for the next cycle (valid values `1..=6`).
    pub clk: u8,
}

/// The placeholder stored at every micro-address without a control word.
pub open spec fn spec_unimplemented_word() -> MicroWord {
    MicroWord {
        implemented: false,
        upf: 0,
        rif: 0,
        srx: 0,
        ubf: 0,
        sba: 0,
        sdm: 0,
        sbm: 0,
        sbc: 0,
        alu: 0,
        sps: 0,
        dad: 0,
        bus: 0,
        cba: 0,
        cd: 0,
        cb: 0,
        wr: 0,
        cir: 0,
        clk: 0,
    }
}

/// The content of the micro-ROM at address `a`.
pub open spec fn rom_word(a: int) -> MicroWord {
    let z = spec_unimplemented_word();
    if a == 0o000 {
        // Power-up entry.
        MicroWord { implemented: true, clk: 2, upf: 0o026, ..z }
    } else if a == 0o026 {
        // CON04: test for switch.
        MicroWord { implemented: true, clk: 0o6, sdm: 0o2, ubf: 0o06, upf: 0o046, ..z }
    } else if a == 0o027 {
        // CON07: contact bounce count.
        MicroWord {
            implemented: true,
            clk: 0o4,
            cd: 0o1,
            alu: 0o32,
            sbc: 0o14,
            sbm: 0o17,
            sdm: 0o2,
            upf: 0o044,
            ..z
        }
    } else if a == 0o044 {
        // CON08: test count.
        MicroWord {
            implemented: true,
            clk: 0o6,
            wr: 0o3,
            sdm: 0o2,
            ubf: 0o12,
            srx: 0o01,
            rif: 0o15,
            upf: 0o047,
            ..z
        }
    } else if a == 0o046 {
        // CONS06: no-op for the branch test.
        MicroWord { implemented: true, clk: 0o2, sdm: 0o2, upf: 0o026, ..z }
    } else if a == 0o047 {
        // CON09: increment count.
        MicroWord {
            implemented: true,
            clk: 0o6,
            wr: 0o3,
            cd: 0o1,
            alu: 0o11,
            sbc: 0o01,
            sbm: 0o17,
            sdm: 0o2,
            srx: 0o01,
            rif: 0o15,
            upf: 0o044,
            ..z
        }
    } else {
        z
    }
}

/// The whole micro-ROM, indexed by micro-address.
pub open spec fn rom_table() -> Seq<MicroWord> {
    Seq::new(ROM_SIZE as nat, |a: int| rom_word(a))
}

/// What a fetch of micro-address `a` from `rom` yields.
pub open spec fn spec_fetch(rom: Seq<MicroWord>, a: u8) -> Result<MicroWord, MachineError> {
    if rom[a as int].implemented {
        Ok(rom[a as int])
    } else {
        Err(MachineError::UnimplementedMicroaddress { address: a })
    }
}

impl MicroWord {
    /// The placeholder for a micro-address without a control word.
    pub fn unimplemented() -> (r: MicroWord)
        ensures
            r == spec_unimplemented_word(),
    {
        MicroWord {
            implemented: false,
            upf: 0,
            rif: 0,
            srx: 0,
            ubf: 0,
            sba: 0,
            sdm: 0,
            sbm: 0,
            sbc: 0,
            alu: 0,
            sps: 0,
            dad: 0,
            bus: 0,
            cba: 0,
            cd: 0,
            cb: 0,
            wr: 0,
            cir: 0,
            clk: 0,
        }
    }

    /// The ROM content at micro-address `a`.
    pub fn at_address(a: u8) -> (r: MicroWord)
        ensures
            r == rom_word(a as int),
    {
        let z = MicroWord::unimplemented();
        if a == 0o000 {
            MicroWord { implemented: true, clk: 2, upf: 0o026, ..z }
        } else if a == 0o026 {
            MicroWord { implemented: true, clk: 0o6, sdm: 0o2, ubf: 0o06, upf: 0o046, ..z }
        } else if a == 0o027 {
            MicroWord {
                implemented: true,
                clk: 0o4,
                cd: 0o1,
                alu: 0o32,
                sbc: 0o14,
                sbm: 0o17,
                sdm: 0o2,
                upf: 0o044,
                ..z
            }
        } else if a == 0o044 {
            MicroWord {
                implemented: true,
                clk: 0o6,
                wr: 0o3,
                sdm: 0o2,
                ubf: 0o12,
                srx: 0o01,
                rif: 0o15,
                upf: 0o047,
                ..z
            }
        } else if a == 0o046 {
            MicroWord { implemented: true, clk: 0o2, sdm: 0o2, upf: 0o026, ..z }
        } else if a == 0o047 {
            MicroWord {
                implemented: true,
                clk: 0o6,
                wr: 0o3,
                cd: 0o1,
                alu: 0o11,
                sbc: 0o01,
                sbm: 0o17,
                sdm: 0o2,
                srx: 0o01,
                rif: 0o15,
                upf: 0o044,
                ..z
            }
        } else {
            z
        }
    }
}

/// The micro-ROM: exactly one word for each of the 256 micro-addresses.
pub struct MicroRom {
    words: Vec<MicroWord>,
}

impl View for MicroRom {
    type V = Seq<MicroWord>;

    closed spec fn view(&self) -> Seq<MicroWord> {
        self.words@
    }
}

impl MicroRom {
    #[verifier::type_invariant]
    closed spec fn inv(&self) -> bool {
        self.words@.len() == ROM_SIZE
    }

    /// Loads the micro-ROM content.
    pub fn new() -> (r: MicroRom)
        ensures
            r@ == rom_table(),
    {
        let mut words: Vec<MicroWord> = Vec::new();
        let mut a: usize = 0;
        while a < ROM_SIZE
            invariant
                a <= ROM_SIZE,
                words@.len() == a,
                forall|i: int| 0 <= i < a ==> words@[i] == rom_word(i),
            decreases ROM_SIZE - a,
        {
            words.push(MicroWord::at_address(a as u8));
            a = a + 1;
        }
        assert(words@ =~= rom_table());
        MicroRom { words }
    }

    /// Reads the control word at micro-address `a`; an address without a
    /// control word is an error rather than a default word.
    pub fn fetch(&self, a: u8) -> (r: Result<MicroWord, MachineError>)
        ensures
            r == spec_fetch(self@, a),
            self@.len() == ROM_SIZE,
    {
        proof {
            use_type_invariant(self);
        }
        let w = self.words[a as usize];
        if w.implemented {
            Ok(w)
        } else {
            Err(MachineError::UnimplementedMicroaddress { address: a })
        }
    }
}

/// A fetch is decided by the table and the address alone: two fetches of
/// one implemented micro-address agree, and both give that entry.
pub proof fn lemma_fetch_deterministic(
    rom: Seq<MicroWord>,
    a: u8,
    r1: Result<MicroWord, MachineError>,
    r2: Result<MicroWord, MachineError>,
)
    requires
        rom[a as int].implemented,
        r1 == spec_fetch(rom, a),
        r2 == spec_fetch(rom, a),
    ensures
        r1 == r2,
        r1 == Ok::<MicroWord, MachineError>(rom[a as int]),
{
}

} // verus!
