use vstd::prelude::*;

use crate::error::{Component, MachineError};

verus! {

/// Bits 0-7 of a word.
pub open spec fn low_byte(w: u16) -> u8 {
    (w % 256) as u8
}

/// Bits 8-15 of a word.
pub open spec fn high_byte(w: u16) -> u8 {
    (w / 256) as u8
}

/// Bit 7 of a word copied into all eight bits of a byte.
pub open spec fn sign_fill(w: u16) -> u8 {
    if (w / 128) % 2 == 1 {
        0xff
    } else {
        0
    }
}

/// What the D-source multiplexer passes for selector `sdm`: bus read data,
/// Unibus data, the D register, or the D register shifted right by one with
/// the low bit of `d_c` entering at bit 15.
pub open spec fn spec_dmux(sdm: u8, bus_rd: u16, bus_d: u16, d: u16, d_c: u8) -> Result<
    u16,
    MachineError,
> {
    if sdm == 0 {
        Ok(bus_rd)
    } else if sdm == 1 {
        Ok(bus_d)
    } else if sdm == 2 {
        Ok(d)
    } else if sdm == 3 {
        Ok((d / 2 + (d_c % 2) * 0x8000) as u16)
    } else {
        Err(MachineError::InvalidSelector { component: Component::DMux, value: sdm })
    }
}

/// Low byte of the B-source multiplexer, chosen by bits 0-1 of the selector.
pub open spec fn bmux_low_byte(sbm: u8, b: u16, b_const: u16) -> u8 {
    let s = sbm % 4;
    if s == 0 || s == 1 {
        low_byte(b)
    } else if s == 2 {
        high_byte(b)
    } else {
        low_byte(b_const)
    }
}

/// High byte of the B-source multiplexer, chosen by bits 2-3 of the selector.
pub open spec fn bmux_high_byte(sbm: u8, b: u16, b_const: u16) -> u8 {
    let s = (sbm / 4) % 4;
    if s == 0 {
        high_byte(b)
    } else if s == 1 {
        sign_fill(b)
    } else if s == 2 {
        low_byte(b)
    } else {
        high_byte(b_const)
    }
}

/// What the B-source multiplexer passes for selector `sbm`: the two bytes are
/// selected independently and joined.
pub open spec fn spec_bmux(sbm: u8, b: u16, b_const: u16) -> Result<u16, MachineError> {
    if sbm >= 16 {
        Err(MachineError::InvalidSelector { component: Component::BMux, value: sbm })
    } else {
        Ok((bmux_high_byte(sbm, b, b_const) * 256 + bmux_low_byte(sbm, b, b_const)) as u16)
    }
}

/// The D-source multiplexer.
pub fn evaluate_dmux(sdm: u8, bus_rd: u16, bus_d: u16, d: u16, d_c: u8) -> (r: Result<
    u16,
    MachineError,
>)
    ensures
        r == spec_dmux(sdm, bus_rd, bus_d, d, d_c),
{
    match sdm {
        0b00 => Ok(bus_rd),
        0b01 => Ok(bus_d),
        0b10 => Ok(d),
        0b11 => {
            let shifted: u16 = (d >> 1) | ((d_c as u16) << 15);
            assert(shifted == (d / 2 + (d_c % 2) * 0x8000) as u16) by (bit_vector)
                requires
                    shifted == (d >> 1) | ((d_c as u16) << 15),
            ;
            Ok(shifted)
        },
        _ => Err(MachineError::InvalidSelector { component: Component::DMux, value: sdm }),
    }
}

/// Splits a word into its low and high bytes.
fn split_word(w: u16) -> (r: (u8, u8))
    ensures
        r.0 == low_byte(w),
        r.1 == high_byte(w),
{
    let low: u8 = (w & 0xff) as u8;
    let high: u8 = (w >> 8) as u8;
    assert(low == (w % 256) as u8 && high == (w / 256) as u8) by (bit_vector)
        requires
            low == (w & 0xff) as u8,
            high == (w >> 8) as u8,
    ;
    (low, high)
}

/// The B-source multiplexer.
pub fn evaluate_bmux(sbm: u8, b: u16, b_const: u16) -> (r: Result<u16, MachineError>)
    ensures
        r == spec_bmux(sbm, b, b_const),
{
    // Only four selector bits exist.
    if sbm >> 4 != 0 {
        assert(sbm >= 16) by (bit_vector)
            requires
                sbm >> 4 != 0,
        ;
        return Err(MachineError::InvalidSelector { component: Component::BMux, value: sbm });
    }
    let sbm_low: u8 = sbm & 0b0011;
    let sbm_high: u8 = (sbm & 0b1100) >> 2;
    assert(sbm < 16 && sbm_low == sbm % 4 && sbm_high == (sbm / 4) % 4) by (bit_vector)
        requires
            sbm >> 4 == 0,
            sbm_low == sbm & 0b0011,
            sbm_high == (sbm & 0b1100) >> 2,
    ;

    let (bl, bh) = split_word(b);
    let (kl, kh) = split_word(b_const);
    let b7: u16 = (b >> 7) & 1;
    assert(b7 == (b / 128) % 2) by (bit_vector)
        requires
            b7 == (b >> 7) & 1,
    ;
    let sign: u8 = if b7 == 1 {
        0xff
    } else {
        0
    };

    // 00, 01: B; 10: high byte of B (swap); 11: B constant
    let low: u8 = match sbm_low {
        0b00 => bl,
        0b01 => bl,
        0b10 => bh,
        _ => kl,
    };

    // 00: B; 01: bit 7 of B repeated; 10: low byte of B (swap); 11: B constant.
    // The hardware's constant high byte is two lines duplicated; the table
    // already holds it as a full byte.
    let high: u8 = match sbm_high {
        0b00 => bh,
        0b01 => sign,
        0b10 => bl,
        _ => kh,
    };

    let r: u16 = ((high as u16) << 8) | (low as u16);
    assert(r == (high * 256 + low) as u16) by (bit_vector)
        requires
            r == ((high as u16) << 8) | (low as u16),
    ;
    Ok(r)
}

/// Selector 2 of the D-source multiplexer passes the D register through, and
/// selector 3 shifts it right by one with the carry entering at bit 15.
pub proof fn lemma_dmux_laws(bus_rd: u16, bus_d: u16, d: u16, d_c: u8)
    ensures
        spec_dmux(2, bus_rd, bus_d, d, d_c) == Ok::<u16, MachineError>(d),
        spec_dmux(3, bus_rd, bus_d, d, d_c) == Ok::<u16, MachineError>(
            (d / 2 + (d_c % 2) * 0x8000) as u16,
        ),
{
}

/// Selector `0b1010` of the B-source multiplexer swaps the two bytes of B, so
/// passing its output through the same selection again gives B back.
pub proof fn lemma_bmux_swap_round_trip(b: u16, b_const: u16, b_const2: u16)
    ensures
        spec_bmux(0b1010, b, b_const) == Ok::<u16, MachineError>(
            (low_byte(b) * 256 + high_byte(b)) as u16,
        ),
        spec_bmux(0b1010, (low_byte(b) * 256 + high_byte(b)) as u16, b_const2) == Ok::<
            u16,
            MachineError,
        >(b),
{
    let s = (low_byte(b) * 256 + high_byte(b)) as u16;
    assert(low_byte(s) == high_byte(b) && high_byte(s) == low_byte(b)) by (bit_vector)
        requires
            s == ((b % 256) as u8 * 256 + (b / 256) as u8) as u16,
    ;
    assert(((low_byte(b) * 256 + high_byte(b)) as u16) == s);
    assert((high_byte(b) * 256 + low_byte(b)) as u16 == b) by (bit_vector);
}

} // verus!
