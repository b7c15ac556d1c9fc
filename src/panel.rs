use vstd::prelude::*;
use vstd::string::StringExecFns;

verus! {

/// Whether lamp `i` of an eight-lamp row showing `n` is lit; lamp 0 shows
/// the most significant bit.
pub open spec fn lamp_on(n: u8, i: int) -> bool {
    (n >> ((7 - i) as u8)) & 1 == 1
}

/// The glyph of a lit or a dark lamp.
pub open spec fn lamp_glyph(on: bool) -> Seq<char> {
    if on {
        "●"@
    } else {
        "○"@
    }
}

/// The bits of `n`, most significant first.
pub fn u8_to_bools(n: u8) -> (r: [bool; 8])
    ensures
        forall|i: int| 0 <= i < 8 ==> r@[i] == lamp_on(n, i),
{
    let r = [
        (n >> 7u8) & 1 == 1,
        (n >> 6u8) & 1 == 1,
        (n >> 5u8) & 1 == 1,
        (n >> 4u8) & 1 == 1,
        (n >> 3u8) & 1 == 1,
        (n >> 2u8) & 1 == 1,
        (n >> 1u8) & 1 == 1,
        (n >> 0u8) & 1 == 1,
    ];
    assert forall|i: int| 0 <= i < 8 implies r@[i] == lamp_on(n, i) by {
        if i == 0 {
        } else if i == 1 {
        } else if i == 2 {
        } else if i == 3 {
        } else if i == 4 {
        } else if i == 5 {
        } else if i == 6 {
        } else {
        }
    }
    r
}

/// One lamp glyph per bit.
pub fn bools_to_strings(bools: [bool; 8]) -> (r: Vec<String>)
    ensures
        r@.len() == 8,
        forall|i: int| 0 <= i < 8 ==> (#[trigger] r@[i])@ == lamp_glyph(bools@[i]),
{
    let mut r: Vec<String> = Vec::new();
    let mut i: usize = 0;
    while i < 8
        invariant
            i <= 8,
            r@.len() == i,
            forall|j: int| 0 <= j < i ==> (#[trigger] r@[j])@ == lamp_glyph(bools@[j]),
        decreases 8 - i,
    {
        let glyph = if bools[i] {
            String::from_str("●")
        } else {
            String::from_str("○")
        };
        r.push(glyph);
        i = i + 1;
    }
    r
}

} // verus!
