use microsequencer::panel::{bools_to_strings, u8_to_bools};

#[test]
fn bits_most_significant_first() {
    assert_eq!(u8_to_bools(0b1000_0001), [true, false, false, false, false, false, false, true]);
    assert_eq!(u8_to_bools(0o26), [false, false, false, true, false, true, true, false]);
    assert_eq!(u8_to_bools(0), [false; 8]);
    assert_eq!(u8_to_bools(255), [true; 8]);
}

#[test]
fn lamps_show_lit_and_dark_glyphs() {
    let lamps = bools_to_strings(u8_to_bools(0b1100_0000));
    assert_eq!(lamps.len(), 8);
    assert_eq!(lamps[0], "●");
    assert_eq!(lamps[1], "●");
    for lamp in &lamps[2..] {
        assert_eq!(lamp, "○");
    }
}
