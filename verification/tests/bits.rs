use hx711::bits::{assemble, bits_of, shift_in};

fn pattern_bits(raw: u32) -> Vec<bool> {
    let mut bits = Vec::new();
    let mut place = 24;
    while place > 0 {
        place -= 1;
        bits.push((raw >> place) & 1 == 1);
    }
    bits
}

#[test]
fn shift_in_appends_at_the_low_end() {
    assert_eq!(shift_in(0, false), 0);
    assert_eq!(shift_in(0, true), 1);
    assert_eq!(shift_in(1, false), 2);
    assert_eq!(shift_in(1, true), 3);
    assert_eq!(shift_in(0x12_3456, true), 0x24_68AD);
    assert_eq!(shift_in(0x7F_FFFF, true), 0xFF_FFFF);
    assert_eq!(shift_in(0x40_0000, false), 0x80_0000);
}

#[test]
fn shift_in_drops_the_bit_that_leaves_the_register() {
    assert_eq!(shift_in(0x80_0000, false), 0);
    assert_eq!(shift_in(0x80_0000, true), 1);
    assert_eq!(shift_in(0xFF_FFFF, true), 0xFF_FFFF);
    assert_eq!(shift_in(0xFF_FFFF, false), 0xFF_FFFE);
    assert_eq!(shift_in(0xFFFF_FFFF, false), 0xFF_FFFE);
}

#[test]
fn feeding_a_pattern_bit_by_bit_reproduces_it() {
    for raw in [0u32, 1, 0x80_0000, 0x80_0001, 0xA5_A5A5, 0x5A_5A5A, 0x12_3456, 0xFF_FFFF] {
        let mut register: u32 = 0;
        for bit in pattern_bits(raw) {
            register = shift_in(register, bit);
        }
        assert_eq!(register, raw);
    }
}

#[test]
fn assemble_reads_most_significant_bit_first() {
    assert_eq!(assemble(&[]), 0);
    assert_eq!(assemble(&[true]), 1);
    assert_eq!(assemble(&[true, false]), 2);
    assert_eq!(assemble(&[false, true]), 1);
    assert_eq!(assemble(&[true, false, true, true]), 11);
    let mut first_set = vec![false; 24];
    first_set[0] = true;
    assert_eq!(assemble(&first_set), 0x80_0000);
    let mut last_set = vec![false; 24];
    last_set[23] = true;
    assert_eq!(assemble(&last_set), 1);
}

#[test]
fn assemble_keeps_the_last_24_bits_of_a_longer_sequence() {
    let mut bits = vec![true];
    bits.extend(pattern_bits(0x12_3456));
    assert_eq!(bits.len(), 25);
    assert_eq!(assemble(&bits), 0x12_3456);
    assert_eq!(assemble(&vec![true; 40]), 0xFF_FFFF);
}

#[test]
fn bits_of_gives_24_bits_most_significant_first() {
    let bits = bits_of(0x80_0000);
    assert_eq!(bits.len(), 24);
    assert!(bits[0]);
    assert!(bits[1..].iter().all(|bit| !*bit));
    let bits = bits_of(1);
    assert!(bits[23]);
    assert!(bits[..23].iter().all(|bit| !*bit));
    assert_eq!(bits_of(0xA5_A5A5), pattern_bits(0xA5_A5A5));
    assert_eq!(bits_of(0), vec![false; 24]);
    assert_eq!(bits_of(0xFF_FFFF), vec![true; 24]);
}

#[test]
fn bits_of_leaves_out_what_lies_above_bit_23() {
    assert_eq!(bits_of(0xFF00_0001), bits_of(1));
    assert_eq!(bits_of(0x0100_0000), vec![false; 24]);
}

#[test]
fn assemble_undoes_bits_of() {
    for raw in [0u32, 1, 2, 0x7F_FFFF, 0x80_0000, 0x80_0001, 0xA5_A5A5, 0x5A_5A5A, 0xFF_FFFF] {
        assert_eq!(assemble(&bits_of(raw)), raw);
    }
    let mut raw: u32 = 0;
    while raw <= 0xFF_FFFF {
        assert_eq!(assemble(&bits_of(raw)), raw);
        raw += 4099;
    }
}

#[test]
fn bits_of_undoes_assemble() {
    for raw in [0x00_0001u32, 0x13_579B, 0xFE_DCBA] {
        let bits = pattern_bits(raw);
        assert_eq!(bits_of(assemble(&bits)), bits);
    }
}
