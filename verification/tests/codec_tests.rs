use rum::codec::{get, mask, op, Field, Opcode};

/// Build an instruction word from opcode and the three register fields.
fn word(opcode: u32, ra: u32, rb: u32, rc: u32) -> u32 {
    (opcode << 28) | (ra << 6) | (rb << 3) | rc
}

/// Build a load-immediate word from the destination register and value.
fn loadval_word(rl: u32, value: u32) -> u32 {
    (13 << 28) | (rl << 25) | value
}

#[test]
fn mask_widths() {
    assert_eq!(mask(0), 0);
    assert_eq!(mask(3), 0b111);
    assert_eq!(mask(4), 0xF);
    assert_eq!(mask(25), 0x1FF_FFFF);
    assert_eq!(mask(31), 0x7FFF_FFFF);
}

#[test]
fn field_extraction() {
    let inst = word(3, 5, 6, 7);
    assert_eq!(get(&Field { width: 4, lsb: 28 }, inst), 3);
    assert_eq!(get(&Field { width: 3, lsb: 6 }, inst), 5);
    assert_eq!(get(&Field { width: 3, lsb: 3 }, inst), 6);
    assert_eq!(get(&Field { width: 3, lsb: 0 }, inst), 7);
}

#[test]
fn field_extraction_load_immediate() {
    let inst = loadval_word(6, 0x155_5555);
    assert_eq!(get(&Field { width: 4, lsb: 28 }, inst), 13);
    assert_eq!(get(&Field { width: 3, lsb: 25 }, inst), 6);
    assert_eq!(get(&Field { width: 25, lsb: 0 }, inst), 0x155_5555);
}

#[test]
fn opcode_decoding() {
    let expected = [
        Opcode::CMov,
        Opcode::Load,
        Opcode::Store,
        Opcode::Add,
        Opcode::Mult,
        Opcode::Div,
        Opcode::Nand,
        Opcode::Halt,
        Opcode::MapSeg,
        Opcode::UnmapSeg,
        Opcode::Output,
        Opcode::Input,
        Opcode::LoadProg,
        Opcode::LoadVal,
    ];
    for (code, want) in expected.iter().enumerate() {
        assert_eq!(op((code as u32) << 28), Some(*want));
    }
    assert_eq!(op(14 << 28), None);
    assert_eq!(op(15 << 28), None);
}

#[test]
fn opcode_ignores_operands() {
    assert_eq!(op(word(7, 1, 2, 3)), Some(Opcode::Halt));
    assert_eq!(op(0xFFFF_FFFF), None);
}
