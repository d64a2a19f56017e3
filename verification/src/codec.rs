//! Instruction codec: pure bit-field extraction from a 32-bit instruction
//! word, and classification of the opcode field into the closed set of
//! fourteen operations.

use vstd::prelude::*;

verus! {

/// The machine word; registers, memory cells and instructions are all
/// 32-bit unsigned values.
pub type Umi = u32;

/// A named bit field of an instruction word: `width` bits starting at
/// bit `lsb` (least-significant bit is bit 0).
pub struct Field {
    pub width: u32,
    pub lsb: u32,
}

/// `width` low-order one bits.
pub open spec fn mask_spec(width: u32) -> u32 {
    ((1u32 << width) - 1) as u32
}

/// The value of the field of `width` bits at position `lsb` in `inst`.
pub open spec fn field_spec(inst: Umi, lsb: u32, width: u32) -> u32 {
    (inst >> lsb) & mask_spec(width)
}

/// Register A index: 3 bits at bit 6.
pub open spec fn ra_of(inst: Umi) -> u32 {
    field_spec(inst, 6, 3)
}

/// Register B index: 3 bits at bit 3.
pub open spec fn rb_of(inst: Umi) -> u32 {
    field_spec(inst, 3, 3)
}

/// Register C index: 3 bits at bit 0.
pub open spec fn rc_of(inst: Umi) -> u32 {
    field_spec(inst, 0, 3)
}

/// Destination register of load-immediate: 3 bits at bit 25.
pub open spec fn rl_of(inst: Umi) -> u32 {
    field_spec(inst, 25, 3)
}

/// Immediate value of load-immediate: 25 bits at bit 0.
pub open spec fn vl_of(inst: Umi) -> u32 {
    field_spec(inst, 0, 25)
}

/// Opcode selector: 4 bits at bit 28.
pub open spec fn op_of(inst: Umi) -> u32 {
    field_spec(inst, 28, 4)
}

/// A register index extracted from a 3-bit field is always a valid index
/// into the 8-register file.
pub proof fn lemma_field_bounds(inst: Umi)
    by (bit_vector)
    ensures
        ra_of(inst) < 8,
        rb_of(inst) < 8,
        rc_of(inst) < 8,
        rl_of(inst) < 8,
        op_of(inst) < 16,
{
}

/// `width` low-order one bits, as a word.
pub fn mask(width: u32) -> (r: u32)
    requires
        width < 32,
    ensures
        r == mask_spec(width),
{
    proof {
        assert(width < 32 ==> (1u32 << width) >= 1) by (bit_vector);
    }
    (1u32 << width) - 1
}

/// Extract `field` from `instruction`.
pub fn get(field: &Field, instruction: Umi) -> (r: usize)
    requires
        field.width < 32,
        field.lsb < 32,
    ensures
        r == field_spec(instruction, field.lsb, field.width) as usize,
{
    ((instruction >> field.lsb) & mask(field.width)) as usize
}

/// The fourteen operations of the machine, in opcode order.
#[derive(Debug, PartialEq, Eq, Structural, Copy, Clone)]
pub enum Opcode {
    CMov,
    Load,
    Store,
    Add,
    Mult,
    Div,
    Nand,
    Halt,
    MapSeg,
    UnmapSeg,
    Output,
    Input,
    LoadProg,
    LoadVal,
}

/// The operation selected by the opcode field, or `None` for the invalid
/// opcode values 14 and 15.
pub open spec fn spec_op(inst: Umi) -> Option<Opcode> {
    let code = op_of(inst);
    if code == 0 {
        Some(Opcode::CMov)
    } else if code == 1 {
        Some(Opcode::Load)
    } else if code == 2 {
        Some(Opcode::Store)
    } else if code == 3 {
        Some(Opcode::Add)
    } else if code == 4 {
        Some(Opcode::Mult)
    } else if code == 5 {
        Some(Opcode::Div)
    } else if code == 6 {
        Some(Opcode::Nand)
    } else if code == 7 {
        Some(Opcode::Halt)
    } else if code == 8 {
        Some(Opcode::MapSeg)
    } else if code == 9 {
        Some(Opcode::UnmapSeg)
    } else if code == 10 {
        Some(Opcode::Output)
    } else if code == 11 {
        Some(Opcode::Input)
    } else if code == 12 {
        Some(Opcode::LoadProg)
    } else if code == 13 {
        Some(Opcode::LoadVal)
    } else {
        None
    }
}

/// Decode the opcode field of an instruction word.
pub fn op(instruction: Umi) -> (r: Option<Opcode>)
    ensures
        r == spec_op(instruction),
{
    let code = get(&Field { width: 4, lsb: 28 }, instruction);
    match code {
        0 => Some(Opcode::CMov),
        1 => Some(Opcode::Load),
        2 => Some(Opcode::Store),
        3 => Some(Opcode::Add),
        4 => Some(Opcode::Mult),
        5 => Some(Opcode::Div),
        6 => Some(Opcode::Nand),
        7 => Some(Opcode::Halt),
        8 => Some(Opcode::MapSeg),
        9 => Some(Opcode::UnmapSeg),
        10 => Some(Opcode::Output),
        11 => Some(Opcode::Input),
        12 => Some(Opcode::LoadProg),
        13 => Some(Opcode::LoadVal),
        _ => None,
    }
}

} // verus!
