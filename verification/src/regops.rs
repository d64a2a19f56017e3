//! Register-file operations: conditional move, load-immediate, and the
//! 32-bit modular arithmetic and bitwise operations. Each writes exactly
//! one destination register.

use vstd::prelude::*;
use crate::codec::Umi;

verus! {

broadcast use vstd::array::group_array_axioms;

/// 32-bit modular addition: `(a + b) mod 2^32`.
pub open spec fn wrap_add(a: Umi, b: Umi) -> Umi {
    ((a + b) % 0x1_0000_0000) as u32
}

/// 32-bit modular multiplication: `(a * b) mod 2^32`.
pub open spec fn wrap_mul(a: Umi, b: Umi) -> Umi {
    ((a * b) % 0x1_0000_0000) as u32
}

/// The register file after a conditional move: if register `rc` is
/// non-zero, register `ra` takes the value of register `rb`; otherwise the
/// file is unchanged.
pub open spec fn cmove_spec(regs: Seq<Umi>, ra: int, rb: int, rc: int) -> Seq<Umi> {
    if regs[rc] != 0 {
        regs.update(ra, regs[rb])
    } else {
        regs
    }
}

/// Conditional move: if register `rc` is non-zero, copy register `rb` into
/// register `ra`; otherwise leave every register unchanged.
pub fn cmove(ra: usize, rb: usize, rc: usize, registers: &mut [Umi; 8])
    requires
        ra < 8,
        rb < 8,
        rc < 8,
    ensures
        final(registers)@ == cmove_spec(old(registers)@, ra as int, rb as int, rc as int),
{
    if registers[rc] != 0 {
        registers[ra] = registers[rb];
    }
}

/// Load-immediate: set register `rl` to `value`.
pub fn loadval(rl: usize, value: Umi, registers: &mut [Umi; 8])
    requires
        rl < 8,
    ensures
        final(registers)@ == old(registers)@.update(rl as int, value),
{
    registers[rl] = value;
}

/// Bitwise NAND: set register `ra` to the complement of the conjunction of
/// registers `rb` and `rc`.
pub fn nand(ra: usize, rb: usize, rc: usize, registers: &mut [Umi; 8])
    requires
        ra < 8,
        rb < 8,
        rc < 8,
    ensures
        final(registers)@ == old(registers)@.update(
            ra as int,
            !(old(registers)@[rb as int] & old(registers)@[rc as int]),
        ),
{
    registers[ra] = !(registers[rb] & registers[rc]);
}

/// Addition: set register `ra` to the sum of registers `rb` and `rc`,
/// taken modulo 2^32.
pub fn add(ra: usize, rb: usize, rc: usize, registers: &mut [Umi; 8])
    requires
        ra < 8,
        rb < 8,
        rc < 8,
    ensures
        final(registers)@ == old(registers)@.update(
            ra as int,
            wrap_add(old(registers)@[rb as int], old(registers)@[rc as int]),
        ),
{
    let sum: u64 = registers[rb] as u64 + registers[rc] as u64;
    registers[ra] = (sum % 0x1_0000_0000u64) as u32;
}

/// Multiplication: set register `ra` to the product of registers `rb` and
/// `rc`, taken modulo 2^32.
pub fn mult(ra: usize, rb: usize, rc: usize, registers: &mut [Umi; 8])
    requires
        ra < 8,
        rb < 8,
        rc < 8,
    ensures
        final(registers)@ == old(registers)@.update(
            ra as int,
            wrap_mul(old(registers)@[rb as int], old(registers)@[rc as int]),
        ),
{
    let x: u64 = registers[rb] as u64;
    let y: u64 = registers[rc] as u64;
    proof {
        assert(x * y <= 0xFFFF_FFFFu64 * 0xFFFF_FFFFu64) by (nonlinear_arith)
            requires
                x <= 0xFFFF_FFFFu64,
                y <= 0xFFFF_FFFFu64,
        ;
    }
    let product: u64 = x * y;
    registers[ra] = (product % 0x1_0000_0000u64) as u32;
}

/// Division: set register `ra` to the quotient of registers `rb` and `rc`
/// under unsigned integer division, truncating toward zero. The caller
/// rules out a zero divisor, which the machine defines as fatal.
pub fn div(ra: usize, rb: usize, rc: usize, registers: &mut [Umi; 8])
    requires
        ra < 8,
        rb < 8,
        rc < 8,
        old(registers)@[rc as int] != 0,
    ensures
        final(registers)@ == old(registers)@.update(
            ra as int,
            (old(registers)@[rb as int] / old(registers)@[rc as int]) as u32,
        ),
{
    registers[ra] = registers[rb] / registers[rc];
}

} // verus!
