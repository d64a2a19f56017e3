use rum::exec::{step, Fault, Step};
use rum::machine::UM;
use rum::memops;
use rum::regops;

/// Build an instruction word from opcode and the three register fields.
fn word(opcode: u32, ra: u32, rb: u32, rc: u32) -> u32 {
    (opcode << 28) | (ra << 6) | (rb << 3) | rc
}

/// Build a load-immediate word from the destination register and value.
fn loadval_word(rl: u32, value: u32) -> u32 {
    (13 << 28) | (rl << 25) | value
}

/// Run a machine to completion, collecting output bytes; input reads see
/// an exhausted stream. Returns the collected output and the final step.
fn run(m: &mut UM) -> (Vec<u8>, Step) {
    let mut out = Vec::new();
    loop {
        match step(m) {
            Step::Continue => {}
            Step::Output(b) => out.push(b),
            Step::NeedInput(dst) => memops::input(dst, None, &mut m.registers),
            last => return (out, last),
        }
    }
}

#[test]
fn new_machine_is_zeroed() {
    let m = UM::new(vec![1, 2, 3]);
    assert_eq!(m.memvec, vec![vec![1, 2, 3]]);
    assert!(m.free.is_empty());
    assert_eq!(m.registers, [0; 8]);
    assert_eq!(m.inst_ptr, 0);
}

#[test]
fn add_wraps_modulo_2_to_32() {
    let mut regs: [u32; 8] = [0; 8];
    regs[1] = 0xFFFF_FFFF;
    regs[2] = 1;
    regops::add(0, 1, 2, &mut regs);
    assert_eq!(regs[0], 0);
    regs[3] = 100;
    regs[4] = 23;
    regops::add(5, 3, 4, &mut regs);
    assert_eq!(regs[5], 123);
}

#[test]
fn mult_wraps_modulo_2_to_32() {
    let mut regs: [u32; 8] = [0; 8];
    regs[1] = 0xFFFF_FFFF;
    regs[2] = 2;
    regops::mult(0, 1, 2, &mut regs);
    assert_eq!(regs[0], 0xFFFF_FFFE);
    regs[3] = 6;
    regs[4] = 7;
    regops::mult(5, 3, 4, &mut regs);
    assert_eq!(regs[5], 42);
}

#[test]
fn div_truncates() {
    let mut regs: [u32; 8] = [0; 8];
    regs[1] = 7;
    regs[2] = 2;
    regops::div(0, 1, 2, &mut regs);
    assert_eq!(regs[0], 3);
}

#[test]
fn nand_over_32_bits() {
    let mut regs: [u32; 8] = [0; 8];
    regops::nand(0, 1, 2, &mut regs);
    assert_eq!(regs[0], 0xFFFF_FFFF);
    regs[1] = 0xFFFF_FFFF;
    regs[2] = 0x0000_FFFF;
    regops::nand(3, 1, 2, &mut regs);
    assert_eq!(regs[3], 0xFFFF_0000);
}

#[test]
fn cmove_on_zero_condition_leaves_dst() {
    let mut regs: [u32; 8] = [0; 8];
    regs[0] = 11;
    regs[1] = 22;
    regs[2] = 0;
    regops::cmove(0, 1, 2, &mut regs);
    assert_eq!(regs[0], 11);
}

#[test]
fn cmove_on_nonzero_condition_copies_src() {
    let mut regs: [u32; 8] = [0; 8];
    regs[0] = 11;
    regs[1] = 22;
    regs[2] = 0xFFFF_FFFF;
    regops::cmove(0, 1, 2, &mut regs);
    assert_eq!(regs[0], 22);
    regs[2] = 1;
    regs[1] = 33;
    regops::cmove(0, 1, 2, &mut regs);
    assert_eq!(regs[0], 33);
}

#[test]
fn segment_id_reuse_is_lifo() {
    let mut m = UM::new(vec![word(7, 0, 0, 0)]);
    // Sizes come from register 1; ids are placed in register 0.
    m.registers[1] = 4;
    memops::map(0, 1, &mut m);
    let a = m.registers[0];
    memops::map(0, 1, &mut m);
    let b = m.registers[0];
    memops::map(0, 1, &mut m);
    let c = m.registers[0];
    assert_eq!((a, b, c), (1, 2, 3));
    // Deallocate B, then A.
    m.registers[2] = b;
    memops::unmap(2, &mut m);
    m.registers[2] = a;
    memops::unmap(2, &mut m);
    // The next two allocations must reuse A's id first, then B's.
    memops::map(0, 1, &mut m);
    assert_eq!(m.registers[0], a);
    memops::map(0, 1, &mut m);
    assert_eq!(m.registers[0], b);
}

#[test]
fn mapped_segment_is_zero_filled() {
    let mut m = UM::new(vec![word(7, 0, 0, 0)]);
    m.registers[1] = 3;
    memops::map(0, 1, &mut m);
    assert_eq!(m.memvec[m.registers[0] as usize], vec![0, 0, 0]);
}

#[test]
fn mapping_an_empty_segment_is_allowed_but_unreadable() {
    // size register left at 0: the segment exists and has no words, so any
    // load from it is a fatal access.
    let mut m = UM::new(vec![word(1, 0, 1, 2)]);
    memops::map(1, 3, &mut m);
    assert_eq!(m.registers[1], 1);
    assert_eq!(m.memvec[1], Vec::<u32>::new());
    assert_eq!(step(&mut m), Step::Fault(Fault::BadAccess));
}

#[test]
fn store_then_load_round_trip() {
    let mut m = UM::new(vec![word(7, 0, 0, 0)]);
    m.registers[1] = 2;
    memops::map(0, 1, &mut m);
    // Store 0xDEAD at offset 1 of the new segment, then load it back.
    m.registers[3] = m.registers[0];
    m.registers[4] = 1;
    m.registers[5] = 0xDEAD;
    memops::store(3, 4, 5, &mut m);
    memops::load(6, 3, 4, &mut m);
    assert_eq!(m.registers[6], 0xDEAD);
}

#[test]
fn load_program_with_zero_source_only_redirects() {
    let program = vec![word(0, 1, 2, 3), word(7, 0, 0, 0)];
    let mut m = UM::new(program.clone());
    m.registers[1] = 0;
    m.registers[2] = 7;
    memops::loadprog(1, 2, &mut m);
    assert_eq!(m.memvec[0], program);
    assert_eq!(m.inst_ptr, 7);
}

#[test]
fn load_program_with_nonzero_source_replaces_segment_zero() {
    let mut m = UM::new(vec![word(0, 0, 0, 0)]);
    m.registers[1] = 1;
    memops::map(0, 1, &mut m);
    let id = m.registers[0];
    // Write a halt instruction into the fresh segment.
    m.registers[3] = id;
    m.registers[4] = 0;
    m.registers[5] = word(7, 0, 0, 0);
    memops::store(3, 4, 5, &mut m);
    // Switch execution to it.
    m.registers[6] = 0;
    memops::loadprog(3, 6, &mut m);
    assert_eq!(m.memvec[0], vec![word(7, 0, 0, 0)]);
    assert_eq!(m.inst_ptr, 0);
    assert_eq!(step(&mut m), Step::Halt);
}

#[test]
fn input_byte_is_zero_extended() {
    let mut regs: [u32; 8] = [0xAAAA_AAAA; 8];
    memops::input(3, Some(65), &mut regs);
    assert_eq!(regs[3], 65);
}

#[test]
fn input_sentinel_on_exhausted_stream() {
    let mut regs: [u32; 8] = [0; 8];
    memops::input(2, None, &mut regs);
    assert_eq!(regs[2], 0xFFFF_FFFF);
}

#[test]
fn output_rejects_values_above_255() {
    let mut regs: [u32; 8] = [0; 8];
    regs[1] = 255;
    assert_eq!(memops::output(1, &regs), Some(255));
    regs[1] = 256;
    assert_eq!(memops::output(1, &regs), None);
}

#[test]
fn end_to_end_prints_h_and_halts() {
    let program = vec![loadval_word(0, 72), word(10, 0, 0, 0), word(7, 0, 0, 0)];
    let mut m = UM::new(program);
    let (out, last) = run(&mut m);
    assert_eq!(out, b"H".to_vec());
    assert_eq!(last, Step::Halt);
}

#[test]
fn divide_by_zero_is_fatal_before_any_output() {
    // divide(r0, r1, r2) with r2 == 0, then an output that must never run.
    let program = vec![
        loadval_word(1, 10),
        word(5, 0, 1, 2),
        word(10, 0, 0, 1),
        word(7, 0, 0, 0),
    ];
    let mut m = UM::new(program);
    let (out, last) = run(&mut m);
    assert_eq!(last, Step::Fault(Fault::DivideByZero));
    assert!(out.is_empty());
    // The faulting cycle left the machine untouched: still pointing at the
    // divide instruction.
    assert_eq!(m.inst_ptr, 1);
}

#[test]
fn invalid_opcode_is_fatal_with_no_mutation() {
    let program = vec![word(15, 0, 0, 0), word(7, 0, 0, 0)];
    let mut m = UM::new(program.clone());
    assert_eq!(step(&mut m), Step::Fault(Fault::InvalidOpcode));
    assert_eq!(m.inst_ptr, 0);
    assert_eq!(m.registers, [0; 8]);
    assert_eq!(m.memvec, vec![program]);
    assert!(m.free.is_empty());
}

#[test]
fn opcode_fourteen_is_also_invalid() {
    let mut m = UM::new(vec![word(14, 0, 0, 0)]);
    assert_eq!(step(&mut m), Step::Fault(Fault::InvalidOpcode));
}

#[test]
fn fetch_past_end_of_program_is_fatal() {
    let mut m = UM::new(vec![]);
    assert_eq!(step(&mut m), Step::Fault(Fault::BadAccess));
}

#[test]
fn load_out_of_bounds_is_fatal() {
    // segmented-load from segment 9, which does not exist.
    let mut m = UM::new(vec![word(1, 0, 1, 2)]);
    m.registers[1] = 9;
    assert_eq!(step(&mut m), Step::Fault(Fault::BadAccess));
    assert_eq!(m.inst_ptr, 0);
}

#[test]
fn store_out_of_bounds_is_fatal() {
    // segmented-store at offset 5 of the 1-word segment 0.
    let mut m = UM::new(vec![word(2, 0, 1, 2)]);
    m.registers[1] = 5;
    assert_eq!(step(&mut m), Step::Fault(Fault::BadAccess));
}

#[test]
fn unmapping_segment_zero_is_fatal() {
    let mut m = UM::new(vec![word(9, 0, 0, 0)]);
    assert_eq!(step(&mut m), Step::Fault(Fault::BadUnmap));
}

#[test]
fn unmapping_an_unallocated_id_is_fatal() {
    let mut m = UM::new(vec![word(9, 0, 0, 1)]);
    m.registers[1] = 4;
    assert_eq!(step(&mut m), Step::Fault(Fault::BadUnmap));
}

#[test]
fn output_range_fault_through_step() {
    let program = vec![loadval_word(0, 256), word(10, 0, 0, 0)];
    let mut m = UM::new(program);
    let (out, last) = run(&mut m);
    assert_eq!(last, Step::Fault(Fault::OutputRange));
    assert!(out.is_empty());
}

#[test]
fn input_through_step_reaches_register() {
    // input(r3), output(r3), halt — fed with one byte.
    let program = vec![word(11, 0, 0, 3), word(10, 0, 0, 3), word(7, 0, 0, 0)];
    let mut m = UM::new(program);
    let mut fed = false;
    let mut out = Vec::new();
    let last = loop {
        match step(&mut m) {
            Step::Continue => {}
            Step::Output(b) => out.push(b),
            Step::NeedInput(dst) => {
                let byte = if fed { None } else { Some(b'x') };
                fed = true;
                memops::input(dst, byte, &mut m.registers);
            }
            last => break last,
        }
    };
    assert_eq!(out, b"x".to_vec());
    assert_eq!(last, Step::Halt);
}

#[test]
fn conditional_move_through_step() {
    // r1 := 9; r2 := 0; cmove(r0, r1, r2) leaves r0; then r2 := 1 and the
    // same cmove copies.
    let program = vec![
        loadval_word(1, 9),
        word(0, 0, 1, 2),
        loadval_word(2, 1),
        word(0, 0, 1, 2),
        word(7, 0, 0, 0),
    ];
    let mut m = UM::new(program);
    assert_eq!(step(&mut m), Step::Continue);
    assert_eq!(step(&mut m), Step::Continue);
    assert_eq!(m.registers[0], 0);
    assert_eq!(step(&mut m), Step::Continue);
    assert_eq!(step(&mut m), Step::Continue);
    assert_eq!(m.registers[0], 9);
    assert_eq!(step(&mut m), Step::Halt);
}

#[test]
fn map_and_unmap_through_step() {
    // r1 := 2; map(r0, size r1); unmap(r0); map(r2, size r1): same id back.
    let program = vec![
        loadval_word(1, 2),
        word(8, 0, 0, 1),
        word(9, 0, 0, 0),
        word(8, 0, 2, 1),
        word(7, 0, 0, 0),
    ];
    let mut m = UM::new(program);
    assert_eq!(step(&mut m), Step::Continue);
    assert_eq!(step(&mut m), Step::Continue);
    let first = m.registers[0];
    assert_eq!(first, 1);
    assert_eq!(step(&mut m), Step::Continue);
    assert_eq!(m.memvec[first as usize], Vec::<u32>::new());
    assert_eq!(step(&mut m), Step::Continue);
    assert_eq!(m.registers[2], first);
    assert_eq!(step(&mut m), Step::Halt);
}
