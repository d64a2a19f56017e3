//! The execution engine: one fetch–decode–execute cycle as a verified
//! state transition. `step` performs exactly the transition described by
//! the spec-level interpreter `step_spec`; the caller runs the loop,
//! emitting output bytes, supplying input bytes, and stopping on `Halt` or
//! on a `Fault` (all fatal conditions are explicit, never panics).

use vstd::prelude::*;
use crate::codec;
use crate::codec::{ra_of, rb_of, rc_of, rl_of, spec_op, vl_of, Field, Opcode, Umi};
use crate::machine::{MachineView, UM};
use crate::memops;
use crate::regops;

verus! {

/// A fatal condition: the run terminates abnormally and the machine state
/// is left exactly as it was before the faulting cycle.
#[derive(Debug, PartialEq, Eq, Structural, Copy, Clone)]
pub enum Fault {
    /// The opcode field decodes to a value with no defined operation.
    InvalidOpcode,
    /// A divide instruction whose divisor register holds 0.
    DivideByZero,
    /// An output instruction whose register value exceeds 255.
    OutputRange,
    /// A fetch, load, store or load-program addressing no currently
    /// allocated segment or no valid offset within one.
    BadAccess,
    /// Unmapping segment 0 or an id that is not currently allocated.
    BadUnmap,
    /// A fresh segment id would not fit in 32 bits.
    SegmentLimit,
}

/// What one cycle asks of the caller.
#[derive(Debug, PartialEq, Eq, Structural, Copy, Clone)]
pub enum Step {
    /// The cycle completed; fetch the next instruction.
    Continue,
    /// The halt instruction: stop, successfully.
    Halt,
    /// An output instruction: emit this byte, then continue.
    Output(u8),
    /// An input instruction: read one byte and hand it, or end-of-stream,
    /// to `memops::input` for the register with this index, then continue.
    NeedInput(usize),
    /// A fatal condition: stop, abnormally.
    Fault(Fault),
}

/// The transition for a decoded instruction `inst` with operation `o`,
/// from a state `s` whose instruction pointer still addresses `inst`.
/// Faults leave the state untouched.
pub open spec fn dispatch_spec(s: MachineView, inst: Umi, o: Opcode) -> (MachineView, Step) {
    let t = MachineView { ip: (s.ip + 1) as u32, ..s };
    let ra = ra_of(inst) as int;
    let rb = rb_of(inst) as int;
    let rc = rc_of(inst) as int;
    match o {
        Opcode::CMov => (
            (MachineView { regs: regops::cmove_spec(s.regs, ra, rb, rc), ..t }),
            Step::Continue,
        ),
        Opcode::Load => {
            let seg = s.regs[rb];
            let off = s.regs[rc];
            if seg < s.segments.len() && off < s.segments[seg as int].len() {
                (
                    (MachineView {
                        regs: s.regs.update(ra, s.segments[seg as int][off as int]),
                        ..t
                    }),
                    Step::Continue,
                )
            } else {
                (s, Step::Fault(Fault::BadAccess))
            }
        },
        Opcode::Store => {
            let seg = s.regs[ra];
            let off = s.regs[rb];
            if seg < s.segments.len() && off < s.segments[seg as int].len() {
                (
                    (MachineView {
                        segments: s.segments.update(
                            seg as int,
                            s.segments[seg as int].update(off as int, s.regs[rc]),
                        ),
                        ..t
                    }),
                    Step::Continue,
                )
            } else {
                (s, Step::Fault(Fault::BadAccess))
            }
        },
        Opcode::Add => (
            (MachineView { regs: s.regs.update(ra, regops::wrap_add(s.regs[rb], s.regs[rc])), ..t }),
            Step::Continue,
        ),
        Opcode::Mult => (
            (MachineView { regs: s.regs.update(ra, regops::wrap_mul(s.regs[rb], s.regs[rc])), ..t }),
            Step::Continue,
        ),
        Opcode::Div => {
            if s.regs[rc] == 0 {
                (s, Step::Fault(Fault::DivideByZero))
            } else {
                (
                    (MachineView {
                        regs: s.regs.update(ra, (s.regs[rb] / s.regs[rc]) as u32),
                        ..t
                    }),
                    Step::Continue,
                )
            }
        },
        Opcode::Nand => (
            (MachineView { regs: s.regs.update(ra, !(s.regs[rb] & s.regs[rc])), ..t }),
            Step::Continue,
        ),
        Opcode::Halt => (s, Step::Halt),
        Opcode::MapSeg => {
            if s.free.len() > 0 || s.segments.len() <= 0xFFFF_FFFF {
                (memops::map_spec(t, rb, rc), Step::Continue)
            } else {
                (s, Step::Fault(Fault::SegmentLimit))
            }
        },
        Opcode::UnmapSeg => {
            let id = s.regs[rc];
            if 0 < id < s.segments.len() && !s.free.contains(id) {
                (memops::unmap_spec(t, rc), Step::Continue)
            } else {
                (s, Step::Fault(Fault::BadUnmap))
            }
        },
        Opcode::Output => {
            if s.regs[rc] <= 255 {
                (t, Step::Output(s.regs[rc] as u8))
            } else {
                (s, Step::Fault(Fault::OutputRange))
            }
        },
        Opcode::Input => (t, Step::NeedInput(rc_of(inst) as usize)),
        Opcode::LoadProg => {
            let id = s.regs[rb];
            if id == 0 || (id < s.segments.len() && !s.free.contains(id)) {
                (memops::loadprog_spec(t, rb, rc), Step::Continue)
            } else {
                (s, Step::Fault(Fault::BadAccess))
            }
        },
        Opcode::LoadVal => (
            (MachineView { regs: s.regs.update(rl_of(inst) as int, vl_of(inst)), ..t }),
            Step::Continue,
        ),
    }
}

/// One full cycle from state `s`: fetch the word at segment 0, offset
/// `s.ip`; decode it; dispatch. An instruction pointer outside segment 0
/// and an undefined opcode are faults that leave the state untouched.
pub open spec fn step_spec(s: MachineView) -> (MachineView, Step) {
    if !(s.ip < s.segments[0].len()) {
        (s, Step::Fault(Fault::BadAccess))
    } else {
        let inst = s.segments[0][s.ip as int];
        match spec_op(inst) {
            Option::None => (s, Step::Fault(Fault::InvalidOpcode)),
            Option::Some(o) => dispatch_spec(s, inst, o),
        }
    }
}

/// Execute one fetch–decode–execute cycle: exactly the transition
/// `step_spec` describes on the machine's model.
pub fn step(m: &mut UM) -> (r: Step)
    requires
        old(m).wf(),
    ensures
        final(m).wf(),
        final(m)@ == step_spec(old(m)@).0,
        r == step_spec(old(m)@).1,
{
    let ghost s0 = m@;
    if !((m.inst_ptr as usize) < m.memvec[0].len()) {
        return Step::Fault(Fault::BadAccess);
    }
    let inst = m.get(0, m.inst_ptr);
    let o = match codec::op(inst) {
        None => {
            return Step::Fault(Fault::InvalidOpcode);
        },
        Some(o) => o,
    };
    proof {
        codec::lemma_field_bounds(inst);
    }
    let ra = codec::get(&Field { width: 3, lsb: 6 }, inst);
    let rb = codec::get(&Field { width: 3, lsb: 3 }, inst);
    let rc = codec::get(&Field { width: 3, lsb: 0 }, inst);
    match o {
        Opcode::CMov => {
            m.inst_ptr = m.inst_ptr + 1;
            regops::cmove(ra, rb, rc, &mut m.registers);
            proof {
                assert(m@ =~= step_spec(s0).0);
            }
            Step::Continue
        },
        Opcode::Load => {
            let seg = m.registers[rb];
            if !((seg as usize) < m.memvec.len()) {
                return Step::Fault(Fault::BadAccess);
            }
            let off = m.registers[rc];
            if !((off as usize) < m.memvec[seg as usize].len()) {
                return Step::Fault(Fault::BadAccess);
            }
            m.inst_ptr = m.inst_ptr + 1;
            memops::load(ra, rb, rc, m);
            proof {
                assert(m@ =~= step_spec(s0).0);
            }
            Step::Continue
        },
        Opcode::Store => {
            let seg = m.registers[ra];
            if !((seg as usize) < m.memvec.len()) {
                return Step::Fault(Fault::BadAccess);
            }
            let off = m.registers[rb];
            if !((off as usize) < m.memvec[seg as usize].len()) {
                return Step::Fault(Fault::BadAccess);
            }
            m.inst_ptr = m.inst_ptr + 1;
            memops::store(ra, rb, rc, m);
            proof {
                assert(m@ =~= step_spec(s0).0);
            }
            Step::Continue
        },
        Opcode::Add => {
            m.inst_ptr = m.inst_ptr + 1;
            regops::add(ra, rb, rc, &mut m.registers);
            proof {
                assert(m@ =~= step_spec(s0).0);
            }
            Step::Continue
        },
        Opcode::Mult => {
            m.inst_ptr = m.inst_ptr + 1;
            regops::mult(ra, rb, rc, &mut m.registers);
            proof {
                assert(m@ =~= step_spec(s0).0);
            }
            Step::Continue
        },
        Opcode::Div => {
            if m.registers[rc] == 0 {
                return Step::Fault(Fault::DivideByZero);
            }
            m.inst_ptr = m.inst_ptr + 1;
            regops::div(ra, rb, rc, &mut m.registers);
            proof {
                assert(m@ =~= step_spec(s0).0);
            }
            Step::Continue
        },
        Opcode::Nand => {
            m.inst_ptr = m.inst_ptr + 1;
            regops::nand(ra, rb, rc, &mut m.registers);
            proof {
                assert(m@ =~= step_spec(s0).0);
            }
            Step::Continue
        },
        Opcode::Halt => Step::Halt,
        Opcode::MapSeg => {
            if m.free.len() == 0 && !(m.memvec.len() <= 0xFFFF_FFFFusize) {
                return Step::Fault(Fault::SegmentLimit);
            }
            m.inst_ptr = m.inst_ptr + 1;
            memops::map(rb, rc, m);
            proof {
                assert(m@ =~= step_spec(s0).0);
            }
            Step::Continue
        },
        Opcode::UnmapSeg => {
            let id = m.registers[rc];
            if id == 0 || !((id as usize) < m.memvec.len()) || memops::contains_id(&m.free, id) {
                return Step::Fault(Fault::BadUnmap);
            }
            m.inst_ptr = m.inst_ptr + 1;
            memops::unmap(rc, m);
            proof {
                assert(m@ =~= step_spec(s0).0);
            }
            Step::Continue
        },
        Opcode::Output => {
            match memops::output(rc, &m.registers) {
                Some(byte) => {
                    m.inst_ptr = m.inst_ptr + 1;
                    proof {
                        assert(m@ =~= step_spec(s0).0);
                    }
                    Step::Output(byte)
                },
                None => Step::Fault(Fault::OutputRange),
            }
        },
        Opcode::Input => {
            m.inst_ptr = m.inst_ptr + 1;
            proof {
                assert(m@ =~= step_spec(s0).0);
            }
            Step::NeedInput(rc)
        },
        Opcode::LoadProg => {
            let id = m.registers[rb];
            if id != 0 && (!((id as usize) < m.memvec.len()) || memops::contains_id(&m.free, id)) {
                return Step::Fault(Fault::BadAccess);
            }
            memops::loadprog(rb, rc, m);
            proof {
                assert(m@ =~= step_spec(s0).0);
            }
            Step::Continue
        },
        Opcode::LoadVal => {
            let rl = codec::get(&Field { width: 3, lsb: 25 }, inst);
            let vl = codec::get(&Field { width: 25, lsb: 0 }, inst);
            m.inst_ptr = m.inst_ptr + 1;
            regops::loadval(rl, vl as u32, &mut m.registers);
            proof {
                assert(m@ =~= step_spec(s0).0);
            }
            Step::Continue
        },
    }
}

} // verus!
