//! The machine state: the segment table, the free list of recycled segment
//! ids, the eight-register file, and the instruction pointer; together with
//! the mathematical model (`MachineView`) that all contracts speak of, and
//! the well-formedness invariant the execution engine preserves.

use vstd::prelude::*;
use crate::codec::Umi;

verus! {

broadcast use vstd::array::group_array_axioms;

/// The mathematical model of the machine: segment contents as sequences of
/// words, the stack of recycled segment ids, the register file, and the
/// instruction pointer.
#[verifier::ext_equal]
pub ghost struct MachineView {
    pub segments: Seq<Seq<Umi>>,
    pub free: Seq<Umi>,
    pub regs: Seq<Umi>,
    pub ip: Umi,
}

/// A zero-initialized segment of `n` words.
pub open spec fn zero_seq(n: nat) -> Seq<Umi> {
    Seq::new(n, |i: int| 0u32)
}

impl MachineView {
    /// Well-formedness: segment 0 exists, every segment is addressable by a
    /// 32-bit offset, the table never outgrows the 32-bit id space, and every
    /// id on the free list is a valid, non-zero id held exactly once whose
    /// segment is empty.
    pub open spec fn wf(self) -> bool {
        &&& self.regs.len() == 8
        &&& 1 <= self.segments.len() <= 0x1_0000_0000
        &&& forall|i: int|
            0 <= i < self.segments.len() ==> (#[trigger] self.segments[i]).len() <= 0xFFFF_FFFF
        &&& forall|i: int|
            0 <= i < self.free.len() ==> 0 < #[trigger] self.free[i] < self.segments.len()
        &&& forall|i: int|
            0 <= i < self.free.len() ==> (#[trigger] self.segments[self.free[i] as int]).len() == 0
        &&& forall|i: int, j: int|
            0 <= i < j < self.free.len() ==> self.free[i] != self.free[j]
    }
}

/// The machine: a segment table (`memvec`), the free list of recycled
/// segment ids, the eight registers, and the instruction pointer.
#[derive(Debug, Clone)]
pub struct UM {
    pub memvec: Vec<Vec<Umi>>,
    pub free: Vec<Umi>,
    pub registers: [Umi; 8],
    pub inst_ptr: Umi,
}

/// The contents of each segment in the table, as sequences of words.
pub open spec fn table_view(memvec: Seq<Vec<Umi>>) -> Seq<Seq<Umi>> {
    Seq::new(memvec.len(), |i: int| memvec[i]@)
}

impl View for UM {
    type V = MachineView;

    open spec fn view(&self) -> MachineView {
        MachineView {
            segments: table_view(self.memvec@),
            free: self.free@,
            regs: self.registers@,
            ip: self.inst_ptr,
        }
    }
}

impl UM {
    /// Well-formedness of the concrete state: its model is well-formed.
    pub open spec fn wf(&self) -> bool {
        self@.wf()
    }

    /// Create a machine whose segment 0 holds the boot program, with an
    /// empty free list and all registers and the instruction pointer zero.
    pub fn new(instructions: Vec<u32>) -> (r: UM)
        requires
            instructions@.len() <= 0xFFFF_FFFF,
        ensures
            r.wf(),
            r@ == (MachineView {
                segments: seq![instructions@],
                free: Seq::empty(),
                regs: zero_seq(8),
                ip: 0u32,
            }),
    {
        let r = UM { memvec: vec![instructions], free: vec![], registers: [0; 8], inst_ptr: 0 };
        proof {
            assert(r@.segments =~= seq![instructions@]);
            assert(r@.regs =~= zero_seq(8));
            assert(r@ =~= (MachineView {
                segments: seq![instructions@],
                free: Seq::empty(),
                regs: zero_seq(8),
                ip: 0u32,
            }));
        }
        r
    }

    /// Recycle a segment id: empty the segment and push the id on the free
    /// list. The caller must not recycle segment 0 or an id that is free
    /// already.
    pub fn free(&mut self, index: Umi)
        requires
            old(self).wf(),
            0 < index < old(self)@.segments.len(),
            !old(self)@.free.contains(index),
        ensures
            final(self).wf(),
            final(self)@ == (MachineView {
                segments: old(self)@.segments.update(index as int, Seq::empty()),
                free: old(self)@.free.push(index),
                ..old(self)@
            }),
    {
        self.memvec[index as usize] = Vec::new();
        self.free.push(index);
        proof {
            assert(self@.segments =~= old(self)@.segments.update(index as int, Seq::<Umi>::empty()));
            assert(self@ =~= (MachineView {
                segments: old(self)@.segments.update(index as int, Seq::empty()),
                free: old(self)@.free.push(index),
                ..old(self)@
            }));
        }
    }

    /// The word at `offset` within the segment at `index`; the caller
    /// guarantees both are in bounds.
    pub fn get(&self, index: Umi, offset: Umi) -> (r: Umi)
        requires
            index < self@.segments.len(),
            offset < self@.segments[index as int].len(),
        ensures
            r == self@.segments[index as int][offset as int],
    {
        self.memvec[index as usize][offset as usize]
    }

    /// Store `value` at `offset` within the segment at `index`; the caller
    /// guarantees both are in bounds.
    pub fn set(&mut self, index: Umi, offset: Umi, value: Umi)
        requires
            old(self).wf(),
            index < old(self)@.segments.len(),
            offset < old(self)@.segments[index as int].len(),
        ensures
            final(self).wf(),
            final(self)@ == (MachineView {
                segments: old(self)@.segments.update(
                    index as int,
                    old(self)@.segments[index as int].update(offset as int, value),
                ),
                ..old(self)@
            }),
    {
        self.memvec[index as usize][offset as usize] = value;
        proof {
            assert(self@.segments =~= old(self)@.segments.update(
                index as int,
                old(self)@.segments[index as int].update(offset as int, value),
            ));
            assert(self@ =~= (MachineView {
                segments: old(self)@.segments.update(
                    index as int,
                    old(self)@.segments[index as int].update(offset as int, value),
                ),
                ..old(self)@
            }));
        }
    }
}

} // verus!
