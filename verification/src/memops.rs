//! Segmented-memory operations — segmented load and store, segment
//! allocation and deallocation, program load — and the computational halves
//! of the two console operations: range-checking an output word and
//! turning an input byte (or end of stream) into a register value.

use vstd::prelude::*;
use crate::codec::Umi;
use crate::machine::{zero_seq, MachineView, UM};

verus! {

broadcast use vstd::array::group_array_axioms;

/// Allocation at the level of the segment table and free list: reuse the
/// most recently freed id if one exists, resizing its (empty) segment to
/// `size` zero words; otherwise append a fresh segment. Yields the new
/// table, the new free list, and the id issued.
pub open spec fn alloc_spec(segments: Seq<Seq<Umi>>, free: Seq<Umi>, size: nat) -> (
    Seq<Seq<Umi>>,
    Seq<Umi>,
    Umi,
) {
    if free.len() > 0 {
        let id = free.last();
        (segments.update(id as int, zero_seq(size)), free.drop_last(), id)
    } else {
        (segments.push(zero_seq(size)), free, segments.len() as u32)
    }
}

/// Deallocation at the level of the segment table and free list: empty the
/// segment at `id` and push `id` on the free list.
pub open spec fn dealloc_spec(segments: Seq<Seq<Umi>>, free: Seq<Umi>, id: Umi) -> (
    Seq<Seq<Umi>>,
    Seq<Umi>,
) {
    (segments.update(id as int, Seq::empty()), free.push(id))
}

/// The machine after map-segment: a segment of `regs[rc]` zero words is
/// allocated and its id is placed in register `rb`.
pub open spec fn map_spec(s: MachineView, rb: int, rc: int) -> MachineView {
    let (segments, free, id) = alloc_spec(s.segments, s.free, s.regs[rc] as nat);
    MachineView { segments, free, regs: s.regs.update(rb, id), ..s }
}

/// The machine after unmap-segment: the segment whose id is in register
/// `rc` is emptied and its id recycled.
pub open spec fn unmap_spec(s: MachineView, rc: int) -> MachineView {
    let (segments, free) = dealloc_spec(s.segments, s.free, s.regs[rc]);
    MachineView { segments, free, ..s }
}

/// The machine after load-program: if register `rb` names a segment other
/// than 0, segment 0 is replaced by a copy of it; either way the
/// instruction pointer is set to the value of register `rc`.
pub open spec fn loadprog_spec(s: MachineView, rb: int, rc: int) -> MachineView {
    let id = s.regs[rb];
    let target = s.regs[rc];
    if id == 0 {
        MachineView { ip: target, ..s }
    } else {
        MachineView { segments: s.segments.update(0, s.segments[id as int]), ip: target, ..s }
    }
}

/// The value an input byte leaves in the destination register: the byte
/// zero-extended, or the all-ones end-of-stream sentinel.
pub open spec fn input_word(byte: Option<u8>) -> Umi {
    match byte {
        Some(b) => b as u32,
        None => 0xFFFF_FFFFu32,
    }
}

/// The byte emitted for an output word: defined exactly when the word is
/// in 0..=255; anything larger is a fatal condition.
pub open spec fn output_byte(v: Umi) -> Option<u8> {
    if v <= 255 {
        Some(v as u8)
    } else {
        None
    }
}

/// Whether `id` occurs in the free list.
pub fn contains_id(ids: &Vec<Umi>, id: Umi) -> (r: bool)
    ensures
        r == ids@.contains(id),
{
    let mut k: usize = 0;
    while k < ids.len()
        invariant
            k <= ids@.len(),
            forall|j: int| 0 <= j < k ==> ids@[j] != id,
        decreases ids@.len() - k,
    {
        if ids[k] == id {
            return true;
        }
        k += 1;
    }
    false
}

/// A zero-initialized segment of `n` words.
fn zero_segment(n: usize) -> (v: Vec<Umi>)
    ensures
        v@ == zero_seq(n as nat),
{
    let mut v: Vec<Umi> = Vec::new();
    while v.len() < n
        invariant
            v@.len() <= n,
            forall|j: int| 0 <= j < v@.len() ==> v@[j] == 0u32,
        decreases n - v@.len(),
    {
        v.push(0);
    }
    proof {
        assert(v@ =~= zero_seq(n as nat));
    }
    v
}

/// Segmented load: set register `ra` to the word at offset `regs[rc]`
/// within the segment whose id is in register `rb`. The caller guarantees
/// the coordinates are in bounds.
pub fn load(ra: usize, rb: usize, rc: usize, memory: &mut UM)
    requires
        old(memory).wf(),
        ra < 8,
        rb < 8,
        rc < 8,
        old(memory)@.regs[rb as int] < old(memory)@.segments.len(),
        old(memory)@.regs[rc as int] < old(memory)@.segments[old(memory)@.regs[rb as int] as int].len(),
    ensures
        final(memory).wf(),
        final(memory)@ == (MachineView {
            regs: old(memory)@.regs.update(
                ra as int,
                old(memory)@.segments[old(memory)@.regs[rb as int] as int][old(memory)@.regs[rc as int] as int],
            ),
            ..old(memory)@
        }),
{
    let word = memory.get(memory.registers[rb], memory.registers[rc]);
    memory.registers[ra] = word;
    proof {
        assert(memory@ =~= (MachineView {
            regs: old(memory)@.regs.update(
                ra as int,
                old(memory)@.segments[old(memory)@.regs[rb as int] as int][old(memory)@.regs[rc as int] as int],
            ),
            ..old(memory)@
        }));
    }
}

/// Segmented store: write the value of register `rc` at offset `regs[rb]`
/// within the segment whose id is in register `ra`. The caller guarantees
/// the coordinates are in bounds.
pub fn store(ra: usize, rb: usize, rc: usize, memory: &mut UM)
    requires
        old(memory).wf(),
        ra < 8,
        rb < 8,
        rc < 8,
        old(memory)@.regs[ra as int] < old(memory)@.segments.len(),
        old(memory)@.regs[rb as int] < old(memory)@.segments[old(memory)@.regs[ra as int] as int].len(),
    ensures
        final(memory).wf(),
        final(memory)@ == (MachineView {
            segments: old(memory)@.segments.update(
                old(memory)@.regs[ra as int] as int,
                old(memory)@.segments[old(memory)@.regs[ra as int] as int].update(
                    old(memory)@.regs[rb as int] as int,
                    old(memory)@.regs[rc as int],
                ),
            ),
            ..old(memory)@
        }),
{
    memory.set(memory.registers[ra], memory.registers[rb], memory.registers[rc]);
}

/// Map-segment: allocate a zero-initialized segment of `regs[rc]` words,
/// reusing the most recently freed id if any, and put its id in register
/// `rb`. The id-space bound in `requires` is a machine limit: a fresh id
/// must fit in 32 bits.
pub fn map(rb: usize, rc: usize, memory: &mut UM)
    requires
        old(memory).wf(),
        rb < 8,
        rc < 8,
        old(memory)@.free.len() == 0 ==> old(memory)@.segments.len() <= 0xFFFF_FFFF,
    ensures
        final(memory).wf(),
        final(memory)@ == map_spec(old(memory)@, rb as int, rc as int),
{
    let size = memory.registers[rc] as usize;
    let seg = zero_segment(size);
    if memory.free.len() == 0 {
        memory.memvec.push(seg);
        memory.registers[rb] = (memory.memvec.len() - 1) as u32;
        proof {
            assert(memory@.segments =~= old(memory)@.segments.push(
                zero_seq(old(memory)@.regs[rc as int] as nat),
            ));
            assert(memory@ =~= map_spec(old(memory)@, rb as int, rc as int));
        }
    } else {
        let index = memory.free.pop().unwrap();
        memory.memvec[index as usize] = seg;
        memory.registers[rb] = index;
        proof {
            assert(memory@.segments =~= old(memory)@.segments.update(
                old(memory)@.free.last() as int,
                zero_seq(old(memory)@.regs[rc as int] as nat),
            ));
            assert(memory@.free =~= old(memory)@.free.drop_last());
            assert(memory@ =~= map_spec(old(memory)@, rb as int, rc as int));
        }
    }
}

/// Unmap-segment: recycle the segment whose id is in register `rc`. The
/// caller guarantees the id names an allocated segment other than 0.
pub fn unmap(rc: usize, memory: &mut UM)
    requires
        old(memory).wf(),
        rc < 8,
        0 < old(memory)@.regs[rc as int] < old(memory)@.segments.len(),
        !old(memory)@.free.contains(old(memory)@.regs[rc as int]),
    ensures
        final(memory).wf(),
        final(memory)@ == unmap_spec(old(memory)@, rc as int),
{
    let index = memory.registers[rc];
    memory.free(index);
    proof {
        assert(memory@ =~= unmap_spec(old(memory)@, rc as int));
    }
}

/// Load-program: if register `rb` names a segment other than 0, replace
/// segment 0 wholesale with a copy of that segment; unconditionally set
/// the instruction pointer to the value of register `rc`. When `rb`
/// resolves to 0 the contents of segment 0 are left untouched and only the
/// instruction pointer moves.
pub fn loadprog(rb: usize, rc: usize, memory: &mut UM)
    requires
        old(memory).wf(),
        rb < 8,
        rc < 8,
        old(memory)@.regs[rb as int] < old(memory)@.segments.len(),
    ensures
        final(memory).wf(),
        final(memory)@ == loadprog_spec(old(memory)@, rb as int, rc as int),
{
    let index = memory.registers[rb];
    let target = memory.registers[rc];
    if index != 0 {
        let mut prog: Vec<Umi> = Vec::new();
        let source = &memory.memvec[index as usize];
        let mut k: usize = 0;
        while k < source.len()
            invariant
                k <= source@.len(),
                prog@ == source@.subrange(0, k as int),
            decreases source@.len() - k,
        {
            prog.push(source[k]);
            proof {
                assert(prog@ =~= source@.subrange(0, k + 1));
            }
            k += 1;
        }
        proof {
            assert(prog@ =~= old(memory)@.segments[index as int]);
        }
        memory.memvec[0] = prog;
    }
    memory.inst_ptr = target;
    proof {
        if old(memory)@.regs[rb as int] != 0 {
            assert(memory@.segments =~= old(memory)@.segments.update(
                0,
                old(memory)@.segments[old(memory)@.regs[rb as int] as int],
            ));
        }
        assert(memory@ =~= loadprog_spec(old(memory)@, rb as int, rc as int));
    }
}

/// The computational half of the output operation: the byte to emit for
/// the word in register `rc`, or `None` when the word exceeds 255, which
/// the machine defines as fatal.
pub fn output(rc: usize, registers: &[Umi; 8]) -> (r: Option<u8>)
    requires
        rc < 8,
    ensures
        r == output_byte(registers@[rc as int]),
{
    if registers[rc] <= 255 {
        Some(registers[rc] as u8)
    } else {
        None
    }
}

/// The register half of the input operation: store the byte read from the
/// input stream in register `rc`, zero-extended; on end of stream
/// (`None`), store the all-ones sentinel.
pub fn input(rc: usize, byte: Option<u8>, registers: &mut [Umi; 8])
    requires
        rc < 8,
    ensures
        final(registers)@ == old(registers)@.update(rc as int, input_word(byte)),
{
    match byte {
        Some(b) => {
            registers[rc] = b as u32;
        }
        None => {
            registers[rc] = u32::MAX;
        }
    }
}

/// Load-program redirect asymmetry: when the replace register resolves to
/// segment id 0, the contents of every segment — segment 0 included — are
/// left unchanged, and so are the registers and the free list, yet the
/// instruction pointer still jumps to the target register's value.
pub proof fn lemma_loadprog_redirect(s: MachineView, rb: int, rc: int)
    requires
        0 <= rb < s.regs.len(),
        0 <= rc < s.regs.len(),
        s.regs[rb] == 0,
    ensures
        loadprog_spec(s, rb, rc).segments == s.segments,
        loadprog_spec(s, rb, rc).regs == s.regs,
        loadprog_spec(s, rb, rc).free == s.free,
        loadprog_spec(s, rb, rc).ip == s.regs[rc],
{
}

/// Free-list discipline: segment ids are reused in last-freed,
/// first-reused order. After deallocating id `x` and then id `y`, the next
/// allocation is issued `y` and the one after it `x`, whatever sizes are
/// requested.
pub proof fn lemma_lifo_reuse(
    segments: Seq<Seq<Umi>>,
    free: Seq<Umi>,
    x: Umi,
    y: Umi,
    n1: nat,
    n2: nat,
)
    ensures
        ({
            let (s1, f1) = dealloc_spec(segments, free, x);
            let (s2, f2) = dealloc_spec(s1, f1, y);
            let (s3, f3, id1) = alloc_spec(s2, f2, n1);
            let (s4, f4, id2) = alloc_spec(s3, f3, n2);
            id1 == y && id2 == x
        }),
{
    let (s1, f1) = dealloc_spec(segments, free, x);
    let (s2, f2) = dealloc_spec(s1, f1, y);
    let (s3, f3, id1) = alloc_spec(s2, f2, n1);
    assert(f2 == free.push(x).push(y));
    assert(f2.last() == y);
    assert(f3 =~= free.push(x));
}

} // verus!
