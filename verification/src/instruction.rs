//! The per-frame instruction buffer: a growing store of bytes and the draw
//! instructions that point into it.

use crate::backend::{ColorIntegerSize, DrawOp, Execute};
use vstd::prelude::*;
use vstd::slice::slice_subrange;
use vstd::utf8::valid_utf8;

verus! {

/// A cell of the grid: column, then row.
pub type Target = (usize, usize);

/// How often the stored span of an instruction is placed.
#[derive(Clone, Copy, Debug, PartialEq, Eq, Structural)]
pub enum InstructionModifier {
    /// Once, at the target.
    SI,
    /// On this many consecutive rows, the first one the target's.
    SIM(usize),
}

/// One queued draw: where, which bytes of the store, in which colour, how often.
#[derive(Clone, Copy, Debug, PartialEq, Eq)]
pub struct Instruction {
    pub target: Target,
    pub offset: usize,
    pub length: usize,
    pub color: ColorIntegerSize,
    pub modifier: InstructionModifier,
}

/// `bytes` written out `n` times in a row.
pub open spec fn repeated(bytes: Seq<u8>, n: nat) -> Seq<u8>
    decreases n,
{
    if n == 0 {
        Seq::empty()
    } else {
        repeated(bytes, (n - 1) as nat) + bytes
    }
}

/// The requests that place `bytes` on `n` consecutive rows from `(x, y)` down:
/// for each row a cursor move, then the draw.
pub open spec fn rows(x: int, y: int, bytes: Seq<u8>, color: ColorIntegerSize, n: nat) -> Seq<
    DrawOp,
>
    decreases n,
{
    if n == 0 {
        Seq::empty()
    } else {
        rows(x, y, bytes, color, (n - 1) as nat).push(DrawOp::Cursor { x, y: y + n - 1 }).push(
            DrawOp::Blob { bytes, color },
        )
    }
}

/// What an instruction buffer holds: the byte store and the instruction list.
pub struct Program {
    pub blob: Seq<u8>,
    pub inst: Seq<Instruction>,
}

impl Program {
    /// The buffer of a frame in which nothing was queued yet.
    pub open spec fn empty() -> Program {
        Program { blob: Seq::empty(), inst: Seq::empty() }
    }

    /// The bytes that `ins` points at.
    pub open spec fn span(self, ins: Instruction) -> Seq<u8> {
        self.blob.subrange(ins.offset as int, ins.offset + ins.length)
    }

    /// `ins` points inside the store, at well-formed UTF-8, and every row it
    /// will be placed on has a number.
    pub open spec fn instruction_wf(self, ins: Instruction) -> bool {
        &&& ins.offset + ins.length <= self.blob.len()
        &&& valid_utf8(self.span(ins))
        &&& match ins.modifier {
            InstructionModifier::SI => true,
            InstructionModifier::SIM(n) => ins.target.1 + n <= usize::MAX,
        }
    }

    /// The store has a length that a machine integer holds, and every
    /// instruction is well formed.
    pub open spec fn wf(self) -> bool {
        &&& self.blob.len() <= usize::MAX
        &&& forall|i: int|
            0 <= i < self.inst.len() ==> self.instruction_wf(#[trigger] self.inst[i])
    }

    /// The buffer after `bytes` were appended to the store and one instruction
    /// pointing at exactly them was added to the list.
    pub open spec fn emitted(
        self,
        bytes: Seq<u8>,
        target: Target,
        color: ColorIntegerSize,
        modifier: InstructionModifier,
    ) -> Program {
        Program {
            blob: self.blob + bytes,
            inst: self.inst.push(
                Instruction {
                    target,
                    offset: self.blob.len() as usize,
                    length: bytes.len() as usize,
                    color,
                    modifier,
                },
            ),
        }
    }

    /// The requests that replaying `ins` makes.
    pub open spec fn instruction_ops(self, ins: Instruction) -> Seq<DrawOp> {
        match ins.modifier {
            InstructionModifier::SI => seq![
                DrawOp::Cursor { x: ins.target.0 as int, y: ins.target.1 as int },
                DrawOp::Blob { bytes: self.span(ins), color: ins.color },
            ],
            InstructionModifier::SIM(n) => rows(
                ins.target.0 as int,
                ins.target.1 as int,
                self.span(ins),
                ins.color,
                n as nat,
            ),
        }
    }

    /// The requests that replaying the first `n` instructions makes.
    pub open spec fn body(self, n: nat) -> Seq<DrawOp>
        decreases n,
    {
        if n == 0 {
            Seq::empty()
        } else {
            self.body((n - 1) as nat) + self.instruction_ops(self.inst[n - 1])
        }
    }

    /// Everything that one replay asks of the backend: each instruction in
    /// turn, then a single flush.
    pub open spec fn ops(self) -> Seq<DrawOp> {
        self.body(self.inst.len()).push(DrawOp::Flush)
    }
}

/// `bytes` repeated is as long as the product says.
pub proof fn repeated_len(bytes: Seq<u8>, n: nat)
    ensures
        repeated(bytes, n).len() == bytes.len() * n,
    decreases n,
{
    if n > 0 {
        repeated_len(bytes, (n - 1) as nat);
        assert(bytes.len() * n == bytes.len() * (n - 1) + bytes.len()) by (nonlinear_arith);
    } else {
        assert(bytes.len() * n == 0) by (nonlinear_arith)
            requires
                n == 0,
        ;
    }
}

/// Well-formed UTF-8 repeated is well-formed UTF-8.
pub proof fn repeated_valid_utf8(bytes: Seq<u8>, n: nat)
    requires
        valid_utf8(bytes),
    ensures
        valid_utf8(repeated(bytes, n)),
    decreases n,
{
    if n == 0 {
        assert(valid_utf8(Seq::<u8>::empty()));
    } else {
        repeated_valid_utf8(bytes, (n - 1) as nat);
        vstd::utf8::valid_utf8_concat(repeated(bytes, (n - 1) as nat), bytes);
    }
}

/// One copy is the bytes themselves.
pub proof fn repeated_once(bytes: Seq<u8>)
    ensures
        repeated(bytes, 1) == bytes,
{
    assert(repeated(bytes, 0) == Seq::<u8>::empty());
    assert(repeated(bytes, 1) == repeated(bytes, 0) + bytes);
    assert(repeated(bytes, 1) =~= bytes);
}

/// Placing on `n` rows asks for `n` cursor moves, to `(x, y)`, `(x, y + 1)` and
/// so on, each followed by a draw of the same bytes in the same colour.
pub proof fn rows_shape(x: int, y: int, bytes: Seq<u8>, color: ColorIntegerSize, n: nat)
    ensures
        rows(x, y, bytes, color, n).len() == 2 * n,
        (forall|i: int|
            0 <= i < n ==> {
                &&& #[trigger] rows(x, y, bytes, color, n)[2 * i] == (DrawOp::Cursor { x, y: y + i })
                &&& rows(x, y, bytes, color, n)[2 * i + 1] == (DrawOp::Blob { bytes, color })
            }),
    decreases n,
{
    if n > 0 {
        rows_shape(x, y, bytes, color, (n - 1) as nat);
        let shorter = rows(x, y, bytes, color, (n - 1) as nat);
        let all = rows(x, y, bytes, color, n);
        assert forall|i: int| 0 <= i < n implies {
            &&& #[trigger] all[2 * i] == (DrawOp::Cursor { x, y: y + i })
            &&& all[2 * i + 1] == (DrawOp::Blob { bytes, color })
        } by {
            if i < n - 1 {
                assert(all[2 * i] == shorter[2 * i]);
                assert(all[2 * i + 1] == shorter[2 * i + 1]);
            }
        }
    }
}

/// Placing never asks for a flush.
pub proof fn rows_never_flush(x: int, y: int, bytes: Seq<u8>, color: ColorIntegerSize, n: nat)
    ensures
        forall|i: int|
            0 <= i < rows(x, y, bytes, color, n).len() ==> !(#[trigger] rows(
                x,
                y,
                bytes,
                color,
                n,
            )[i] is Flush),
    decreases n,
{
    if n > 0 {
        rows_never_flush(x, y, bytes, color, (n - 1) as nat);
    }
}

/// No instruction asks for a flush.
pub proof fn body_never_flushes(p: Program, n: nat)
    ensures
        forall|i: int| 0 <= i < p.body(n).len() ==> !(#[trigger] p.body(n)[i] is Flush),
    decreases n,
{
    if n > 0 {
        body_never_flushes(p, (n - 1) as nat);
        let ins = p.inst[n - 1];
        match ins.modifier {
            InstructionModifier::SI => {},
            InstructionModifier::SIM(l) => {
                rows_never_flush(
                    ins.target.0 as int,
                    ins.target.1 as int,
                    p.span(ins),
                    ins.color,
                    l as nat,
                );
            },
        }
    }
}

/// Queuing one more instruction changes nothing of what the earlier ones ask
/// for.
pub proof fn emitted_keeps_body(
    p: Program,
    bytes: Seq<u8>,
    target: Target,
    color: ColorIntegerSize,
    modifier: InstructionModifier,
    n: nat,
)
    requires
        p.wf(),
        n <= p.inst.len(),
    ensures
        p.emitted(bytes, target, color, modifier).body(n) == p.body(n),
    decreases n,
{
    if n > 0 {
        emitted_keeps_body(p, bytes, target, color, modifier, (n - 1) as nat);
        let q = p.emitted(bytes, target, color, modifier);
        let ins = p.inst[n - 1];
        assert(q.inst[n - 1] == ins);
        assert(p.instruction_wf(ins));
        assert(q.span(ins) =~= p.span(ins));
    }
}

/// What a replay asks for after one more instruction was queued: what the
/// earlier instructions ask for, then the new one's placements of exactly the
/// bytes that were queued, then the flush.
pub proof fn emitted_ops(
    p: Program,
    bytes: Seq<u8>,
    target: Target,
    color: ColorIntegerSize,
    modifier: InstructionModifier,
)
    requires
        p.wf(),
        p.blob.len() + bytes.len() <= usize::MAX,
    ensures
        ({
            let q = p.emitted(bytes, target, color, modifier);
            &&& q.span(q.inst.last()) == bytes
            &&& q.ops() == (p.body(p.inst.len()) + (match modifier {
                InstructionModifier::SI => seq![
                    DrawOp::Cursor { x: target.0 as int, y: target.1 as int },
                    DrawOp::Blob { bytes, color },
                ],
                InstructionModifier::SIM(n) => rows(
                    target.0 as int,
                    target.1 as int,
                    bytes,
                    color,
                    n as nat,
                ),
            })).push(DrawOp::Flush)
        }),
{
    let q = p.emitted(bytes, target, color, modifier);
    emitted_keeps_body(p, bytes, target, color, modifier, p.inst.len());
    assert(q.span(q.inst.last()) =~= bytes);
    assert(q.body(q.inst.len()) == q.body(p.inst.len()) + q.instruction_ops(q.inst.last()));
}

/// A replay asks for exactly one flush, and asks for it last.
pub proof fn one_flush_per_replay(p: Program)
    ensures
        p.ops().last() is Flush,
        forall|i: int| 0 <= i < p.ops().len() - 1 ==> !(#[trigger] p.ops()[i] is Flush),
{
    body_never_flushes(p, p.inst.len());
    assert forall|i: int| 0 <= i < p.ops().len() - 1 implies !(#[trigger] p.ops()[i] is Flush) by {
        assert(p.ops()[i] == p.body(p.inst.len())[i]);
    }
}

/// The byte store of one frame and the instructions queued in it.
pub struct InstructionTable {
    blob: Vec<u8>,
    inst: Vec<Instruction>,
}

impl View for InstructionTable {
    type V = Program;

    closed spec fn view(&self) -> Program {
        Program { blob: self.blob@, inst: self.inst@ }
    }
}

impl InstructionTable {
    /// A buffer with nothing queued.
    pub fn new() -> (r: Self)
        ensures
            r@ == Program::empty(),
            r@.wf(),
    {
        InstructionTable { blob: Vec::new(), inst: Vec::new() }
    }

    /// The instruction list, for inspection.
    pub fn instructions(&self) -> (r: &Vec<Instruction>)
        ensures
            r@ == self@.inst,
    {
        &self.inst
    }

    /// The byte store, for inspection.
    pub fn bytes(&self) -> (r: &Vec<u8>)
        ensures
            r@ == self@.blob,
    {
        &self.blob
    }

    /// Appends `copies` copies of `into` to the store and queues one
    /// instruction that points at the whole run.
    pub fn emit(
        &mut self,
        into: &[u8],
        x: usize,
        y: usize,
        color: ColorIntegerSize,
        copies: usize,
        modifier: InstructionModifier,
    )
        requires
            old(self)@.wf(),
            valid_utf8(into@),
            into@.len() * copies <= usize::MAX,
            modifier matches InstructionModifier::SIM(n) ==> y + n <= usize::MAX,
        ensures
            final(self)@ == old(self)@.emitted(repeated(into@, copies as nat), (x, y), color, modifier),
            final(self)@.wf(),
    {
        let offset = self.blob.len();
        proof {
            assert(into@.len() * copies <= usize::MAX);
        }
        let length: usize = into.len() * copies;
        let mut k: usize = 0;
        while k < copies
            invariant
                k <= copies,
                self.inst@ == old(self).inst@,
                self.blob@ == old(self).blob@ + repeated(into@, k as nat),
            decreases copies - k,
        {
            self.blob.extend_from_slice(into);
            k += 1;
            proof {
                assert(self.blob@ =~= old(self).blob@ + repeated(into@, k as nat));
            }
        }
        self.inst.push(Instruction { target: (x, y), offset, length, color, modifier });
        proof {
            let bytes = repeated(into@, copies as nat);
            repeated_len(into@, copies as nat);
            repeated_valid_utf8(into@, copies as nat);
            let before = old(self)@;
            let after = self@;
            assert(after == before.emitted(bytes, (x, y), color, modifier));
            assert(self.blob.len() <= usize::MAX);
            assert forall|i: int| 0 <= i < after.inst.len() implies after.instruction_wf(
                #[trigger] after.inst[i],
            ) by {
                let ins = after.inst[i];
                if i < before.inst.len() {
                    assert(before.instruction_wf(before.inst[i]));
                    assert(after.span(ins) =~= before.span(ins));
                } else {
                    assert(after.span(ins) =~= bytes);
                }
            }
        }
    }
    /// Queues one placement of `into` at `(x, y)`.
    pub fn si_blob(&mut self, into: &[u8], x: usize, y: usize, color: ColorIntegerSize)
        requires
            old(self)@.wf(),
            valid_utf8(into@),
        ensures
            final(self)@ == old(self)@.emitted(into@, (x, y), color, InstructionModifier::SI),
            final(self)@.wf(),
    {
        let once: usize = into.len();
        proof {
            repeated_once(into@);
            assert(into@.len() * 1 == once) by (nonlinear_arith)
                requires
                    into@.len() == once,
            ;
        }
        self.emit(into, x, y, color, 1, InstructionModifier::SI);
    }

    /// Queues `into` once in the store, to be placed on `l` consecutive rows
    /// from `(x, y)` down.
    pub fn sim_blob(&mut self, into: &[u8], x: usize, y: usize, color: ColorIntegerSize, l: usize)
        requires
            old(self)@.wf(),
            valid_utf8(into@),
            y + l <= usize::MAX,
        ensures
            final(self)@ == old(self)@.emitted(into@, (x, y), color, InstructionModifier::SIM(l)),
            final(self)@.wf(),
    {
        let once: usize = into.len();
        proof {
            repeated_once(into@);
            assert(into@.len() * 1 == once) by (nonlinear_arith)
                requires
                    into@.len() == once,
            ;
        }
        self.emit(into, x, y, color, 1, InstructionModifier::SIM(l));
    }

    /// Queues `l` copies of `into`, written out side by side in the store, as
    /// one single placement at `(x, y)`.
    pub fn fake_sim(&mut self, into: &[u8], x: usize, y: usize, color: ColorIntegerSize, l: usize)
        requires
            old(self)@.wf(),
            valid_utf8(into@),
            into@.len() * l <= usize::MAX,
        ensures
            final(self)@ == old(self)@.emitted(
                repeated(into@, l as nat),
                (x, y),
                color,
                InstructionModifier::SI,
            ),
            final(self)@.wf(),
    {
        self.emit(into, x, y, color, l, InstructionModifier::SI);
    }

    /// Forgets every instruction and every byte.
    pub fn clear(&mut self)
        ensures
            final(self)@ == Program::empty(),
            final(self)@.wf(),
    {
        self.inst.clear();
        self.blob.clear();
    }

    /// Replays the buffer through a backend: every instruction in the order
    /// it was queued, a cursor move before each draw, and one flush at the end.
    /// The buffer itself is only read.
    pub fn execute<I, E: Execute<I>>(&self, interface: &mut I)
        requires
            self@.wf(),
        ensures
            E::issued(final(interface)) == E::issued(old(interface)) + self@.ops(),
    {
        let ghost start = E::issued(interface);
        let blob = self.blob.as_slice();
        let stored: usize = blob.len();
        let mut k: usize = 0;
        while k < self.inst.len()
            invariant
                k <= self.inst.len(),
                self@.wf(),
                blob@ == self@.blob,
                blob@.len() == stored,
                E::issued(interface) == start + self@.body(k as nat),
            decreases self.inst.len() - k,
        {
            let ins = self.inst[k];
            assert(self@.instruction_wf(self@.inst[k as int]));
            let bytes = slice_subrange(blob, ins.offset, ins.offset + ins.length);
            let ghost before = E::issued(interface);
            match ins.modifier {
                InstructionModifier::SI => {
                    E::cursor(ins.target.0, ins.target.1, interface);
                    E::blob(bytes, ins.color, interface);
                    assert(E::issued(interface) =~= before + self@.instruction_ops(ins));
                },
                InstructionModifier::SIM(l) => {
                    let mut i: usize = 0;
                    while i < l
                        invariant
                            i <= l,
                            ins.target.1 + l <= usize::MAX,
                            bytes@ == self@.span(ins),
                            valid_utf8(bytes@),
                            E::issued(interface) == before + rows(
                                ins.target.0 as int,
                                ins.target.1 as int,
                                bytes@,
                                ins.color,
                                i as nat,
                            ),
                        decreases l - i,
                    {
                        E::cursor(ins.target.0, ins.target.1 + i, interface);
                        E::blob(bytes, ins.color, interface);
                        i += 1;
                        assert(E::issued(interface) =~= before + rows(
                            ins.target.0 as int,
                            ins.target.1 as int,
                            bytes@,
                            ins.color,
                            i as nat,
                        ));
                    }
                },
            }
            k += 1;
            assert(E::issued(interface) =~= start + self@.body(k as nat));
        }
        E::flush(interface);
        assert(E::issued(interface) =~= start + self@.ops());
    }
}

} // verus!
