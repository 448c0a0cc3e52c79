//! What holds of the engine whatever is declared and written: the laws that
//! tie the region table, the writes and the replay together.

use crate::backend::{ColorIntegerSize, DrawOp};
use crate::geometry::{spec_in_range_range, Range};
use crate::instruction::{
    emitted_ops, repeated, repeated_len, rows, rows_shape, InstructionModifier, Program,
};
use crate::region::{
    answers, cleared_for, collides, declared, fill_of, lookup, lookup_from, pruned,
    pruned_members, pruned_shorter, Region,
};
use crate::ui::{row_on_grid, with_fill, written, written_simx, written_simy};
use vstd::prelude::*;
use vstd::std_specs::cmp::PartialEqSpec;

verus! {

/// A declaration takes out of the live set whatever is in its way.
///
/// After a region is declared and the frame has ended, the table holds the
/// new region last, and before it only regions that were live and are not in
/// its way; they are fewer than the regions that were live. So a live region
/// whose rectangle meets the new one is gone, whoever owns it.
pub proof fn declaration_removes_what_it_meets<Id: PartialEq>(
    regions: Seq<Region<Id>>,
    a: int,
    id: Id,
    rx: Range,
    ry: Range,
    glyph: Seq<u8>,
)
    requires
        0 <= a < regions.len(),
        regions[a].live,
        spec_in_range_range(rx, ry, regions[a].range_x, regions[a].range_y),
    ensures
        ({
            let after = pruned(declared(regions, id, rx, ry, glyph));
            &&& after.len() >= 1
            &&& after.len() - 1 < pruned(regions).len()
            &&& after.last() == (Region { id, range_x: rx, range_y: ry, glyph, live: true })
            &&& after.drop_last() == pruned(cleared_for(regions, id, rx, ry))
            &&& forall|j: int|
                0 <= j < after.len() - 1 ==> {
                    &&& regions.contains(#[trigger] after[j])
                    &&& after[j].live
                    &&& !collides(after[j], id, rx, ry)
                    &&& after[j] != regions[a]
                }
        }),
{
    let cleared = cleared_for(regions, id, rx, ry);
    let all = declared(regions, id, rx, ry, glyph);
    let after = pruned(all);
    assert(all.drop_last() =~= cleared);
    assert(after.drop_last() =~= pruned(cleared));
    pruned_members(cleared);
    pruned_shorter(cleared, regions, a);
    assert forall|j: int| 0 <= j < after.len() - 1 implies {
        &&& regions.contains(#[trigger] after[j])
        &&& after[j].live
        &&& !collides(after[j], id, rx, ry)
        &&& after[j] != regions[a]
    } by {
        let r = pruned(cleared)[j];
        assert(after[j] == r);
        assert(cleared.contains(r));
        let k = choose|k: int| 0 <= k < cleared.len() && cleared[k] == r;
        assert(regions[k] == r);
    }
}

/// Declaring the same region again changes nothing that outlasts the frame:
/// the first declaration is in the way of the second, by its owner, and is
/// gone when the frame has ended. So a layout may be declared anew in every
/// frame.
pub proof fn redeclaring_changes_nothing<Id: PartialEq>(
    regions: Seq<Region<Id>>,
    id: Id,
    rx: Range,
    ry: Range,
    glyph: Seq<u8>,
)
    requires
        id.eq_spec(&id),
    ensures
        pruned(declared(declared(regions, id, rx, ry, glyph), id, rx, ry, glyph)) == pruned(
            declared(regions, id, rx, ry, glyph),
        ),
{
    let once = declared(regions, id, rx, ry, glyph);
    let twice = declared(once, id, rx, ry, glyph);
    let cleared = cleared_for(regions, id, rx, ry);
    let again = cleared_for(once, id, rx, ry);
    assert(once.drop_last() =~= cleared);
    assert(twice.drop_last() =~= again);
    assert(again.drop_last() =~= cleared);
    assert(!again.last().live);
    assert(pruned(again) == pruned(cleared));
}

/// A region that was just declared is the one that its owner's name finds,
/// where the owner equals itself.
pub proof fn declared_region_is_found<Id: PartialEq>(
    regions: Seq<Region<Id>>,
    id: Id,
    rx: Range,
    ry: Range,
    glyph: Seq<u8>,
)
    requires
        id.eq_spec(&id),
    ensures
        lookup(declared(regions, id, rx, ry, glyph), id) == Some(
            Region { id, range_x: rx, range_y: ry, glyph, live: true },
        ),
{
    declared_found_from(regions, id, rx, ry, glyph, 0);
}

/// The step of `declared_region_is_found`: the search finds the new region
/// from any position on.
proof fn declared_found_from<Id: PartialEq>(
    regions: Seq<Region<Id>>,
    id: Id,
    rx: Range,
    ry: Range,
    glyph: Seq<u8>,
    from: int,
)
    requires
        id.eq_spec(&id),
        0 <= from <= regions.len(),
    ensures
        lookup_from(declared(regions, id, rx, ry, glyph), id, from) == Some(
            Region { id, range_x: rx, range_y: ry, glyph, live: true },
        ),
    decreases regions.len() - from,
{
    let all = declared(regions, id, rx, ry, glyph);
    if from < regions.len() {
        declared_found_from(regions, id, rx, ry, glyph, from + 1);
        assert(!answers(all[from], id));
    }
}

/// Text that does not fit between its column and the region's right edge
/// leaves the instruction list and the byte store exactly as they were.
pub proof fn overflowing_write_changes_nothing<Id>(
    p: Program,
    r: Region<Id>,
    width: usize,
    height: usize,
    local_x: int,
    local_y: int,
    text: Seq<u8>,
    color: ColorIntegerSize,
    l: usize,
)
    requires
        local_x + text.len() > r.range_x.1,
    ensures
        written(p, r, width, height, local_x, local_y, text, color) == p,
        written_simx(p, r, width, height, local_x, local_y, text, color, l) == p,
        written_simy(p, r, width, height, local_x, local_y, text, color, l) == p,
{
}

/// Text shorter than the region is wide is queued as two instructions on one
/// row: first a blank row that covers every column of the region, then the
/// text. Nothing of a longer text drawn there before is left.
pub proof fn short_write_fills_then_draws<Id>(
    p: Program,
    r: Region<Id>,
    width: usize,
    height: usize,
    local_x: int,
    local_y: int,
    text: Seq<u8>,
    color: ColorIntegerSize,
)
    requires
        p.wf(),
        0 <= local_x,
        0 <= local_y,
        row_on_grid(r, local_y, width, height),
        0 < text.len() < r.range_x.1,
        local_x + text.len() <= r.range_x.1,
        r.range_x.0 + r.range_x.1 <= width,
        p.blob.len() + fill_of(r).len() + text.len() <= usize::MAX,
    ensures
        ({
            let q = written(p, r, width, height, local_x, local_y, text, color);
            let fill = q.inst[p.inst.len() as int];
            let draw = q.inst[p.inst.len() as int + 1];
            &&& q.inst.len() == p.inst.len() + 2
            &&& fill.target == (r.range_x.0, (r.range_y.0 + local_y) as usize)
            &&& draw.target == ((r.range_x.0 + local_x) as usize, (r.range_y.0 + local_y) as usize)
            &&& fill.target.1 == draw.target.1
            &&& fill.modifier is SI
            &&& draw.modifier is SI
            &&& draw.color == color
            &&& q.span(fill) == fill_of(r)
            &&& fill_of(r).len() == r.glyph.len() * r.range_x.1
            &&& q.span(draw) == text
            &&& q.blob == p.blob + fill_of(r) + text
        }),
{
    let q = written(p, r, width, height, local_x, local_y, text, color);
    let mid = with_fill(p, r, local_y);
    repeated_len(r.glyph, r.range_x.1 as nat);
    assert(q.span(q.inst[p.inst.len() as int]) =~= fill_of(r));
    assert(q.span(q.inst[p.inst.len() as int + 1]) =~= text);
}

/// Text exactly as long as the region is wide, written at its first column,
/// is queued as one instruction: no blank row goes before it.
pub proof fn full_width_write_draws_once<Id>(
    p: Program,
    r: Region<Id>,
    width: usize,
    height: usize,
    local_y: int,
    text: Seq<u8>,
    color: ColorIntegerSize,
)
    requires
        row_on_grid(r, local_y, width, height),
        text.len() == r.range_x.1,
        text.len() > 0,
    ensures
        written(p, r, width, height, 0, local_y, text, color) == p.emitted(
            text,
            (r.range_x.0, (r.range_y.0 + local_y) as usize),
            color,
            InstructionModifier::SI,
        ),
        written(p, r, width, height, 0, local_y, text, color).inst.len() == p.inst.len() + 1,
{
}

/// Copies side by side are queued as one single placement whose span is as
/// long as all the copies together, and holds them; not as one instruction
/// for each copy.
pub proof fn repeated_cols_are_one_instruction<Id>(
    p: Program,
    r: Region<Id>,
    width: usize,
    height: usize,
    local_x: int,
    local_y: int,
    text: Seq<u8>,
    color: ColorIntegerSize,
    l: usize,
)
    requires
        p.wf(),
        0 <= local_x,
        0 <= local_y,
        row_on_grid(r, local_y, width, height),
        text.len() > 0,
        l > 0,
        local_x + text.len() * l <= r.range_x.1,
        r.range_x.0 + r.range_x.1 <= width,
        written_simx(p, r, width, height, local_x, local_y, text, color, l).blob.len()
            <= usize::MAX,
    ensures
        ({
            let q = written_simx(p, r, width, height, local_x, local_y, text, color, l);
            let run = q.inst.last();
            &&& q.inst.len() == p.inst.len() + if text.len() * l < r.range_x.1 {
                2int
            } else {
                1int
            }
            &&& run.modifier is SI
            &&& run.target == ((r.range_x.0 + local_x) as usize, (r.range_y.0 + local_y) as usize)
            &&& run.length == text.len() * l
            &&& q.span(run) == repeated(text, l as nat)
        }),
{
    let q = written_simx(p, r, width, height, local_x, local_y, text, color, l);
    repeated_len(text, l as nat);
    repeated_len(r.glyph, r.range_x.1 as nat);
    assert(text.len() <= text.len() * l) by (nonlinear_arith)
        requires
            l > 0,
    ;
    assert(q.span(q.inst.last()) =~= repeated(text, l as nat));
}

/// Text for several rows is queued as one instruction, stored once, and the
/// replay places it row by row: for each of the `l` rows a cursor move to the
/// text's column and that row, then a draw of the same stored bytes.
pub proof fn repeated_rows_replay_row_by_row<Id>(
    p: Program,
    r: Region<Id>,
    width: usize,
    height: usize,
    local_x: int,
    local_y: int,
    text: Seq<u8>,
    color: ColorIntegerSize,
    l: usize,
)
    requires
        p.wf(),
        0 <= local_x,
        0 <= local_y,
        row_on_grid(r, local_y, width, height),
        text.len() > 0,
        local_x + text.len() <= r.range_x.1,
        local_y + l <= r.range_y.1,
        r.range_x.0 + r.range_x.1 <= width,
        written_simy(p, r, width, height, local_x, local_y, text, color, l).blob.len()
            <= usize::MAX,
    ensures
        ({
            let q = written_simy(p, r, width, height, local_x, local_y, text, color, l);
            let ins = q.inst.last();
            let x = r.range_x.0 + local_x;
            let y = r.range_y.0 + local_y;
            &&& q.inst.len() == p.inst.len() + if text.len() < r.range_x.1 {
                2int
            } else {
                1int
            }
            &&& ins.modifier == InstructionModifier::SIM(l)
            &&& ins.length == text.len()
            &&& q.span(ins) == text
            &&& q.instruction_ops(ins) == rows(x, y, text, color, l as nat)
            &&& q.instruction_ops(ins).len() == 2 * l
            &&& forall|i: int|
                0 <= i < l ==> {
                    &&& #[trigger] q.instruction_ops(ins)[2 * i] == (DrawOp::Cursor { x, y: y + i })
                    &&& q.instruction_ops(ins)[2 * i + 1] == (DrawOp::Blob { bytes: text, color })
                }
        }),
{
    let q = written_simy(p, r, width, height, local_x, local_y, text, color, l);
    let x = r.range_x.0 + local_x;
    let y = r.range_y.0 + local_y;
    repeated_len(r.glyph, r.range_x.1 as nat);
    assert(q.span(q.inst.last()) =~= text);
    rows_shape(x, y, text, color, l as nat);
}

/// A replay with nothing queued asks for the flush and nothing else: ending a
/// frame twice costs a flush and draws nothing.
pub proof fn empty_replay_only_flushes()
    ensures
        Program::empty().ops() == seq![DrawOp::Flush],
{
    assert(Program::empty().ops() =~= seq![DrawOp::Flush]);
}

/// A frame that queued one short text asks the backend for exactly this: what
/// was queued before, a cursor move and the blank row, a cursor move and the
/// text, and one flush.
pub proof fn short_write_replay<Id>(
    p: Program,
    r: Region<Id>,
    width: usize,
    height: usize,
    local_x: int,
    local_y: int,
    text: Seq<u8>,
    color: ColorIntegerSize,
)
    requires
        p.wf(),
        0 <= local_x,
        0 <= local_y,
        row_on_grid(r, local_y, width, height),
        0 < text.len() < r.range_x.1,
        local_x + text.len() <= r.range_x.1,
        r.range_x.0 + r.range_x.1 <= width,
        crate::region::region_wf(r, width, height),
        p.blob.len() + fill_of(r).len() + text.len() <= usize::MAX,
    ensures
        written(p, r, width, height, local_x, local_y, text, color).ops() == p.body(
            p.inst.len(),
        ) + seq![
            DrawOp::Cursor { x: r.range_x.0 as int, y: r.range_y.0 + local_y },
            DrawOp::Blob { bytes: fill_of(r), color: 0 },
            DrawOp::Cursor { x: r.range_x.0 + local_x, y: r.range_y.0 + local_y },
            DrawOp::Blob { bytes: text, color },
            DrawOp::Flush,
        ],
{
    let mid = with_fill(p, r, local_y);
    let row = (r.range_y.0 + local_y) as usize;
    repeated_len(r.glyph, r.range_x.1 as nat);
    crate::instruction::repeated_valid_utf8(r.glyph, r.range_x.1 as nat);
    emitted_ops(p, fill_of(r), (r.range_x.0, row), 0, InstructionModifier::SI);
    assert(mid.wf()) by {
        assert forall|i: int| 0 <= i < mid.inst.len() implies mid.instruction_wf(
            #[trigger] mid.inst[i],
        ) by {
            if i < p.inst.len() {
                assert(p.instruction_wf(p.inst[i]));
                assert(mid.span(mid.inst[i]) =~= p.span(p.inst[i]));
            }
        }
    }
    emitted_ops(mid, text, ((r.range_x.0 + local_x) as usize, row), color, InstructionModifier::SI);
    let q = written(p, r, width, height, local_x, local_y, text, color);
    assert(mid.body(mid.inst.len()) =~= p.body(p.inst.len()) + seq![
        DrawOp::Cursor { x: r.range_x.0 as int, y: r.range_y.0 + local_y },
        DrawOp::Blob { bytes: fill_of(r), color: 0 },
    ]) by {
        assert(mid.ops().drop_last() =~= mid.body(mid.inst.len()));
    }
    assert(q.ops() =~= p.body(p.inst.len()) + seq![
        DrawOp::Cursor { x: r.range_x.0 as int, y: r.range_y.0 + local_y },
        DrawOp::Blob { bytes: fill_of(r), color: 0 },
        DrawOp::Cursor { x: r.range_x.0 + local_x, y: r.range_y.0 + local_y },
        DrawOp::Blob { bytes: text, color },
        DrawOp::Flush,
    ]);
}

} // verus!
