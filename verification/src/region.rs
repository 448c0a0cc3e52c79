//! What the region table holds, as plain mathematical values, and what
//! declaring, dropping, looking up and pruning do to it.

use crate::geometry::{range_end, spec_in_range_range, Range};
use vstd::prelude::*;
use vstd::std_specs::cmp::PartialEqSpec;
use vstd::utf8::valid_utf8;

verus! {

/// One rectangular allocation of the grid, as the contracts see it.
pub struct Region<Id> {
    /// Who owns the rectangle.
    pub id: Id,
    /// Start column and width.
    pub range_x: Range,
    /// Start row and height.
    pub range_y: Range,
    /// The bytes of the glyph that blanks one cell of a row.
    pub glyph: Seq<u8>,
    /// `false` once the region is marked for removal.
    pub live: bool,
}

/// The glyph of a region declared without one: a single space.
pub open spec fn default_glyph() -> Seq<u8> {
    seq![32u8]
}

/// The bytes of a whole blank row of `r`: its glyph, once per column.
pub open spec fn fill_of<Id>(r: Region<Id>) -> Seq<u8> {
    crate::instruction::repeated(r.glyph, r.range_x.1 as nat)
}

/// `r` lies inside a grid of `width` by `height` cells, its glyph is text, and
/// a blank row of it has a length that a machine integer holds.
pub open spec fn region_wf<Id>(r: Region<Id>, width: usize, height: usize) -> bool {
    &&& range_end(r.range_x) <= width
    &&& range_end(r.range_y) <= height
    &&& valid_utf8(r.glyph)
    &&& r.glyph.len() * r.range_x.1 <= usize::MAX
}

/// Every region of the table is well formed.
pub open spec fn regions_wf<Id>(regions: Seq<Region<Id>>, width: usize, height: usize) -> bool {
    forall|i: int| 0 <= i < regions.len() ==> region_wf(#[trigger] regions[i], width, height)
}

/// `r` is live and answers to `id`.
pub open spec fn answers<Id: PartialEq>(r: Region<Id>, id: Id) -> bool {
    r.live && r.id.eq_spec(&id)
}

/// The first region at or after position `from` that is live and answers to
/// `id`.
pub open spec fn lookup_from<Id: PartialEq>(regions: Seq<Region<Id>>, id: Id, from: int) -> Option<
    Region<Id>,
>
    decreases regions.len() - from,
{
    if from < 0 || from >= regions.len() {
        None
    } else if answers(regions[from], id) {
        Some(regions[from])
    } else {
        lookup_from(regions, id, from + 1)
    }
}

/// The first live region that answers to `id`, if there is one.
pub open spec fn lookup<Id: PartialEq>(regions: Seq<Region<Id>>, id: Id) -> Option<Region<Id>> {
    lookup_from(regions, id, 0)
}

/// `r` is in the way of a new region `id` at `rx` by `ry`: it has the same
/// owner, or its rectangle meets the new one.
pub open spec fn collides<Id: PartialEq>(r: Region<Id>, id: Id, rx: Range, ry: Range) -> bool {
    r.id.eq_spec(&id) || spec_in_range_range(rx, ry, r.range_x, r.range_y)
}

/// `r`, marked for removal.
pub open spec fn retired<Id>(r: Region<Id>) -> Region<Id> {
    Region { live: false, ..r }
}

/// The table with every region retired that is in the way of a new region
/// `id` at `rx` by `ry`; the others as they were.
pub open spec fn cleared_for<Id: PartialEq>(
    regions: Seq<Region<Id>>,
    id: Id,
    rx: Range,
    ry: Range,
) -> Seq<Region<Id>> {
    Seq::new(
        regions.len(),
        |i: int|
            if collides(regions[i], id, rx, ry) {
                retired(regions[i])
            } else {
                regions[i]
            },
    )
}

/// The table after a region was declared: what was in its way is retired, and
/// the new region stands last, live.
pub open spec fn declared<Id: PartialEq>(
    regions: Seq<Region<Id>>,
    id: Id,
    rx: Range,
    ry: Range,
    glyph: Seq<u8>,
) -> Seq<Region<Id>> {
    cleared_for(regions, id, rx, ry).push(
        Region { id, range_x: rx, range_y: ry, glyph, live: true },
    )
}

/// The table after every region of owner `id` was retired.
pub open spec fn dropped<Id: PartialEq>(regions: Seq<Region<Id>>, id: Id) -> Seq<Region<Id>> {
    Seq::new(
        regions.len(),
        |i: int|
            if regions[i].id.eq_spec(&id) {
                retired(regions[i])
            } else {
                regions[i]
            },
    )
}

/// The live regions of the table, in their order.
pub open spec fn pruned<Id>(regions: Seq<Region<Id>>) -> Seq<Region<Id>>
    decreases regions.len(),
{
    if regions.len() == 0 {
        Seq::empty()
    } else if regions.last().live {
        pruned(regions.drop_last()).push(regions.last())
    } else {
        pruned(regions.drop_last())
    }
}

/// What is left after pruning was there before: a pruned table is well formed
/// where the table was, and every region of it is live.
pub proof fn pruned_keeps<Id>(regions: Seq<Region<Id>>, width: usize, height: usize)
    ensures
        regions_wf(regions, width, height) ==> regions_wf(pruned(regions), width, height),
        forall|i: int| 0 <= i < pruned(regions).len() ==> (#[trigger] pruned(regions)[i]).live,
        pruned(regions).len() <= regions.len(),
    decreases regions.len(),
{
    if regions.len() > 0 {
        pruned_keeps(regions.drop_last(), width, height);
        if regions_wf(regions, width, height) {
            assert forall|i: int| 0 <= i < regions.drop_last().len() implies region_wf(
                #[trigger] regions.drop_last()[i],
                width,
                height,
            ) by {
                assert(regions.drop_last()[i] == regions[i]);
            }
        }
    }
}

/// Every region of a pruned table is a live region of the table it was made
/// from.
pub proof fn pruned_members<Id>(regions: Seq<Region<Id>>)
    ensures
        forall|i: int|
            0 <= i < pruned(regions).len() ==> regions.contains(#[trigger] pruned(regions)[i])
                && pruned(regions)[i].live,
    decreases regions.len(),
{
    if regions.len() > 0 {
        let init = regions.drop_last();
        pruned_members(init);
        assert forall|i: int| 0 <= i < pruned(regions).len() implies regions.contains(
            #[trigger] pruned(regions)[i],
        ) && pruned(regions)[i].live by {
            if i < pruned(init).len() {
                let r = pruned(init)[i];
                assert(init.contains(r));
                let k = choose|k: int| 0 <= k < init.len() && init[k] == r;
                assert(regions[k] == r);
            } else {
                assert(regions[regions.len() - 1] == pruned(regions)[i]);
            }
        }
    }
}

/// A table in which no more regions are live than in another, place by
/// place, has no more regions left after pruning.
pub proof fn pruned_no_longer<Id>(fewer: Seq<Region<Id>>, more: Seq<Region<Id>>)
    requires
        fewer.len() == more.len(),
        forall|i: int| 0 <= i < fewer.len() ==> (#[trigger] fewer[i]).live ==> more[i].live,
    ensures
        pruned(fewer).len() <= pruned(more).len(),
    decreases fewer.len(),
{
    if fewer.len() > 0 {
        assert forall|i: int| 0 <= i < fewer.drop_last().len() implies (#[trigger] fewer.drop_last()[i]).live
            ==> more.drop_last()[i].live by {
            assert(fewer[i].live ==> more[i].live);
        }
        pruned_no_longer(fewer.drop_last(), more.drop_last());
        assert(fewer[fewer.len() - 1].live ==> more[more.len() - 1].live);
    }
}

/// And it has fewer left where, at some place, a region is live in the
/// other table only.
pub proof fn pruned_shorter<Id>(fewer: Seq<Region<Id>>, more: Seq<Region<Id>>, a: int)
    requires
        fewer.len() == more.len(),
        forall|i: int| 0 <= i < fewer.len() ==> (#[trigger] fewer[i]).live ==> more[i].live,
        0 <= a < fewer.len(),
        !fewer[a].live,
        more[a].live,
    ensures
        pruned(fewer).len() < pruned(more).len(),
    decreases fewer.len(),
{
    assert forall|i: int| 0 <= i < fewer.drop_last().len() implies (#[trigger] fewer.drop_last()[i]).live
        ==> more.drop_last()[i].live by {
        assert(fewer[i].live ==> more[i].live);
    }
    if a == fewer.len() - 1 {
        pruned_no_longer(fewer.drop_last(), more.drop_last());
    } else {
        pruned_shorter(fewer.drop_last(), more.drop_last(), a);
        assert(fewer[fewer.len() - 1].live ==> more[more.len() - 1].live);
    }
}

/// No two live regions are in each other's way: the later one of any two has
/// another owner than the earlier one, and their rectangles do not meet.
pub open spec fn apart<Id: PartialEq>(regions: Seq<Region<Id>>) -> bool {
    forall|i: int, j: int|
        0 <= i < j < regions.len() && (#[trigger] regions[i]).live && (#[trigger] regions[j]).live
            ==> !collides(regions[i], regions[j].id, regions[j].range_x, regions[j].range_y)
}

/// Declaring a region keeps the live regions apart.
pub proof fn declared_apart<Id: PartialEq>(
    regions: Seq<Region<Id>>,
    id: Id,
    rx: Range,
    ry: Range,
    glyph: Seq<u8>,
)
    requires
        apart(regions),
    ensures
        apart(declared(regions, id, rx, ry, glyph)),
{
    let after = declared(regions, id, rx, ry, glyph);
    assert forall|i: int, j: int|
        0 <= i < j < after.len() && (#[trigger] after[i]).live && (#[trigger] after[j]).live implies !collides(
        after[i],
        after[j].id,
        after[j].range_x,
        after[j].range_y,
    ) by {
        assert(after[i] == regions[i]);
        if j < regions.len() {
            assert(after[j] == regions[j]);
        }
    }
}

/// Dropping an owner keeps the live regions apart.
pub proof fn dropped_apart<Id: PartialEq>(regions: Seq<Region<Id>>, id: Id)
    requires
        apart(regions),
    ensures
        apart(dropped(regions, id)),
{
    let after = dropped(regions, id);
    assert forall|i: int, j: int|
        0 <= i < j < after.len() && (#[trigger] after[i]).live && (#[trigger] after[j]).live implies !collides(
        after[i],
        after[j].id,
        after[j].range_x,
        after[j].range_y,
    ) by {
        assert(after[i] == regions[i]);
        assert(after[j] == regions[j]);
    }
}

/// Pruning keeps the live regions apart.
pub proof fn pruned_apart<Id: PartialEq>(regions: Seq<Region<Id>>)
    requires
        apart(regions),
    ensures
        apart(pruned(regions)),
    decreases regions.len(),
{
    if regions.len() > 0 {
        let init = regions.drop_last();
        assert(apart(init)) by {
            assert forall|i: int, j: int|
                0 <= i < j < init.len() && (#[trigger] init[i]).live && (
                #[trigger] init[j]).live implies !collides(
                init[i],
                init[j].id,
                init[j].range_x,
                init[j].range_y,
            ) by {
                assert(init[i] == regions[i]);
                assert(init[j] == regions[j]);
            }
        }
        pruned_apart(init);
        pruned_members(init);
        let after = pruned(regions);
        let last = regions.last();
        assert forall|i: int, j: int|
            0 <= i < j < after.len() && (#[trigger] after[i]).live && (
            #[trigger] after[j]).live implies !collides(
            after[i],
            after[j].id,
            after[j].range_x,
            after[j].range_y,
        ) by {
            if j < pruned(init).len() {
                assert(after[i] == pruned(init)[i]);
                assert(after[j] == pruned(init)[j]);
            } else {
                let r = pruned(init)[i];
                assert(after[i] == r);
                assert(init.contains(r));
                let k = choose|k: int| 0 <= k < init.len() && init[k] == r;
                assert(regions[k] == r);
                assert(regions[regions.len() - 1] == last);
            }
        }
    }
}

} // verus!
