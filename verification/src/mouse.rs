//! From a click on the grid to what the player should do.

use crate::controls::Action;
use crate::geometry::Range;
use crate::layout::Ownership;
use crate::region::Region;
use crate::ui::UI;
use vstd::prelude::*;

verus! {

/// A click resolved to a field and to the cell of the field that was hit.
#[derive(Copy, Clone)]
pub struct MouseHit {
    pub owner: Ownership,
    pub local_x: usize,
    pub local_y: usize,
}

/// The cell `(x, y)` lies in the rectangle of `r`.
pub open spec fn covers<Id>(r: Region<Id>, x: usize, y: usize) -> bool {
    &&& r.range_x.0 <= x < r.range_x.0 + r.range_x.1
    &&& r.range_y.0 <= y < r.range_y.0 + r.range_y.1
}

/// The last entry of the table whose rectangle holds the cell `(x, y)`.
pub open spec fn topmost<Id>(regions: Seq<Region<Id>>, x: usize, y: usize) -> Option<Region<Id>>
    decreases regions.len(),
{
    if regions.len() == 0 {
        None
    } else if covers(regions.last(), x, y) {
        Some(regions.last())
    } else {
        topmost(regions.drop_last(), x, y)
    }
}

/// The hit that a click at `(x, y)` on the region `r` is.
pub open spec fn hit_on(r: Region<Ownership>, x: usize, y: usize) -> MouseHit {
    MouseHit {
        owner: r.id,
        local_x: (x - r.range_x.0) as usize,
        local_y: (y - r.range_y.0) as usize,
    }
}

/// Whether `point` lies in `run`.
fn inside(point: usize, run: Range) -> (r: bool)
    ensures
        r == (run.0 <= point < run.0 + run.1),
{
    point >= run.0 && point - run.0 < run.1
}

/// Resolves a click at the grid cell `(x, y)`: the entry declared last among
/// those whose rectangle holds the cell, and the cell's place inside it.
pub fn resolve_hit(ui: &UI<Ownership>, x: usize, y: usize) -> (r: Option<MouseHit>)
    ensures
        r == (match topmost(ui.regions(), x, y) {
            Some(region) => Some(hit_on(region, x, y)),
            None => None,
        }),
{
    let entries = ui.get_ownership();
    let mut i: usize = entries.len();
    assert(ui.regions().take(i as int) =~= ui.regions());
    while i > 0
        invariant
            i <= entries.len(),
            entries@.len() == ui.regions().len(),
            forall|k: int| 0 <= k < entries@.len() ==> (#[trigger] entries@[k])@ == ui.regions()[k],
            topmost(ui.regions(), x, y) == topmost(ui.regions().take(i as int), x, y),
        decreases i,
    {
        i -= 1;
        let e = &entries[i];
        let range_x = e.get_range_x();
        let range_y = e.get_range_y();
        proof {
            let upto = ui.regions().take(i + 1);
            assert(upto.last() == ui.regions()[i as int]);
            assert(upto.drop_last() =~= ui.regions().take(i as int));
            assert(entries@[i as int]@ == ui.regions()[i as int]);
        }
        if inside(x, range_x) && inside(y, range_y) {
            return Some(
                MouseHit { owner: *e.get_id(), local_x: x - range_x.0, local_y: y - range_y.0 },
            );
        }
    }
    None
}

/// What a hit asks for, with `page` the page on show.
pub open spec fn spec_hit_to_action(hit: MouseHit, page: usize) -> Action {
    match hit.owner {
        Ownership::Songs => Action::Play(page, hit.local_y),
        Ownership::SongInd => Action::Play(page, hit.local_y),
        Ownership::Page => if hit.local_x < 3 {
            Action::PgUp
        } else {
            Action::PgDown
        },
        Ownership::ShuInd => Action::Shuffle,
        Ownership::LoopInd => Action::Repeat,
        Ownership::RpcInd => Action::Rpc,
        _ => Action::Nothing,
    }
}

/// What a hit asks for: a click on a song plays it, one on the page field
/// turns the page, back on its first three columns and on elsewhere, one on
/// an indicator switches it, and any other does nothing.
pub fn hit_to_action(hit: MouseHit, page: usize) -> (r: Action)
    ensures
        r == spec_hit_to_action(hit, page),
{
    match hit.owner {
        Ownership::Songs => Action::Play(page, hit.local_y),
        Ownership::SongInd => Action::Play(page, hit.local_y),
        Ownership::Page => {
            if hit.local_x < 3 {
                Action::PgUp
            } else {
                Action::PgDown
            }
        },
        Ownership::ShuInd => Action::Shuffle,
        Ownership::LoopInd => Action::Repeat,
        Ownership::RpcInd => Action::Rpc,
        _ => Action::Nothing,
    }
}

/// Handles a mouse event: only a click of the first button counts (bit 1 of
/// `bstate`), and only one on a cell of the grid that some entry holds.
pub fn handle_mouse(bstate: u32, x: i32, y: i32, ui: &UI<Ownership>, page: usize) -> (r: Option<
    Action,
>)
    ensures
        (r == if bstate & 0x2 == 0 || x < 0 || y < 0 {
            None
        } else {
            (match topmost(ui.regions(), x as usize, y as usize) {
                Some(region) => Some(
                    spec_hit_to_action(hit_on(region, x as usize, y as usize), page),
                ),
                None => None,
            })
        }),
{
    if bstate & 0x2 == 0 || x < 0 || y < 0 {
        return None;
    }
    match resolve_hit(ui, x as usize, y as usize) {
        Some(hit) => Some(hit_to_action(hit, page)),
        None => None,
    }
}

} // verus!
