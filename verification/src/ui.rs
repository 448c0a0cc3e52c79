//! The engine itself: the region table, the write and inject calls that queue
//! instructions, and the execution step that ends a frame.

use crate::backend::{ColorIntegerSize, Execute};
use crate::geometry::{blob_fit, in_range_range, range_end, Range};
use crate::instruction::{
    repeated, Instruction, InstructionModifier, InstructionTable, Program,
};
use crate::region::{
    apart, declared_apart, dropped_apart, pruned_apart, pruned_keeps,
    answers, cleared_for, collides, declared, default_glyph, dropped, fill_of, lookup,
    lookup_from, pruned, region_wf, regions_wf, retired, Region,
};
use vstd::prelude::*;
use vstd::std_specs::cmp::PartialEqSpec;
use vstd::string::StringSliceAdditionalSpecFns;
use vstd::utf8::{encode_utf8, valid_utf8};

verus! {

/// Whether an entry of the table is waiting to be removed.
enum CleanupOptions {
    Destructive,
    Keep,
}

/// One entry of the region table.
pub struct UIElement<T: PartialEq + Copy> {
    pub range_x: Range,
    pub range_y: Range,
    destruct: CleanupOptions,
    character: Option<String>,
    id: T,
}

/// The glyph that a declaration asks for: the bytes of the given string, or a
/// space where none is given.
pub open spec fn glyph_of(cleanup: Option<String>) -> Seq<u8> {
    match cleanup {
        Some(s) => encode_utf8(s@),
        None => default_glyph(),
    }
}

/// A single space is one byte, and text.
pub proof fn default_glyph_is_text()
    ensures
        " ".spec_bytes() == default_glyph(),
        valid_utf8(default_glyph()),
{
    reveal_strlit(" ");
    let s = " ";
    assert(s@ =~= seq![' ']);
    assert(vstd::string::is_ascii(s));
    vstd::string::is_ascii_spec_bytes(s);
    assert(s.spec_bytes() =~= seq![32u8]);
    vstd::utf8::encode_utf8_valid_utf8(s@);
}

impl<T: PartialEq + Copy> View for UIElement<T> {
    type V = Region<T>;

    closed spec fn view(&self) -> Region<T> {
        Region {
            id: self.id,
            range_x: self.range_x,
            range_y: self.range_y,
            glyph: glyph_of(self.character),
            live: self.destruct is Keep,
        }
    }
}

impl<T: PartialEq + Copy> UIElement<T> {
    /// Start column and width.
    pub fn get_range_x(&self) -> (r: Range)
        ensures
            r == self@.range_x,
    {
        self.range_x
    }

    /// Start row and height.
    pub fn get_range_y(&self) -> (r: Range)
        ensures
            r == self@.range_y,
    {
        self.range_y
    }

    /// Queues this element for removal at the end of the frame.
    pub fn destruct_queue(&mut self)
        ensures
            final(self)@ == retired(old(self)@),
    {
        self.destruct = CleanupOptions::Destructive;
    }

    /// The owner of this element.
    pub fn get_id(&self) -> (r: &T)
        ensures
            *r == self@.id,
    {
        &self.id
    }

    /// Whether the element is still live.
    pub fn is_live(&self) -> (r: bool)
        ensures
            r == self@.live,
    {
        match self.destruct {
            CleanupOptions::Destructive => false,
            CleanupOptions::Keep => true,
        }
    }

    /// The bytes of one blank row: the glyph, once per column.
    fn fill_row(&self) -> (r: Vec<u8>)
        requires
            self@.glyph.len() * self@.range_x.1 <= usize::MAX,
        ensures
            r@ == fill_of(self@),
            valid_utf8(r@),
    {
        let glyph: &[u8] = match &self.character {
            Some(s) => s.as_str().as_bytes(),
            None => " ".as_bytes(),
        };
        proof {
            default_glyph_is_text();
            if self.character is Some {
                vstd::utf8::encode_utf8_valid_utf8(self.character->0@);
            }
            assert(glyph@ == self@.glyph);
            crate::instruction::repeated_valid_utf8(glyph@, self.range_x.1 as nat);
        }
        let mut row: Vec<u8> = Vec::new();
        let mut k: usize = 0;
        while k < self.range_x.1
            invariant
                k <= self.range_x.1,
                row@ == repeated(glyph@, k as nat),
            decreases self.range_x.1 - k,
        {
            row.extend_from_slice(glyph);
            k += 1;
            assert(row@ =~= repeated(glyph@, k as nat));
        }
        row
    }
}

/// The row of `r` that a write addresses as `local_y` exists on a grid of
/// `width` by `height` cells.
pub open spec fn row_on_grid<Id>(r: Region<Id>, local_y: int, width: usize, height: usize) -> bool {
    r.range_x.0 < width && r.range_y.0 + local_y < height
}

/// The buffer with a whole blank row of `r` queued at its row `local_y`, in
/// colour 0.
pub open spec fn with_fill<Id>(p: Program, r: Region<Id>, local_y: int) -> Program {
    p.emitted(
        fill_of(r),
        (r.range_x.0, (r.range_y.0 + local_y) as usize),
        0,
        InstructionModifier::SI,
    )
}

/// The buffer after the two steps that every write into a region takes: a
/// blank row first where `fill` holds, then `bytes` at `(local_x, local_y)` of
/// `r` where `draw` holds.
pub open spec fn filled_then_drawn<Id>(
    p: Program,
    r: Region<Id>,
    local_x: int,
    local_y: int,
    fill: bool,
    draw: bool,
    bytes: Seq<u8>,
    color: ColorIntegerSize,
    modifier: InstructionModifier,
) -> Program {
    let cleared = if fill {
        with_fill(p, r, local_y)
    } else {
        p
    };
    if draw {
        cleared.emitted(
            bytes,
            ((r.range_x.0 + local_x) as usize, (r.range_y.0 + local_y) as usize),
            color,
            modifier,
        )
    } else {
        cleared
    }
}

/// The buffer after `text` was written at `(local_x, local_y)` of `r`.
///
/// Text that does not fit between `local_x` and the region's right edge, or a
/// row that is not on the grid, leaves the buffer as it was. Text shorter than
/// the region is wide has the whole row blanked first; empty text only blanks.
pub open spec fn written<Id>(
    p: Program,
    r: Region<Id>,
    width: usize,
    height: usize,
    local_x: int,
    local_y: int,
    text: Seq<u8>,
    color: ColorIntegerSize,
) -> Program {
    if row_on_grid(r, local_y, width, height) && local_x + text.len() <= r.range_x.1 {
        filled_then_drawn(
            p,
            r,
            local_x,
            local_y,
            text.len() < r.range_x.1,
            text.len() > 0,
            text,
            color,
            InstructionModifier::SI,
        )
    } else {
        p
    }
}

/// The buffer after `text` was written at `(local_x, local_y)` of `r` to be
/// placed on `l` consecutive rows.
///
/// As `written`, and the `l` rows from `local_y` down have to lie inside the
/// region too.
pub open spec fn written_simy<Id>(
    p: Program,
    r: Region<Id>,
    width: usize,
    height: usize,
    local_x: int,
    local_y: int,
    text: Seq<u8>,
    color: ColorIntegerSize,
    l: usize,
) -> Program {
    if row_on_grid(r, local_y, width, height) && local_x + text.len() <= r.range_x.1 && local_y
        + l <= r.range_y.1 {
        filled_then_drawn(
            p,
            r,
            local_x,
            local_y,
            text.len() < r.range_x.1,
            text.len() > 0,
            text,
            color,
            InstructionModifier::SIM(l),
        )
    } else {
        p
    }
}

/// The buffer after `l` copies of `text`, side by side, were written at
/// `(local_x, local_y)` of `r`.
///
/// As `written`, and the whole run of copies has to end inside the region
/// too. The row is blanked first where the run is shorter than the region is
/// wide.
pub open spec fn written_simx<Id>(
    p: Program,
    r: Region<Id>,
    width: usize,
    height: usize,
    local_x: int,
    local_y: int,
    text: Seq<u8>,
    color: ColorIntegerSize,
    l: usize,
) -> Program {
    if row_on_grid(r, local_y, width, height) && local_x + text.len() <= r.range_x.1 && local_x
        + text.len() * l <= r.range_x.1 {
        filled_then_drawn(
            p,
            r,
            local_x,
            local_y,
            text.len() * l < r.range_x.1,
            text.len() > 0 && l > 0,
            repeated(text, l as nat),
            color,
            InstructionModifier::SI,
        )
    } else {
        p
    }
}

/// A grid of cells, the regions declared on it, and the instructions queued
/// for the frame in progress.
pub struct UI<Id: PartialEq + Copy> {
    width: usize,
    height: usize,
    ownership: Vec<UIElement<Id>>,
    table: InstructionTable,
}

impl<Id: PartialEq + Copy> UI<Id> {
    /// The number of columns of the grid.
    pub closed spec fn spec_width(&self) -> usize {
        self.width
    }

    /// The number of rows of the grid.
    pub closed spec fn spec_height(&self) -> usize {
        self.height
    }

    /// The region table, oldest declaration first.
    pub closed spec fn regions(&self) -> Seq<Region<Id>> {
        Seq::new(self.ownership@.len(), |i: int| self.ownership@[i]@)
    }

    /// The instruction buffer of the frame in progress.
    pub closed spec fn program(&self) -> Program {
        self.table@
    }

    /// Every region lies inside the grid, no two live regions are in each
    /// other's way, and every instruction points inside the byte store.
    pub open spec fn wf(&self) -> bool {
        &&& regions_wf(self.regions(), self.spec_width(), self.spec_height())
        &&& apart(self.regions())
        &&& self.program().wf()
    }

    /// An engine for a grid of `width` by `height` cells, with no region and
    /// nothing queued.
    pub fn new(width: usize, height: usize) -> (r: Self)
        ensures
            r.wf(),
            r.spec_width() == width,
            r.spec_height() == height,
            r.regions() == Seq::<Region<Id>>::empty(),
            r.program() == Program::empty(),
    {
        let r = Self { width, height, ownership: Vec::new(), table: InstructionTable::new() };
        assert(r.regions() =~= Seq::<Region<Id>>::empty());
        r
    }

    /// The entries of the region table, those marked for removal included.
    pub fn get_ownership(&self) -> (r: &Vec<UIElement<Id>>)
        ensures
            r@.len() == self.regions().len(),
            forall|i: int| 0 <= i < r@.len() ==> (#[trigger] r@[i])@ == self.regions()[i],
    {
        &self.ownership
    }

    /// The number of columns of the grid.
    pub fn width(&self) -> (r: usize)
        ensures
            r == self.spec_width(),
    {
        self.width
    }

    /// The number of rows of the grid.
    pub fn height(&self) -> (r: usize)
        ensures
            r == self.spec_height(),
    {
        self.height
    }

    /// The instructions queued in the frame in progress.
    pub fn instructions(&self) -> (r: &Vec<Instruction>)
        ensures
            r@ == self.program().inst,
    {
        self.table.instructions()
    }

    /// The trace of the frame in progress. Take it before the frame is ended:
    /// ending it empties the buffer.
    pub fn trace(&self) -> (r: String)
        requires
            self.wf(),
        ensures
            r@ == crate::trace::trace_text(self.program(), self.program().inst.len() as int),
    {
        crate::trace::dump(&self.table)
    }

    /// The bytes stored in the frame in progress.
    pub fn bytes(&self) -> (r: &Vec<u8>)
        ensures
            r@ == self.program().blob,
    {
        self.table.bytes()
    }

    /// The first live entry that answers to `id`.
    fn find(&self, id: &Id) -> (r: Option<&UIElement<Id>>)
        requires
            Id::obeys_eq_spec(),
        ensures
            (match r {
                Some(e) => lookup(self.regions(), *id) == Some(e@),
                None => lookup(self.regions(), *id) is None,
            }),
            r is Some && self.wf() ==> region_wf(r->0@, self.spec_width(), self.spec_height()),
    {
        let mut i: usize = 0;
        while i < self.ownership.len()
            invariant
                i <= self.ownership.len(),
                Id::obeys_eq_spec(),
                lookup(self.regions(), *id) == lookup_from(self.regions(), *id, i as int),
            decreases self.ownership.len() - i,
        {
            let e = &self.ownership[i];
            assert(self.regions()[i as int] == e@);
            if e.id == *id && e.is_live() {
                return Some(e);
            }
            i += 1;
        }
        None
    }

    /// The width of the live region that answers to `id`.
    pub fn get_range(&self, id: &Id) -> (r: Option<usize>)
        requires
            Id::obeys_eq_spec(),
        ensures
            r == (match lookup(self.regions(), *id) {
                Some(region) => Some(region.range_x.1),
                None => None,
            }),
    {
        if let Some(a) = self.find(id) {
            return Some(a.range_x.1);
        } else {
            return None;
        }
    }
    /// Declares a region; see `allocate` and `c_alloc`.
    fn _alloc(&mut self, id: &Id, rx: Range, ry: Range, cleanup: Option<String>)
        requires
            old(self).wf(),
            Id::obeys_eq_spec(),
            range_end(rx) <= old(self).spec_width(),
            range_end(ry) <= old(self).spec_height(),
            glyph_of(cleanup).len() * rx.1 <= usize::MAX,
        ensures
            final(self).wf(),
            final(self).spec_width() == old(self).spec_width(),
            final(self).spec_height() == old(self).spec_height(),
            final(self).program() == old(self).program(),
            final(self).regions() == declared(old(self).regions(), *id, rx, ry, glyph_of(cleanup)),
    {
        let ghost before = self.regions();
        let n: usize = self.ownership.len();
        let mut i: usize = 0;
        while i < n
            invariant
                i <= n,
                n == self.ownership.len(),
                Id::obeys_eq_spec(),
                before.len() == n,
                self.width == old(self).width,
                self.height == old(self).height,
                self.table == old(self).table,
                forall|j: int|
                    0 <= j < i ==> (#[trigger] self.ownership@[j])@ == cleared_for(
                        before,
                        *id,
                        rx,
                        ry,
                    )[j],
                forall|j: int| i <= j < n ==> (#[trigger] self.ownership@[j])@ == before[j],
            decreases n - i,
        {
            let hit = self.ownership[i].id == *id || in_range_range(
                rx,
                ry,
                self.ownership[i].range_x,
                self.ownership[i].range_y,
            );
            assert(hit == collides(before[i as int], *id, rx, ry));
            if hit {
                self.ownership[i].destruct_queue();
            }
            i += 1;
        }
        proof {
            if cleanup is Some {
                vstd::utf8::encode_utf8_valid_utf8(cleanup->0@);
            }
            default_glyph_is_text();
        }
        self.ownership.push(
            UIElement {
                range_x: rx,
                range_y: ry,
                destruct: CleanupOptions::Keep,
                id: *id,
                character: cleanup,
            },
        );
        proof {
            assert(self.regions() =~= declared(before, *id, rx, ry, glyph_of(cleanup)));
            assert(regions_wf(before, self.width, self.height));
            declared_apart(before, *id, rx, ry, glyph_of(cleanup));
        }
    }

    /// Declares the region `id` at columns `rx`, rows `ry`, blanked with
    /// spaces. Every region in its way, by owner or by place, is marked for
    /// removal.
    pub fn allocate(&mut self, id: &Id, rx: Range, ry: Range)
        requires
            old(self).wf(),
            Id::obeys_eq_spec(),
            range_end(rx) <= old(self).spec_width(),
            range_end(ry) <= old(self).spec_height(),
        ensures
            final(self).wf(),
            final(self).spec_width() == old(self).spec_width(),
            final(self).spec_height() == old(self).spec_height(),
            final(self).program() == old(self).program(),
            final(self).regions() == declared(old(self).regions(), *id, rx, ry, default_glyph()),
    {
        assert(default_glyph().len() * rx.1 == rx.1) by (nonlinear_arith)
            requires
                default_glyph().len() == 1,
        ;
        self._alloc(id, rx, ry, None);
    }

    /// Declares the region `id` as `allocate` does, blanked with the glyph
    /// `cleanup` where one is given.
    pub fn c_alloc(&mut self, id: &Id, rx: Range, ry: Range, cleanup: Option<String>)
        requires
            old(self).wf(),
            Id::obeys_eq_spec(),
            range_end(rx) <= old(self).spec_width(),
            range_end(ry) <= old(self).spec_height(),
            glyph_of(cleanup).len() * rx.1 <= usize::MAX,
        ensures
            final(self).wf(),
            final(self).spec_width() == old(self).spec_width(),
            final(self).spec_height() == old(self).spec_height(),
            final(self).program() == old(self).program(),
            final(self).regions() == declared(old(self).regions(), *id, rx, ry, glyph_of(cleanup)),
    {
        self._alloc(id, rx, ry, cleanup);
    }

    /// Marks every region of owner `id` for removal.
    pub fn drop_ownership(&mut self, id: &Id)
        requires
            old(self).wf(),
            Id::obeys_eq_spec(),
        ensures
            final(self).wf(),
            final(self).spec_width() == old(self).spec_width(),
            final(self).spec_height() == old(self).spec_height(),
            final(self).program() == old(self).program(),
            final(self).regions() == dropped(old(self).regions(), *id),
    {
        let ghost before = self.regions();
        let n: usize = self.ownership.len();
        let mut i: usize = 0;
        while i < n
            invariant
                i <= n,
                n == self.ownership.len(),
                Id::obeys_eq_spec(),
                before.len() == n,
                self.width == old(self).width,
                self.height == old(self).height,
                self.table == old(self).table,
                forall|j: int|
                    0 <= j < i ==> (#[trigger] self.ownership@[j])@ == dropped(before, *id)[j],
                forall|j: int| i <= j < n ==> (#[trigger] self.ownership@[j])@ == before[j],
            decreases n - i,
        {
            if self.ownership[i].id == *id {
                self.ownership[i].destruct_queue();
            }
            i += 1;
        }
        proof {
            assert(self.regions() =~= dropped(before, *id));
            assert(regions_wf(before, self.width, self.height));
            dropped_apart(before, *id);
        }
    }

    /// The number of the cell `(x, y)`, rows counted first, where the cell is
    /// on the grid.
    pub fn idx(&self, x: usize, y: usize) -> (r: Option<usize>)
        requires
            self.spec_width() * self.spec_height() <= usize::MAX,
        ensures
            (r == if x < self.spec_width() && y < self.spec_height() {
                Some((y * self.spec_width() + x) as usize)
            } else {
                None
            }),
            r is Some ==> r->0 < self.spec_width() * self.spec_height(),
    {
        if x < self.width && y < self.height {
            assert(y * self.width + x < self.width * self.height) by (nonlinear_arith)
                requires
                    x < self.width,
                    y < self.height,
            ;
            Some(y * self.width + x)
        } else {
            None
        }
    }
    /// The extents of the live region `id`, a blank row of it, and the grid
    /// row that its row `y` is, where there is such a region and such a row.
    fn locate(&self, id: &Id, y: usize) -> (r: Option<(Range, Range, Vec<u8>, usize)>)
        requires
            self.wf(),
            Id::obeys_eq_spec(),
        ensures
            (match (r, lookup(self.regions(), *id)) {
                (Some((this_x, this_y, character, row)), Some(region)) => {
                    &&& this_x == region.range_x
                    &&& this_y == region.range_y
                    &&& character@ == fill_of(region)
                    &&& valid_utf8(character@)
                    &&& row == region.range_y.0 + y
                    &&& row_on_grid(region, y as int, self.spec_width(), self.spec_height())
                    &&& region_wf(region, self.spec_width(), self.spec_height())
                },
                (None, Some(region)) => !row_on_grid(
                    region,
                    y as int,
                    self.spec_width(),
                    self.spec_height(),
                ),
                (None, None) => true,
                (Some(_), None) => false,
            }),
    {
        let (this_x, this_y, character) = match self.find(id) {
            Some(o) => (o.range_x, o.range_y, o.fill_row()),
            None => {
                return None;
            },
        };
        let row: usize = match y.checked_add(this_y.0) {
            Some(v) => v,
            None => {
                return None;
            },
        };
        if this_x.0 < self.width && row < self.height {
            Some((this_x, this_y, character, row))
        } else {
            None
        }
    }

    /// Blanks row `y` of the region `id`: a write of no text at its first
    /// column.
    pub fn empty_instruction(&mut self, id: &Id, y: usize)
        requires
            old(self).wf(),
            Id::obeys_eq_spec(),
        ensures
            final(self).wf(),
            final(self).spec_width() == old(self).spec_width(),
            final(self).spec_height() == old(self).spec_height(),
            final(self).regions() == old(self).regions(),
            final(self).program() == (match lookup(old(self).regions(), *id) {
                Some(r) => written(
                    old(self).program(),
                    r,
                    old(self).spec_width(),
                    old(self).spec_height(),
                    0,
                    y as int,
                    Seq::empty(),
                    0,
                ),
                None => old(self).program(),
            }),
    {
        let (this_x, _this_y, character, row) = match self.locate(id, y) {
            Some(found) => found,
            None => {
                return ;
            },
        };
        if 0 < this_x.1 {
            self.table.si_blob(character.as_slice(), this_x.0, row, 0);
        }
    }

    /// Writes `text` in `color` at column `x`, row `y` of the region `id`.
    ///
    /// Nothing happens where no live region answers to `id`, where the row is
    /// not on the grid, or where the bytes of `text` do not all fit between
    /// `x` and the region's right edge. Otherwise the row is blanked first,
    /// unless the text is as long as the region is wide, and then the text is
    /// queued, unless it is empty.
    pub fn write(&mut self, id: &Id, x: usize, y: usize, text: &str, color: ColorIntegerSize)
        requires
            old(self).wf(),
            Id::obeys_eq_spec(),
        ensures
            final(self).wf(),
            final(self).spec_width() == old(self).spec_width(),
            final(self).spec_height() == old(self).spec_height(),
            final(self).regions() == old(self).regions(),
            final(self).program() == (match lookup(old(self).regions(), *id) {
                Some(r) => written(
                    old(self).program(),
                    r,
                    old(self).spec_width(),
                    old(self).spec_height(),
                    x as int,
                    y as int,
                    text.spec_bytes(),
                    color,
                ),
                None => old(self).program(),
            }),
    {
        let (this_x, _this_y, character, row) = match self.locate(id, y) {
            Some(found) => found,
            None => {
                return ;
            },
        };
        let bytes = text.as_bytes();
        proof {
            vstd::utf8::encode_utf8_valid_utf8(text@);
        }
        let col: usize = match x.checked_add(this_x.0) {
            Some(v) => v,
            None => {
                return ;
            },
        };
        if !blob_fit(col, bytes.len(), this_x) {
            return ;
        }
        if bytes.len() < this_x.1 {
            self.table.si_blob(character.as_slice(), this_x.0, row, 0);
        }
        if bytes.len() == 0 {
            return ;
        }
        self.table.si_blob(bytes, col, row, color);
    }

    /// Writes `text` at column `x`, row `y` of the region `id`, to be placed
    /// on `l` consecutive rows from there down.
    ///
    /// As `write`, and nothing happens either where the `l` rows do not all
    /// lie inside the region. The bytes are stored once.
    pub fn write_simy(
        &mut self,
        id: &Id,
        x: usize,
        y: usize,
        text: &str,
        color: ColorIntegerSize,
        l: usize,
    )
        requires
            old(self).wf(),
            Id::obeys_eq_spec(),
        ensures
            final(self).wf(),
            final(self).spec_width() == old(self).spec_width(),
            final(self).spec_height() == old(self).spec_height(),
            final(self).regions() == old(self).regions(),
            final(self).program() == (match lookup(old(self).regions(), *id) {
                Some(r) => written_simy(
                    old(self).program(),
                    r,
                    old(self).spec_width(),
                    old(self).spec_height(),
                    x as int,
                    y as int,
                    text.spec_bytes(),
                    color,
                    l,
                ),
                None => old(self).program(),
            }),
    {
        let (this_x, this_y, character, row) = match self.locate(id, y) {
            Some(found) => found,
            None => {
                return ;
            },
        };
        let bytes = text.as_bytes();
        proof {
            vstd::utf8::encode_utf8_valid_utf8(text@);
        }
        let col: usize = match x.checked_add(this_x.0) {
            Some(v) => v,
            None => {
                return ;
            },
        };
        if !blob_fit(col, bytes.len(), this_x) || !blob_fit(row, l, this_y) {
            return ;
        }
        if bytes.len() < this_x.1 {
            self.table.si_blob(character.as_slice(), this_x.0, row, 0);
        }
        if bytes.len() == 0 {
            return ;
        }
        self.table.sim_blob(bytes, col, row, color, l);
    }

    /// Writes `l` copies of `text`, side by side, at column `x`, row `y` of
    /// the region `id`, as one single placement.
    ///
    /// As `write`, and nothing happens either where the run of copies does
    /// not end inside the region. The row is blanked first unless the run is
    /// as long as the region is wide.
    pub fn write_simx(
        &mut self,
        id: &Id,
        x: usize,
        y: usize,
        text: &str,
        color: ColorIntegerSize,
        l: usize,
    )
        requires
            old(self).wf(),
            Id::obeys_eq_spec(),
        ensures
            final(self).wf(),
            final(self).spec_width() == old(self).spec_width(),
            final(self).spec_height() == old(self).spec_height(),
            final(self).regions() == old(self).regions(),
            final(self).program() == (match lookup(old(self).regions(), *id) {
                Some(r) => written_simx(
                    old(self).program(),
                    r,
                    old(self).spec_width(),
                    old(self).spec_height(),
                    x as int,
                    y as int,
                    text.spec_bytes(),
                    color,
                    l,
                ),
                None => old(self).program(),
            }),
    {
        let (this_x, _this_y, character, row) = match self.locate(id, y) {
            Some(found) => found,
            None => {
                return ;
            },
        };
        let bytes = text.as_bytes();
        proof {
            vstd::utf8::encode_utf8_valid_utf8(text@);
        }
        let col: usize = match x.checked_add(this_x.0) {
            Some(v) => v,
            None => {
                return ;
            },
        };
        let run: usize = match bytes.len().checked_mul(l) {
            Some(v) => v,
            None => {
                return ;
            },
        };
        if !blob_fit(col, bytes.len(), this_x) || !blob_fit(col, run, this_x) {
            return ;
        }
        if run < this_x.1 {
            self.table.si_blob(character.as_slice(), this_x.0, row, 0);
        }
        if bytes.len() == 0 || l == 0 {
            return ;
        }
        self.table.fake_sim(bytes, col, row, color, l);
    }

    /// Queues `text` in `color` at the grid cell `(x, y)`, whatever region
    /// lies there: no lookup, no bounds, no blanking. Empty text queues
    /// nothing.
    pub fn inject_si(&mut self, x: usize, y: usize, text: &str, color: ColorIntegerSize)
        requires
            old(self).wf(),
        ensures
            final(self).wf(),
            final(self).spec_width() == old(self).spec_width(),
            final(self).spec_height() == old(self).spec_height(),
            final(self).regions() == old(self).regions(),
            (final(self).program() == if text.spec_bytes().len() == 0 {
                old(self).program()
            } else {
                old(self).program().emitted(text.spec_bytes(), (x, y), color, InstructionModifier::SI)
            }),
    {
        let bytes = text.as_bytes();
        if bytes.len() == 0 {
            return ;
        }
        proof {
            vstd::utf8::encode_utf8_valid_utf8(text@);
        }
        self.table.si_blob(bytes, x, y, color);
    }

    /// Queues `l` copies of `text`, side by side, as one single placement at
    /// the grid cell `(x, y)`. Empty text queues nothing.
    pub fn inject_simx(&mut self, x: usize, y: usize, text: &str, color: ColorIntegerSize, l: usize)
        requires
            old(self).wf(),
            text.spec_bytes().len() * l <= usize::MAX,
        ensures
            final(self).wf(),
            final(self).spec_width() == old(self).spec_width(),
            final(self).spec_height() == old(self).spec_height(),
            final(self).regions() == old(self).regions(),
            (final(self).program() == if text.spec_bytes().len() == 0 {
                old(self).program()
            } else {
                old(self).program().emitted(
                    repeated(text.spec_bytes(), l as nat),
                    (x, y),
                    color,
                    InstructionModifier::SI,
                )
            }),
    {
        let bytes = text.as_bytes();
        if bytes.len() == 0 {
            return ;
        }
        proof {
            vstd::utf8::encode_utf8_valid_utf8(text@);
        }
        self.table.fake_sim(bytes, x, y, color, l);
    }

    /// Queues `text`, stored once, to be placed on `l` consecutive rows from
    /// the grid cell `(x, y)` down. Empty text queues nothing.
    pub fn inject_simy(&mut self, x: usize, y: usize, text: &str, color: ColorIntegerSize, l: usize)
        requires
            old(self).wf(),
            y + l <= usize::MAX,
        ensures
            final(self).wf(),
            final(self).spec_width() == old(self).spec_width(),
            final(self).spec_height() == old(self).spec_height(),
            final(self).regions() == old(self).regions(),
            (final(self).program() == if text.spec_bytes().len() == 0 {
                old(self).program()
            } else {
                old(self).program().emitted(
                    text.spec_bytes(),
                    (x, y),
                    color,
                    InstructionModifier::SIM(l),
                )
            }),
    {
        let bytes = text.as_bytes();
        if bytes.len() == 0 {
            return ;
        }
        proof {
            vstd::utf8::encode_utf8_valid_utf8(text@);
        }
        self.table.sim_blob(bytes, x, y, color, l);
    }

    /// Queues `l2` copies of `text`, side by side and stored once as a run,
    /// to be placed on `l` consecutive rows from the grid cell `(x, y)` down.
    /// Empty text queues nothing.
    pub fn inject_simyx(
        &mut self,
        x: usize,
        y: usize,
        text: &str,
        color: ColorIntegerSize,
        l: usize,
        l2: usize,
    )
        requires
            old(self).wf(),
            text.spec_bytes().len() * l2 <= usize::MAX,
            y + l <= usize::MAX,
        ensures
            final(self).wf(),
            final(self).spec_width() == old(self).spec_width(),
            final(self).spec_height() == old(self).spec_height(),
            final(self).regions() == old(self).regions(),
            (final(self).program() == if text.spec_bytes().len() == 0 {
                old(self).program()
            } else {
                old(self).program().emitted(
                    repeated(text.spec_bytes(), l2 as nat),
                    (x, y),
                    color,
                    InstructionModifier::SIM(l),
                )
            }),
    {
        let bytes = text.as_bytes();
        if bytes.len() == 0 {
            return ;
        }
        proof {
            vstd::utf8::encode_utf8_valid_utf8(text@);
        }
        self.table.emit(bytes, x, y, color, l2, InstructionModifier::SIM(l));
    }

    /// Removes from the table every entry that is marked for removal.
    fn prune(&mut self)
        requires
            old(self).wf(),
        ensures
            final(self).wf(),
            final(self).spec_width() == old(self).spec_width(),
            final(self).spec_height() == old(self).spec_height(),
            final(self).program() == old(self).program(),
            final(self).regions() == pruned(old(self).regions()),
    {
        let ghost before = self.regions();
        let mut i: usize = 0;
        let ghost mut seen: int = 0;
        assert(before.take(0) =~= Seq::<Region<Id>>::empty());
        while i < self.ownership.len()
            invariant
                0 <= seen <= before.len(),
                i <= seen,
                self.width == old(self).width,
                self.height == old(self).height,
                self.table == old(self).table,
                self.regions() == pruned(before.take(seen)) + before.skip(seen),
                i == pruned(before.take(seen)).len(),
            decreases before.len() - seen,
        {
            let ghost current = self.regions();
            let ghost kept = pruned(before.take(seen));
            assert(current.len() == self.ownership@.len());
            assert(current.len() == kept.len() + before.skip(seen).len());
            assert(seen < before.len());
            assert(current[i as int] == before.skip(seen)[0]);
            assert(self.ownership@[i as int]@ == current[i as int]);
            proof {
                let next = before.take(seen + 1);
                assert(next.drop_last() =~= before.take(seen));
                assert(next.last() == before[seen]);
                assert(pruned(next) == if before[seen].live {
                    kept.push(before[seen])
                } else {
                    kept
                });
            }
            if self.ownership[i].is_live() {
                i += 1;
            } else {
                let _gone = self.ownership.remove(i);
            }
            assert(self.regions() =~= pruned(before.take(seen + 1)) + before.skip(seen + 1)) by {
                let now = self.regions();
                let goal = pruned(before.take(seen + 1)) + before.skip(seen + 1);
                assert(now.len() == goal.len());
                assert forall|j: int| 0 <= j < now.len() implies now[j] == goal[j] by {
                    if j < kept.len() {
                        assert(now[j] == current[j]);
                    } else if before[seen].live {
                        assert(now[j] == current[j]);
                        assert(current[j] == before.skip(seen)[j - kept.len()]);
                    } else {
                        assert(now[j] == current[j + 1]);
                        assert(current[j + 1] == before.skip(seen)[j + 1 - kept.len()]);
                    }
                }
            }
            proof {
                seen = seen + 1;
            }
        }
        proof {
            assert(before.take(before.len() as int) =~= before);
            assert(self.regions() =~= pruned(before));
            pruned_keeps(before, self.width, self.height);
            pruned_apart(before);
        }
    }

    /// Ends the frame: removes the regions marked for removal, replays the
    /// queued instructions through the backend, finishing with one flush, and
    /// empties the buffer for the next frame.
    pub fn draw<I, E: Execute<I>>(&mut self, interface: &mut I)
        requires
            old(self).wf(),
        ensures
            final(self).wf(),
            final(self).spec_width() == old(self).spec_width(),
            final(self).spec_height() == old(self).spec_height(),
            final(self).regions() == pruned(old(self).regions()),
            final(self).program() == Program::empty(),
            E::issued(final(interface)) == E::issued(old(interface)) + old(self).program().ops(),
    {
        self.prune();
        self.table.execute::<I, E>(interface);
        self.table.clear();
    }
}

} // verus!
