//! The player's own screen: the fields it shows and where each one lies on
//! the grid.

use crate::geometry::Range;
use crate::region::{declared, default_glyph, Region};
use crate::ui::UI;
use vstd::prelude::*;
use vstd::std_specs::cmp::PartialEqSpec;
use vstd::string::StringSliceAdditionalSpecFns;

verus! {

/// The fields of the player's screen; each one owns a region.
#[derive(Copy, Clone, Debug)]
pub enum Ownership {
    Songs,
    SongInd,
    Playlist,
    Sliding,
    ShuRep,
    Time1,
    Time2,
    ShuInd,
    LoopInd,
    Artist,
    RpcVol,
    RpcInd,
    VolInd,
    Search,
    Page,
}

impl Ownership {
    /// The place of the field in the list above, counted from 0.
    pub open spec fn spec_ordinal(self) -> u8 {
        match self {
            Ownership::Songs => 0,
            Ownership::SongInd => 1,
            Ownership::Playlist => 2,
            Ownership::Sliding => 3,
            Ownership::ShuRep => 4,
            Ownership::Time1 => 5,
            Ownership::Time2 => 6,
            Ownership::ShuInd => 7,
            Ownership::LoopInd => 8,
            Ownership::Artist => 9,
            Ownership::RpcVol => 10,
            Ownership::RpcInd => 11,
            Ownership::VolInd => 12,
            Ownership::Search => 13,
            Ownership::Page => 14,
        }
    }

    /// The place of the field in the list; two fields with one place are one
    /// field.
    pub fn ordinal(self) -> (r: u8)
        ensures
            r == self.spec_ordinal(),
            r < 15,
    {
        match self {
            Ownership::Songs => 0,
            Ownership::SongInd => 1,
            Ownership::Playlist => 2,
            Ownership::Sliding => 3,
            Ownership::ShuRep => 4,
            Ownership::Time1 => 5,
            Ownership::Time2 => 6,
            Ownership::ShuInd => 7,
            Ownership::LoopInd => 8,
            Ownership::Artist => 9,
            Ownership::RpcVol => 10,
            Ownership::RpcInd => 11,
            Ownership::VolInd => 12,
            Ownership::Search => 13,
            Ownership::Page => 14,
        }
    }
}

impl PartialEq for Ownership {
    fn eq(&self, other: &Ownership) -> (r: bool) {
        self.ordinal() == other.ordinal()
    }
}

impl vstd::std_specs::cmp::PartialEqSpecImpl for Ownership {
    open spec fn obeys_eq_spec() -> bool {
        true
    }

    open spec fn eq_spec(&self, other: &Ownership) -> bool {
        self.spec_ordinal() == other.spec_ordinal()
    }
}

/// Two fields are equal exactly when they are the same field.
pub proof fn ownership_eq_is_identity(a: Ownership, b: Ownership)
    ensures
        a.eq_spec(&b) <==> a == b,
{
}

/// The number of columns of the player's screen.
pub const MAXX: usize = 50;

/// The number of rows of the player's screen.
pub const MAXY: usize = 20;

/// One line of the player's layout: the field, its columns, its rows, and
/// whether it is blanked with the rule glyph instead of spaces.
pub open spec fn layout() -> Seq<(Ownership, Range, Range, bool)> {
    seq![
        (Ownership::Songs, (2usize, 46usize), (1usize, 14usize), false),
        (Ownership::SongInd, (1usize, 1usize), (1usize, 14usize), false),
        (Ownership::Playlist, (2usize, 12usize), (16usize, 1usize), false),
        (Ownership::Sliding, (14usize, 23usize), (16usize, 1usize), false),
        (Ownership::ShuRep, (2usize, 8usize), (17usize, 1usize), false),
        (Ownership::Time1, (12usize, 5usize), (17usize, 1usize), false),
        (Ownership::Time2, (34usize, 5usize), (17usize, 1usize), false),
        (Ownership::ShuInd, (2usize, 3usize), (18usize, 1usize), false),
        (Ownership::LoopInd, (6usize, 3usize), (18usize, 1usize), false),
        (Ownership::Artist, (12usize, 27usize), (18usize, 1usize), false),
        (Ownership::RpcVol, (41usize, 7usize), (17usize, 1usize), false),
        (Ownership::RpcInd, (41usize, 3usize), (18usize, 1usize), false),
        (Ownership::VolInd, (45usize, 3usize), (18usize, 1usize), false),
        (Ownership::Search, (2usize, 32usize), (0usize, 1usize), true),
        (Ownership::Page, (35usize, 13usize), (0usize, 1usize), true),
    ]
}

/// The table after the first `n` lines of the layout were declared, one after
/// the other, the ruled ones with the glyph `rule`.
pub open spec fn laid_out(regions: Seq<Region<Ownership>>, rule: Seq<u8>, n: nat) -> Seq<
    Region<Ownership>,
>
    decreases n,
{
    if n == 0 {
        regions
    } else {
        let line = layout()[n - 1];
        declared(
            laid_out(regions, rule, (n - 1) as nat),
            line.0,
            line.1,
            line.2,
            if line.3 {
                rule
            } else {
                default_glyph()
            },
        )
    }
}

/// Declares the player's fifteen fields on a screen of at least 50 by 20
/// cells. `Search` and `Page`, which sit on the top border, are blanked with
/// `rule`, the others with spaces.
pub fn autoalloc(ui: &mut UI<Ownership>, rule: &str)
    requires
        old(ui).wf(),
        old(ui).spec_width() >= MAXX,
        old(ui).spec_height() >= MAXY,
        rule.spec_bytes().len() * 32 <= usize::MAX,
    ensures
        final(ui).wf(),
        final(ui).spec_width() == old(ui).spec_width(),
        final(ui).spec_height() == old(ui).spec_height(),
        final(ui).program() == old(ui).program(),
        final(ui).regions() == laid_out(old(ui).regions(), rule.spec_bytes(), 15),
{
    proof {
        reveal_with_fuel(laid_out, 16);
    }
    ui.allocate(&Ownership::Songs, (2, 46), (1, 14));
    ui.allocate(&Ownership::SongInd, (1, 1), (1, 14));
    ui.allocate(&Ownership::Playlist, (2, 12), (16, 1));
    ui.allocate(&Ownership::Sliding, (14, 23), (16, 1));
    ui.allocate(&Ownership::ShuRep, (2, 8), (17, 1));
    ui.allocate(&Ownership::Time1, (12, 5), (17, 1));
    ui.allocate(&Ownership::Time2, (34, 5), (17, 1));
    ui.allocate(&Ownership::ShuInd, (2, 3), (18, 1));
    ui.allocate(&Ownership::LoopInd, (6, 3), (18, 1));
    ui.allocate(&Ownership::Artist, (12, 27), (18, 1));
    ui.allocate(&Ownership::RpcVol, (41, 7), (17, 1));
    ui.allocate(&Ownership::RpcInd, (41, 3), (18, 1));
    ui.allocate(&Ownership::VolInd, (45, 3), (18, 1));
    ui.c_alloc(&Ownership::Search, (2, 32), (0, 1), Some(rule.to_owned()));
    ui.c_alloc(&Ownership::Page, (35, 13), (0, 1), Some(rule.to_owned()));
}

} // verus!
