//! What the player writes into its fields: the list of songs, the marks
//! beside it, and the indicators at the foot of the screen.

use crate::backend::ColorIntegerSize;
use crate::controls::{
    absolute_index, page_count, spec_absolute_index, spec_page_count, Indexer, ReinitMode,
    SearchQuery,
};
use crate::text::{
    decimal, decimal_text, mm_ss_text, three_column_text, three_columns, to_mm_ss,
};
use crate::timing::{spec_remaining_secs, Timer};
use crate::instruction::Program;
use crate::layout::Ownership;
use crate::region::{lookup, Region};
use crate::sliding::display_width;
use crate::songs::Songs;
use crate::ui::{written, UI};
use vstd::prelude::*;
use vstd::utf8::encode_utf8;

verus! {

/// The buffer after `text` was written at `(x, y)` of the field `id`, on a
/// grid of `width` by `height` cells with the table `regions`.
pub open spec fn wrote(
    regions: Seq<Region<Ownership>>,
    width: usize,
    height: usize,
    p: Program,
    id: Ownership,
    x: int,
    y: int,
    text: Seq<char>,
    color: ColorIntegerSize,
) -> Program {
    match lookup(regions, id) {
        Some(r) => written(p, r, width, height, x, y, encode_utf8(text), color),
        None => p,
    }
}

/// The page on show: a page 0 counts as the first.
pub open spec fn page_shown(page: usize) -> int {
    if page < 1 {
        1
    } else {
        page as int
    }
}

/// The rows of a page: a page size of 0 counts as 1.
pub open spec fn rows_shown(songs: &Songs) -> int {
    if songs.typical_page_size < 1 {
        1
    } else {
        songs.typical_page_size as int
    }
}

/// The place in the list of the song on row `row` of the page on show.
pub open spec fn place_of(songs: &Songs, page: usize, row: int) -> int {
    spec_absolute_index(row, page_shown(page), rows_shown(songs))
}

/// The mark beside the song listed at `place`, and its colour: `>` for the
/// song that plays, `*` for the next one unless the player loops, `x` for a
/// skipped one, and a space for any other.
pub open spec fn mark_of(songs: &Songs, isloop: bool, place: int) -> (Seq<char>, ColorIntegerSize) {
    let song = songs.filtered_songs@[place];
    if crate::songs::first_index(songs.filtered_songs@, songs.current_index, 0) == Some(place) {
        (">"@, 1)
    } else if song == songs.setnext && !isloop {
        ("*"@, 4)
    } else if songs.spec_is_blacklist(song) {
        ("x"@, 2)
    } else {
        (" "@, 0)
    }
}

/// What stands beside row `row`: the mark of the song listed there, or a
/// space where none is.
pub open spec fn indicator_row(songs: &Songs, page: usize, isloop: bool, row: int) -> (
    Seq<char>,
    ColorIntegerSize,
) {
    if place_of(songs, page, row) < songs.filtered_songs@.len() {
        mark_of(songs, isloop, place_of(songs, page, row))
    } else {
        (" "@, 0)
    }
}

/// The buffer after the marks of the first `rows` rows were written, top
/// row first.
pub open spec fn indicators_drawn(
    regions: Seq<Region<Ownership>>,
    width: usize,
    height: usize,
    p: Program,
    songs: &Songs,
    page: usize,
    isloop: bool,
    rows: int,
) -> Program
    decreases rows,
{
    if rows <= 0 {
        p
    } else {
        let mark = indicator_row(songs, page, isloop, rows - 1);
        wrote(
            regions,
            width,
            height,
            indicators_drawn(regions, width, height, p, songs, page, isloop, rows - 1),
            Ownership::SongInd,
            0,
            rows - 1,
            mark.0,
            mark.1,
        )
    }
}

/// Writes the column of marks beside the list: one row for each row of the
/// page, whether a song is listed there or not.
pub fn draw_song_indicators(ui: &mut UI<Ownership>, songs: &Songs, page: usize, isloop: bool)
    requires
        old(ui).wf(),
        songs.wf(),
    ensures
        final(ui).wf(),
        final(ui).spec_width() == old(ui).spec_width(),
        final(ui).spec_height() == old(ui).spec_height(),
        final(ui).regions() == old(ui).regions(),
        final(ui).program() == indicators_drawn(
            old(ui).regions(),
            old(ui).spec_width(),
            old(ui).spec_height(),
            old(ui).program(),
            songs,
            page,
            isloop,
            rows_shown(songs),
        ),
{
    let psize: usize = if songs.typical_page_size < 1 {
        1
    } else {
        songs.typical_page_size
    };
    let shown: usize = if page < 1 {
        1
    } else {
        page
    };
    let total: usize = songs.filtered_songs.len();
    let current: usize = songs.match_c();
    let mut row: usize = 0;
    while row < psize
        invariant
            row <= psize,
            psize == rows_shown(songs),
            shown == page_shown(page),
            total == songs.filtered_songs@.len(),
            current == (match crate::songs::first_index(
                songs.filtered_songs@,
                songs.current_index,
                0,
            ) {
                Some(i) => i as usize,
                None => usize::MAX,
            }),
            songs.wf(),
            ui.wf(),
            ui.spec_width() == old(ui).spec_width(),
            ui.spec_height() == old(ui).spec_height(),
            ui.regions() == old(ui).regions(),
            ui.program() == indicators_drawn(
                old(ui).regions(),
                old(ui).spec_width(),
                old(ui).spec_height(),
                old(ui).program(),
                songs,
                page,
                isloop,
                row as int,
            ),
        decreases psize - row,
    {
        let listed: Option<usize> = match absolute_index(row, shown, psize) {
            Some(place) => if place < total {
                Some(place)
            } else {
                None
            },
            None => None,
        };
        match listed {
            Some(place) => {
                let song: usize = songs.filtered_songs[place];
                proof {
                    crate::songs::first_index_in_range(
                        songs.filtered_songs@,
                        songs.current_index,
                        0,
                    );
                }
                if place == current {
                    ui.write(&Ownership::SongInd, 0, row, ">", 1);
                } else if song == songs.get_next() && !isloop {
                    ui.write(&Ownership::SongInd, 0, row, "*", 4);
                } else if songs.is_blacklist(song) {
                    ui.write(&Ownership::SongInd, 0, row, "x", 2);
                } else {
                    ui.write(&Ownership::SongInd, 0, row, " ", 0);
                }
            },
            None => {
                ui.write(&Ownership::SongInd, 0, row, " ", 0);
            },
        }
        row += 1;
    }
}

/// What stands on row `row` of the list: the name of the song listed there,
/// highlighted where the row is selected and the selection is on show; or
/// nothing.
pub open spec fn text_row(songs: &Songs, index: Indexer, desel: bool, row: int) -> (
    Seq<char>,
    ColorIntegerSize,
) {
    let place = place_of(songs, index.page, row);
    if place < songs.filtered_songs@.len() {
        (
            songs.all_songs@[songs.filtered_songs@[place] as int].name@,
            if index.index == row && !desel {
                3
            } else {
                0
            },
        )
    } else {
        (""@, 0)
    }
}

/// The buffer after the first `rows` rows of the list were written, top row
/// first.
pub open spec fn song_text_drawn(
    regions: Seq<Region<Ownership>>,
    width: usize,
    height: usize,
    p: Program,
    songs: &Songs,
    index: Indexer,
    desel: bool,
    rows: int,
) -> Program
    decreases rows,
{
    if rows <= 0 {
        p
    } else {
        let line = text_row(songs, index, desel, rows - 1);
        wrote(
            regions,
            width,
            height,
            song_text_drawn(regions, width, height, p, songs, index, desel, rows - 1),
            Ownership::Songs,
            0,
            rows - 1,
            line.0,
            line.1,
        )
    }
}

/// Writes the page of the list that is on show: a name on each row that has
/// a song, and a blank row on each that has none.
pub fn draw_song_text(ui: &mut UI<Ownership>, songs: &Songs, index: &Indexer, desel: bool)
    requires
        old(ui).wf(),
        songs.wf(),
    ensures
        final(ui).wf(),
        final(ui).spec_width() == old(ui).spec_width(),
        final(ui).spec_height() == old(ui).spec_height(),
        final(ui).regions() == old(ui).regions(),
        final(ui).program() == song_text_drawn(
            old(ui).regions(),
            old(ui).spec_width(),
            old(ui).spec_height(),
            old(ui).program(),
            songs,
            *index,
            desel,
            rows_shown(songs),
        ),
{
    let psize: usize = if songs.typical_page_size < 1 {
        1
    } else {
        songs.typical_page_size
    };
    let shown: usize = if index.page < 1 {
        1
    } else {
        index.page
    };
    let total: usize = songs.filtered_songs.len();
    let mut row: usize = 0;
    while row < psize
        invariant
            row <= psize,
            psize == rows_shown(songs),
            shown == page_shown(index.page),
            total == songs.filtered_songs@.len(),
            songs.wf(),
            ui.wf(),
            ui.spec_width() == old(ui).spec_width(),
            ui.spec_height() == old(ui).spec_height(),
            ui.regions() == old(ui).regions(),
            ui.program() == song_text_drawn(
                old(ui).regions(),
                old(ui).spec_width(),
                old(ui).spec_height(),
                old(ui).program(),
                songs,
                *index,
                desel,
                row as int,
            ),
        decreases psize - row,
    {
        let listed: Option<usize> = match absolute_index(row, shown, psize) {
            Some(place) => if place < total {
                Some(place)
            } else {
                None
            },
            None => None,
        };
        match listed {
            Some(place) => {
                let song: usize = songs.filtered_songs[place];
                let color: ColorIntegerSize = if index.index == row && !desel {
                    3
                } else {
                    0
                };
                ui.write(&Ownership::Songs, 0, row, songs.all_songs[song].name.as_str(), color);
            },
            None => {
                ui.write(&Ownership::Songs, 0, row, "", 0);
            },
        }
        row += 1;
    }
}

/// Writes the two captions of the foot of the screen.
pub fn draw_const(ui: &mut UI<Ownership>)
    requires
        old(ui).wf(),
    ensures
        final(ui).wf(),
        final(ui).spec_width() == old(ui).spec_width(),
        final(ui).spec_height() == old(ui).spec_height(),
        final(ui).regions() == old(ui).regions(),
        final(ui).program() == wrote(
            old(ui).regions(),
            old(ui).spec_width(),
            old(ui).spec_height(),
            wrote(
                old(ui).regions(),
                old(ui).spec_width(),
                old(ui).spec_height(),
                old(ui).program(),
                Ownership::ShuRep,
                0,
                0,
                "Shu Rep"@,
                0,
            ),
            Ownership::RpcVol,
            0,
            0,
            "Rpc Vol"@,
            0,
        ),
{
    ui.write(&Ownership::ShuRep, 0, 0, "Shu Rep", 0);
    ui.write(&Ownership::RpcVol, 0, 0, "Rpc Vol", 0);
}

/// What an on-off indicator shows: "yes" in colour 1, or "no" in colour 2.
pub open spec fn yes_no(on: bool) -> (Seq<char>, ColorIntegerSize) {
    if on {
        ("yes"@, 1)
    } else {
        ("no"@, 2)
    }
}

/// Writes `yes` or `no` into the indicator `id`.
fn draw_yes_no(ui: &mut UI<Ownership>, id: Ownership, on: bool)
    requires
        old(ui).wf(),
    ensures
        final(ui).wf(),
        final(ui).spec_width() == old(ui).spec_width(),
        final(ui).spec_height() == old(ui).spec_height(),
        final(ui).regions() == old(ui).regions(),
        final(ui).program() == wrote(
            old(ui).regions(),
            old(ui).spec_width(),
            old(ui).spec_height(),
            old(ui).program(),
            id,
            0,
            0,
            yes_no(on).0,
            yes_no(on).1,
        ),
{
    if on {
        ui.write(&id, 0, 0, "yes", 1);
    } else {
        ui.write(&id, 0, 0, "no", 2);
    }
}

/// Writes whether the player shuffles.
pub fn draw_shuffle_indc(ui: &mut UI<Ownership>, shuffle: bool)
    requires
        old(ui).wf(),
    ensures
        final(ui).wf(),
        final(ui).spec_width() == old(ui).spec_width(),
        final(ui).spec_height() == old(ui).spec_height(),
        final(ui).regions() == old(ui).regions(),
        final(ui).program() == wrote(
            old(ui).regions(),
            old(ui).spec_width(),
            old(ui).spec_height(),
            old(ui).program(),
            Ownership::ShuInd,
            0,
            0,
            yes_no(shuffle).0,
            yes_no(shuffle).1,
        ),
{
    draw_yes_no(ui, Ownership::ShuInd, shuffle);
}

/// Writes whether the player loops.
pub fn draw_loop_indc(ui: &mut UI<Ownership>, isloop: bool)
    requires
        old(ui).wf(),
    ensures
        final(ui).wf(),
        final(ui).spec_width() == old(ui).spec_width(),
        final(ui).spec_height() == old(ui).spec_height(),
        final(ui).regions() == old(ui).regions(),
        final(ui).program() == wrote(
            old(ui).regions(),
            old(ui).spec_width(),
            old(ui).spec_height(),
            old(ui).program(),
            Ownership::LoopInd,
            0,
            0,
            yes_no(isloop).0,
            yes_no(isloop).1,
        ),
{
    draw_yes_no(ui, Ownership::LoopInd, isloop);
}

/// What the presence indicator shows: "int" in colour 2 while an
/// announcement is owed, "rnw" in colour 4 while a renewal is, and "yes" in
/// colour 1 while nothing is.
pub open spec fn rpc_mark(mode: ReinitMode) -> (Seq<char>, ColorIntegerSize) {
    match mode {
        ReinitMode::Init => ("int"@, 2),
        ReinitMode::Renew => ("rnw"@, 4),
        ReinitMode::Pretend => ("rnw"@, 4),
        ReinitMode::Idle => ("yes"@, 1),
    }
}

/// Writes what is owed to the presence thread.
pub fn draw_rpc_indc(ui: &mut UI<Ownership>, mode: ReinitMode)
    requires
        old(ui).wf(),
    ensures
        final(ui).wf(),
        final(ui).spec_width() == old(ui).spec_width(),
        final(ui).spec_height() == old(ui).spec_height(),
        final(ui).regions() == old(ui).regions(),
        final(ui).program() == wrote(
            old(ui).regions(),
            old(ui).spec_width(),
            old(ui).spec_height(),
            old(ui).program(),
            Ownership::RpcInd,
            0,
            0,
            rpc_mark(mode).0,
            rpc_mark(mode).1,
        ),
{
    match mode {
        ReinitMode::Init => ui.write(&Ownership::RpcInd, 0, 0, "int", 2),
        ReinitMode::Renew => ui.write(&Ownership::RpcInd, 0, 0, "rnw", 4),
        ReinitMode::Pretend => ui.write(&Ownership::RpcInd, 0, 0, "rnw", 4),
        ReinitMode::Idle => ui.write(&Ownership::RpcInd, 0, 0, "yes", 1),
    }
}

/// What the search line shows: an invitation while nothing is typed for, else
/// what was typed.
pub open spec fn search_line(query: SearchQuery) -> Seq<char> {
    if query.mode == 0 {
        "Search or edit"@
    } else {
        "Search: "@ + query.query@
    }
}

/// Writes the search line, in colour 9.
pub fn draw_search(ui: &mut UI<Ownership>, query: &SearchQuery)
    requires
        old(ui).wf(),
    ensures
        final(ui).wf(),
        final(ui).spec_width() == old(ui).spec_width(),
        final(ui).spec_height() == old(ui).spec_height(),
        final(ui).regions() == old(ui).regions(),
        final(ui).program() == wrote(
            old(ui).regions(),
            old(ui).spec_width(),
            old(ui).spec_height(),
            old(ui).program(),
            Ownership::Search,
            0,
            0,
            search_line(*query),
            9,
        ),
{
    if query.mode == 0 {
        ui.write(&Ownership::Search, 0, 0, "Search or edit", 9);
    } else {
        let line = String::from_str("Search: ").concat(query.query.as_str());
        ui.write(&Ownership::Search, 0, 0, line.as_str(), 9);
    }
}

/// The column at which text `columns` wide starts when it is centred in a
/// field `range` wide: half the field less half the text, and the first
/// column where the text is the wider.
pub open spec fn centred(range: usize, columns: usize) -> int {
    if range / 2 < columns / 2 {
        0
    } else {
        range / 2 - columns / 2
    }
}

/// Writes `text` centred in the field `id`, by the columns it takes on a
/// terminal. Nothing is written where the field is not declared.
pub fn draw_centred(ui: &mut UI<Ownership>, id: Ownership, text: &str, color: ColorIntegerSize)
    requires
        old(ui).wf(),
    ensures
        final(ui).wf(),
        final(ui).spec_width() == old(ui).spec_width(),
        final(ui).spec_height() == old(ui).spec_height(),
        final(ui).regions() == old(ui).regions(),
        final(ui).program() == (match lookup(old(ui).regions(), id) {
            Some(r) => wrote(
                old(ui).regions(),
                old(ui).spec_width(),
                old(ui).spec_height(),
                old(ui).program(),
                id,
                centred(r.range_x.1, display_width(text@)),
                0,
                text@,
                color,
            ),
            None => old(ui).program(),
        }),
{
    let range: usize = match ui.get_range(&id) {
        Some(range) => range,
        None => {
            return ;
        },
    };
    let columns: usize = crate::sliding::width_of(text);
    let half: usize = range / 2;
    let x: usize = if half < columns / 2 {
        0
    } else {
        half - columns / 2
    };
    ui.write(&id, x, 0, text, color);
}

/// Writes the sliding title, centred, in colour 1.
pub fn draw_sliding(ui: &mut UI<Ownership>, sliding: &str)
    requires
        old(ui).wf(),
    ensures
        final(ui).wf(),
        final(ui).spec_width() == old(ui).spec_width(),
        final(ui).spec_height() == old(ui).spec_height(),
        final(ui).regions() == old(ui).regions(),
        final(ui).program() == (match lookup(old(ui).regions(), Ownership::Sliding) {
            Some(r) => wrote(
                old(ui).regions(),
                old(ui).spec_width(),
                old(ui).spec_height(),
                old(ui).program(),
                Ownership::Sliding,
                centred(r.range_x.1, display_width(sliding@)),
                0,
                sliding@,
                1,
            ),
            None => old(ui).program(),
        }),
{
    draw_centred(ui, Ownership::Sliding, sliding, 1);
}

/// Writes the artist, centred, in colour 0.
pub fn draw_artist(ui: &mut UI<Ownership>, artist: &str)
    requires
        old(ui).wf(),
    ensures
        final(ui).wf(),
        final(ui).spec_width() == old(ui).spec_width(),
        final(ui).spec_height() == old(ui).spec_height(),
        final(ui).regions() == old(ui).regions(),
        final(ui).program() == (match lookup(old(ui).regions(), Ownership::Artist) {
            Some(r) => wrote(
                old(ui).regions(),
                old(ui).spec_width(),
                old(ui).spec_height(),
                old(ui).program(),
                Ownership::Artist,
                centred(r.range_x.1, display_width(artist@)),
                0,
                artist@,
                0,
            ),
            None => old(ui).program(),
        }),
{
    draw_centred(ui, Ownership::Artist, artist, 0);
}

/// The page numbers that the page field shows: the page on show, no less
/// than 1 and no more than there are pages, and the number of pages, no less
/// than 1.
pub open spec fn page_numbers(total: usize, psize: usize, page: usize) -> (nat, nat) {
    let pages = spec_page_count(total as int, psize as int);
    let last = if pages < 1 {
        1
    } else {
        pages
    };
    let shown = if page < 1 {
        1
    } else if page > last {
        last
    } else {
        page as int
    };
    (shown as nat, last as nat)
}

/// What the page field shows.
pub open spec fn page_line(total: usize, psize: usize, page: usize) -> Seq<char> {
    "< Page: "@ + decimal_text(page_numbers(total, psize, page).0) + "/"@ + decimal_text(
        page_numbers(total, psize, page).1,
    ) + " >"@
}

/// Writes which page of how many is on show, `total` songs being listed,
/// `psize` to a page.
pub fn draw_page(ui: &mut UI<Ownership>, total: usize, psize: usize, page: usize)
    requires
        old(ui).wf(),
    ensures
        final(ui).wf(),
        final(ui).spec_width() == old(ui).spec_width(),
        final(ui).spec_height() == old(ui).spec_height(),
        final(ui).regions() == old(ui).regions(),
        final(ui).program() == wrote(
            old(ui).regions(),
            old(ui).spec_width(),
            old(ui).spec_height(),
            old(ui).program(),
            Ownership::Page,
            0,
            0,
            page_line(total, psize, page),
            0,
        ),
{
    let pages: usize = page_count(total, psize);
    let last: usize = if pages < 1 {
        1
    } else {
        pages
    };
    let shown: usize = if page < 1 {
        1
    } else if page > last {
        last
    } else {
        page
    };
    let line = "< Page: ".to_owned().concat(decimal(shown as u64).as_str()).concat("/").concat(
        decimal(last as u64).as_str(),
    ).concat(" >");
    ui.write(&Ownership::Page, 0, 0, line.as_str(), 0);
}

/// Writes the volume, to the right of its three columns.
pub fn draw_vol_indc(ui: &mut UI<Ownership>, steps: u8)
    requires
        old(ui).wf(),
    ensures
        final(ui).wf(),
        final(ui).spec_width() == old(ui).spec_width(),
        final(ui).spec_height() == old(ui).spec_height(),
        final(ui).regions() == old(ui).regions(),
        final(ui).program() == wrote(
            old(ui).regions(),
            old(ui).spec_width(),
            old(ui).spec_height(),
            old(ui).program(),
            Ownership::VolInd,
            0,
            0,
            three_column_text(steps as nat),
            0,
        ),
{
    let line = three_columns(steps as u64);
    ui.write(&Ownership::VolInd, 0, 0, line.as_str(), 0);
}

/// Writes how long the song has played, as a clock shows it.
pub fn draw_time_cur(ui: &mut UI<Ownership>, timer: &Timer)
    requires
        old(ui).wf(),
    ensures
        final(ui).wf(),
        final(ui).spec_width() == old(ui).spec_width(),
        final(ui).spec_height() == old(ui).spec_height(),
        final(ui).regions() == old(ui).regions(),
        final(ui).program() == wrote(
            old(ui).regions(),
            old(ui).spec_width(),
            old(ui).spec_height(),
            old(ui).program(),
            Ownership::Time1,
            0,
            0,
            mm_ss_text(spec_remaining_secs(*timer) as nat),
            0,
        ),
{
    let line = to_mm_ss(timer.remaining_secs());
    ui.write(&Ownership::Time1, 0, 0, line.as_str(), 0);
}

/// Writes how long the song is, as a clock shows it.
pub fn draw_time_max(ui: &mut UI<Ownership>, timer: &Timer)
    requires
        old(ui).wf(),
    ensures
        final(ui).wf(),
        final(ui).spec_width() == old(ui).spec_width(),
        final(ui).spec_height() == old(ui).spec_height(),
        final(ui).regions() == old(ui).regions(),
        final(ui).program() == wrote(
            old(ui).regions(),
            old(ui).spec_width(),
            old(ui).spec_height(),
            old(ui).program(),
            Ownership::Time2,
            0,
            0,
            mm_ss_text(timer.maxlen.secs as nat),
            0,
        ),
{
    let line = to_mm_ss(timer.maxlen.secs);
    ui.write(&Ownership::Time2, 0, 0, line.as_str(), 0);
}

} // verus!
