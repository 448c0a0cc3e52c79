use neocrystal::backend::{Drawn, Recorder};
use neocrystal::controls::{Indexer, ReinitMode, SearchQuery};
use neocrystal::layout::{autoalloc, Ownership};
use neocrystal::screen::{
    draw_artist, draw_centred, draw_const, draw_loop_indc, draw_page, draw_rpc_indc, draw_search,
    draw_shuffle_indc, draw_sliding, draw_song_indicators, draw_song_text, draw_time_cur,
    draw_time_max, draw_vol_indc,
};
use neocrystal::timing::Timer;
use neocrystal::songs::{Song, Songs};
use neocrystal::timing::Length;
use neocrystal::ui::UI;

fn screen() -> UI<Ownership> {
    let mut ui: UI<Ownership> = UI::new(50, 20);
    autoalloc(&mut ui, "-");
    ui
}

fn catalogue(n: usize) -> Songs {
    let mut songs = Vec::new();
    for i in 0..n {
        songs.push(Song::new(
            format!("music/Song {}.mp3", i),
            String::from("Artist"),
            Length { secs: 10, nanos: 0 },
        ));
    }
    Songs::constructor(songs)
}

fn frame(ui: &mut UI<Ownership>) -> Vec<Drawn> {
    let mut recorder = Recorder::new();
    ui.draw::<Recorder, Recorder>(&mut recorder);
    recorder.log
}

/// The texts drawn in a frame, each with its cell and colour, fills left out.
fn texts(ops: &[Drawn]) -> Vec<(usize, usize, String, u32)> {
    let mut out = Vec::new();
    let mut at = (0, 0);
    for op in ops {
        match op {
            Drawn::Cursor(x, y) => at = (*x, *y),
            Drawn::Blob(bytes, color) => {
                out.push((at.0, at.1, String::from_utf8(bytes.clone()).unwrap(), *color))
            }
            Drawn::Flush => {}
        }
    }
    out
}

#[test]
fn every_row_of_the_page_gets_a_mark() {
    let mut ui = screen();
    let mut songs = catalogue(4);
    songs.set_by_pindex(1, 1).unwrap();
    songs.blacklist(3);
    draw_song_indicators(&mut ui, &songs, 1, false);
    // The field is one column wide, so no row is blanked first.
    assert_eq!(ui.instructions().len(), 14);
    let drawn = texts(&frame(&mut ui));
    assert_eq!(drawn[0], (1, 1, String::from(" "), 0));
    assert_eq!(drawn[1], (1, 2, String::from(">"), 1));
    assert_eq!(drawn[2], (1, 3, String::from("*"), 4));
    assert_eq!(drawn[3], (1, 4, String::from("x"), 2));
    for row in 4..14 {
        assert_eq!(drawn[row], (1, 1 + row, String::from(" "), 0));
    }
}

#[test]
fn a_looping_player_shows_no_next_song() {
    let mut ui = screen();
    let mut songs = catalogue(3);
    songs.set_by_pindex(0, 1).unwrap();
    draw_song_indicators(&mut ui, &songs, 0, true);
    let drawn = texts(&frame(&mut ui));
    assert_eq!(drawn[0].2, ">");
    assert_eq!(drawn[1].2, " ");
    draw_song_indicators(&mut ui, &songs, 2, false);
    let drawn = texts(&frame(&mut ui));
    assert!(drawn.iter().all(|d| d.2 == " "));
}

#[test]
fn the_list_shows_the_names_of_the_page_and_blanks_the_rest() {
    let mut ui = screen();
    let songs = catalogue(16);
    draw_song_text(&mut ui, &songs, &Indexer { page: 2, index: 1 }, false);
    let ops = frame(&mut ui);
    // Two rows with a fill and a name each, twelve rows with a fill alone.
    assert_eq!(ops.len(), 2 * (2 * 2 + 12) + 1);
    let drawn = texts(&ops);
    assert_eq!(drawn[0], (2, 1, " ".repeat(46), 0));
    assert_eq!(drawn[1], (2, 1, String::from("Song 14"), 0));
    assert_eq!(drawn[3], (2, 2, String::from("Song 15"), 3));
    assert_eq!(drawn[4], (2, 3, " ".repeat(46), 0));
    draw_song_text(&mut ui, &songs, &Indexer { page: 2, index: 1 }, true);
    let drawn = texts(&frame(&mut ui));
    assert_eq!(drawn[3], (2, 2, String::from("Song 15"), 0));
}

#[test]
fn the_indicators_show_yes_and_no() {
    let mut ui = screen();
    draw_const(&mut ui);
    draw_shuffle_indc(&mut ui, true);
    draw_loop_indc(&mut ui, false);
    let drawn = texts(&frame(&mut ui));
    assert_eq!(
        drawn,
        vec![
            (2, 17, " ".repeat(8), 0),
            (2, 17, String::from("Shu Rep"), 0),
            (41, 17, String::from("Rpc Vol"), 0),
            (2, 18, String::from("yes"), 1),
            (6, 18, String::from("   "), 0),
            (6, 18, String::from("no"), 2),
        ]
    );
}

#[test]
fn the_presence_indicator_shows_what_is_owed() {
    let mut ui = screen();
    draw_rpc_indc(&mut ui, ReinitMode::Init);
    draw_rpc_indc(&mut ui, ReinitMode::Renew);
    draw_rpc_indc(&mut ui, ReinitMode::Pretend);
    draw_rpc_indc(&mut ui, ReinitMode::Idle);
    let drawn = texts(&frame(&mut ui));
    assert_eq!(
        drawn,
        vec![
            (41, 18, String::from("int"), 2),
            (41, 18, String::from("rnw"), 4),
            (41, 18, String::from("rnw"), 4),
            (41, 18, String::from("yes"), 1),
        ]
    );
}

#[test]
fn the_search_line_invites_or_shows_what_was_typed() {
    let mut ui = screen();
    draw_search(&mut ui, &SearchQuery { mode: 0, query: String::from("false") });
    draw_search(&mut ui, &SearchQuery { mode: 1, query: String::from("abc") });
    let drawn = texts(&frame(&mut ui));
    assert_eq!(drawn[1], (2, 0, String::from("Search or edit"), 9));
    assert_eq!(drawn[3], (2, 0, String::from("Search: abc"), 9));
    assert_eq!(drawn[0], (2, 0, "-".repeat(32), 0));
}

#[test]
fn centred_text_starts_half_its_width_before_the_middle() {
    let mut ui = screen();
    draw_sliding(&mut ui, "abcdef");
    draw_artist(&mut ui, "日本");
    draw_centred(&mut ui, Ownership::Time1, "123456", 0);
    draw_centred(&mut ui, Ownership::Time1, "12345", 5);
    let drawn = texts(&frame(&mut ui));
    assert_eq!(
        drawn,
        vec![
            (14, 16, " ".repeat(23), 0),
            (14 + 11 - 3, 16, String::from("abcdef"), 1),
            (12, 18, " ".repeat(27), 0),
            (12 + 13 - 2, 18, String::from("日本"), 0),
            (12, 17, String::from("12345"), 5),
        ]
    );
}

#[test]
fn a_field_that_is_not_declared_takes_no_centred_text() {
    let mut ui: UI<Ownership> = UI::new(50, 20);
    draw_artist(&mut ui, "abc");
    assert!(ui.instructions().is_empty());
}

#[test]
fn the_page_field_shows_a_page_that_exists() {
    let mut ui = screen();
    draw_page(&mut ui, 30, 14, 2);
    draw_page(&mut ui, 30, 14, 9);
    draw_page(&mut ui, 0, 14, 0);
    draw_page(&mut ui, 28, 14, 1);
    draw_page(&mut ui, 5, 0, 3);
    let drawn: Vec<String> =
        texts(&frame(&mut ui)).into_iter().filter(|d| d.3 == 0 && d.2.starts_with('<')).map(|d| d.2).collect();
    assert_eq!(
        drawn,
        vec!["< Page: 2/3 >", "< Page: 3/3 >", "< Page: 1/1 >", "< Page: 1/2 >", "< Page: 3/5 >"]
    );
}

#[test]
fn volume_and_times_are_shown_as_numbers() {
    let mut ui = screen();
    draw_vol_indc(&mut ui, 50);
    draw_vol_indc(&mut ui, 100);
    let timer = Timer {
        maxlen: Length { secs: 225, nanos: 0 },
        fcalc: Length { secs: 100, nanos: 1 },
    };
    draw_time_max(&mut ui, &timer);
    draw_time_cur(&mut ui, &timer);
    let drawn = texts(&frame(&mut ui));
    assert_eq!(
        drawn,
        vec![
            (45, 18, String::from(" 50"), 0),
            (45, 18, String::from("100"), 0),
            (34, 17, String::from("03:45"), 0),
            (12, 17, String::from("02:04"), 0),
        ]
    );
}
