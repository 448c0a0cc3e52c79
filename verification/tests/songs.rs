use neocrystal::songs::{Song, Songs};
use neocrystal::timing::Length;

fn song(path: &str, artist: &str) -> Song {
    Song::new(String::from(path), String::from(artist), Length { secs: 100, nanos: 5 })
}

fn catalogue(n: usize) -> Songs {
    let names = ["music/Alpha.mp3", "music/Beta.mp3", "music/Gamma.mp3", "music/Delta.mp3", "music/Epsilon.mp3"];
    let artists = ["Ann", "Bob", "Ann", "Cy", "Bob"];
    let mut songs = Vec::new();
    for i in 0..n {
        songs.push(song(names[i], artists[i]));
    }
    Songs::constructor(songs)
}

#[test]
fn a_song_is_named_after_its_file_and_searched_in_lower_case() {
    let s = song("music/Some Song.mp3", "The Artist");
    assert_eq!(s.path, "music/Some Song.mp3");
    assert_eq!(s.name, "Some Song");
    assert_eq!(s.artist, "The Artist");
    assert_eq!(s.searchable, "some song the artist");
    assert_eq!(s.duration, Length { secs: 100, nanos: 5 });
    assert!(!s.forced);
    let w = song("music\\Other.mp3", "X");
    assert_eq!(w.name, "Other");
    let plain = song("/home/me/Music/Plain.mp3", "Y");
    assert_eq!(plain.name, "/home/me/Music/Plain");
}

#[test]
fn a_new_catalogue_lists_everything_and_plays_nothing() {
    let songs = catalogue(3);
    assert_eq!(songs.filtered_songs, vec![0, 1, 2]);
    assert_eq!(songs.current_index, usize::MAX);
    assert!(songs.stophandler);
    assert!(!songs.shuffle);
    assert_eq!(songs.typical_page_size, 14);
    assert!(songs.blacklist.is_empty());
    assert_eq!(songs.get_next(), usize::MAX);
    assert_eq!(songs.current_song_path(), "Nothing");
    assert_eq!(songs.current_name(), "Nothing");
    assert_eq!(songs.get_artist_search(), "Unknown");
    assert_eq!(songs.get_duration(), Length { secs: 0, nanos: 0 });
    assert_eq!(songs.match_c(), usize::MAX);
    assert_eq!(songs.algorithm_setnext(), Err(()));
}

#[test]
fn playing_by_page_and_row_chooses_the_next_in_order() {
    let mut songs = catalogue(4);
    assert_eq!(songs.set_by_pindex(1, 1), Ok(()));
    assert_eq!(songs.current_index, 1);
    assert!(!songs.stophandler);
    assert_eq!(songs.get_next(), 2);
    assert_eq!(songs.current_song_path(), "music/Beta.mp3");
    assert_eq!(songs.current_name(), "Beta");
    assert_eq!(songs.get_artist_search(), "Bob");
    assert_eq!(songs.get_duration(), Length { secs: 100, nanos: 5 });
    assert_eq!(songs.match_c(), 1);
    assert_eq!(songs.get_filtered_index(3), Ok(3));
    assert_eq!(songs.get_filtered_index(9), Err(()));
}

#[test]
fn playing_a_place_that_is_not_listed_or_skipped_fails() {
    let mut songs = catalogue(3);
    assert_eq!(songs.set_by_pindex(3, 1), Err(1));
    assert_eq!(songs.set_by_pindex(0, 2), Err(1));
    assert_eq!(songs.set_by_pindex(0, usize::MAX), Err(1));
    songs.blacklist(2);
    assert_eq!(songs.set_by_pindex(2, 1), Err(0));
    assert_eq!(songs.current_index, usize::MAX);
    assert!(songs.stophandler);
}

#[test]
fn the_next_song_wraps_round_and_passes_over_skipped_ones() {
    let mut songs = catalogue(4);
    songs.set_by_pindex(3, 1).unwrap();
    assert_eq!(songs.get_next(), 0);
    songs.blacklist(0);
    assert!(songs.is_blacklist(0));
    assert_eq!(songs.get_next(), 1);
    songs.blacklist(1);
    songs.blacklist(2);
    // Everything but the song that plays is skipped: it follows itself.
    assert_eq!(songs.get_next(), 3);
    songs.blacklist(3);
    assert!(!songs.is_blacklist(3));
    assert_eq!(songs.blacklist, vec![0, 1, 2]);
}

#[test]
fn taking_a_song_back_in_chooses_anew_only_before_the_next() {
    let mut songs = catalogue(5);
    songs.set_by_pindex(0, 1).unwrap();
    songs.blacklist(1);
    songs.blacklist(3);
    assert_eq!(songs.get_next(), 2);
    songs.blacklist(3);
    assert_eq!(songs.blacklist, vec![1]);
    assert_eq!(songs.get_next(), 2);
    songs.blacklist(1);
    assert_eq!(songs.get_next(), 1);
    songs.blacklist(9);
    assert!(songs.blacklist.is_empty());
}

#[test]
fn going_to_the_next_song_moves_on_and_fails_without_one() {
    let mut songs = catalogue(3);
    assert_eq!(songs.set_by_next(), Err(()));
    songs.set_by_pindex(0, 1).unwrap();
    assert_eq!(songs.set_by_next(), Ok(1));
    assert_eq!(songs.current_index, 1);
    assert_eq!(songs.get_next(), 2);
    assert_eq!(songs.set_by_next(), Ok(2));
    assert_eq!(songs.get_next(), 0);
}

#[test]
fn a_forced_next_song_stays_until_it_plays() {
    let mut songs = catalogue(4);
    songs.set_by_pindex(0, 1).unwrap();
    songs.set_next(3);
    assert_eq!(songs.get_next(), 3);
    assert!(songs.all_songs[3].forced);
    assert_eq!(songs.algorithm_setnext(), Ok(3));
    songs.shuffle();
    assert_eq!(songs.get_next(), 3);
    songs.shuffle();
    assert_eq!(songs.set_by_next(), Ok(3));
    assert!(!songs.all_songs[3].forced);
    assert_eq!(songs.get_next(), 0);
}

#[test]
fn skipping_the_forced_next_song_unforces_it() {
    let mut songs = catalogue(4);
    songs.set_by_pindex(0, 1).unwrap();
    songs.set_next(2);
    songs.blacklist(2);
    assert!(!songs.all_songs[2].forced);
    assert_eq!(songs.get_next(), 1);
}

#[test]
fn shuffle_draws_a_candidate_and_never_the_song_that_plays() {
    let mut songs = catalogue(5);
    songs.set_by_pindex(2, 1).unwrap();
    songs.blacklist(4);
    songs.shuffle();
    assert!(songs.shuffle);
    assert_eq!(songs.candidate_list(), vec![0, 1, 3]);
    for _ in 0..50 {
        let next = songs.algorithm_setnext().unwrap();
        assert!(next == 0 || next == 1 || next == 3);
    }
    songs.blacklist(0);
    songs.blacklist(1);
    songs.blacklist(3);
    assert_eq!(songs.candidate_list(), Vec::<usize>::new());
    assert_eq!(songs.algorithm_setnext(), Err(()));
    songs.shuffle();
    assert!(!songs.shuffle);
}

#[test]
fn a_single_listed_song_follows_itself_unless_skipped() {
    let mut songs = catalogue(1);
    songs.set_by_pindex(0, 1).unwrap();
    assert_eq!(songs.get_next(), 0);
    songs.shuffle();
    assert_eq!(songs.get_next(), 0);
}

#[test]
fn search_lists_what_matches_in_any_case() {
    let mut songs = catalogue(5);
    songs.set_by_pindex(0, 1).unwrap();
    songs.search(&String::from("BOB"));
    assert_eq!(songs.filtered_songs, vec![1, 4]);
    assert_eq!(songs.match_c(), usize::MAX);
    assert_eq!(songs.get_next(), 1);
    songs.search(&String::from("alpha ann"));
    assert_eq!(songs.filtered_songs, vec![0]);
    songs.search(&String::from("zzz"));
    assert!(songs.filtered_songs.is_empty());
    assert_eq!(songs.get_next(), usize::MAX);
    songs.search(&String::from("false"));
    assert_eq!(songs.filtered_songs, vec![0, 1, 2, 3, 4]);
    songs.search(&String::from("a"));
    assert_eq!(songs.filtered_songs, vec![0, 1, 2, 3]);
    songs.search(&String::new());
    assert_eq!(songs.filtered_songs, vec![0, 1, 2, 3, 4]);
}

#[test]
fn the_artist_changes_only_while_the_player_runs() {
    let mut songs = catalogue(3);
    songs.set_artist(1, &String::from("New"));
    assert_eq!(songs.all_songs[1].artist, "Bob");
    songs.set_by_pindex(0, 1).unwrap();
    songs.set_artist(1, &String::from("New"));
    assert_eq!(songs.all_songs[1].artist, "New");
    assert_eq!(songs.all_songs[1].name, "Beta");
    songs.set_artist(7, &String::from("New"));
    songs.stop();
    assert!(songs.stophandler);
    assert_eq!(songs.current_index, 0);
}
