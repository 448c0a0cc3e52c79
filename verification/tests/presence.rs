use neocrystal::controls::{ReinitMode, RpcState};
use neocrystal::presence::{
    rpc_autobuild, rpc_init_autobuild, rpc_pretend_autobuild, rpc_rnw_autobuild, Init, Presence,
    RpcCommand, Shown,
};
use neocrystal::songs::{Song, Songs};
use neocrystal::text::{decimal, three_columns, to_mm_ss, two_digits};
use neocrystal::timing::{
    duration_autobuild, seek_backward_target, seek_forward_target, Length, Timer,
};

fn len(secs: u64, nanos: u32) -> Length {
    Length { secs, nanos }
}

#[test]
fn remaining_seconds_are_whole_and_never_negative() {
    let mut timer = Timer::new();
    assert_eq!(timer.remaining_secs(), 0);
    timer.maxlen = len(200, 0);
    timer.fcalc = len(150, 1);
    assert_eq!(timer.remaining_secs(), 49);
    timer.fcalc = len(150, 0);
    assert_eq!(timer.remaining_secs(), 50);
    timer.fcalc = len(201, 0);
    assert_eq!(timer.remaining_secs(), 0);
    assert!(matches!(rpc_rnw_autobuild(&timer), RpcCommand::Renew(0)));
    timer.fcalc = len(20, 500);
    assert!(matches!(rpc_rnw_autobuild(&timer), RpcCommand::Renew(179)));
    assert!(matches!(rpc_pretend_autobuild(&timer), RpcCommand::Pretend(179)));
}

#[test]
fn the_announcement_names_the_song_that_plays() {
    let mut songs = Songs::constructor(vec![Song::new(
        String::from("music/One.mp3"),
        String::from("Her"),
        len(60, 0),
    )]);
    match rpc_init_autobuild(&songs, 60, 1000) {
        RpcCommand::Init(name, artist, length, at) => {
            assert_eq!((name.as_str(), artist.as_str(), length, at), ("Nothing", "Unknown", 60, 1000));
        }
        _ => panic!("not an announcement"),
    }
    songs.set_by_pindex(0, 1).unwrap();
    match rpc_init_autobuild(&songs, 60, 1000) {
        RpcCommand::Init(name, artist, length, at) => {
            assert_eq!((name.as_str(), artist.as_str(), length, at), ("One", "Her", 60, 1000));
        }
        _ => panic!("not an announcement"),
    }
}

#[test]
fn the_presence_follows_its_commands() {
    let mut p = Presence::new();
    assert_eq!(p.handle(RpcCommand::Renew(5), 100), Shown::Skip);
    assert_eq!(p.handle(RpcCommand::Pretend(5), 100), Shown::Skip);
    assert_eq!(
        p.handle(RpcCommand::Init(String::from("Song"), String::from("Artist"), 200, 1000), 1001),
        Shown::Activity
    );
    assert_eq!((p.st_ts, p.ed_ts), ((1000, 1000), (1200, 1200)));
    assert_eq!((p.title.as_str(), p.detai.as_str()), ("Artist", "Song"));
    assert_eq!(p.init, Init::Yes);
    // A seek to 50 s into the song, noticed at second 1010.
    assert_eq!(p.handle(RpcCommand::Renew(50), 1010), Shown::Activity);
    assert_eq!((p.st_ts, p.ed_ts), ((1000, 960), (1200, 1160)));
    assert_eq!(p.handle(RpcCommand::Pretend(50), 1010), Shown::Skip);
    assert_eq!(p.handle(RpcCommand::Clear, 1020), Shown::Clear);
    assert_eq!(p.init, Init::Pretend);
    assert_eq!(p.handle(RpcCommand::Renew(50), 1030), Shown::Skip);
    assert_eq!(p.handle(RpcCommand::Pretend(60), 1030), Shown::Activity);
    assert_eq!((p.st_ts, p.ed_ts), ((1000, 970), (1200, 1170)));
    assert_eq!(p.init, Init::Yes);
    assert_eq!(p.handle(RpcCommand::Stop, 1040), Shown::Stop);
    assert_eq!((p.st_ts, p.ed_ts), ((1000, 970), (1200, 1170)));
}

#[test]
fn timestamps_stop_at_the_ends_of_the_number_line() {
    let mut p = Presence::new();
    p.handle(RpcCommand::Init(String::new(), String::new(), 10, u64::MAX - 3), 0);
    assert_eq!(p.ed_ts, (u64::MAX, u64::MAX));
    p.handle(RpcCommand::Renew(50), 20);
    assert_eq!(p.st_ts.1, 0);
    assert_eq!(p.ed_ts.1, 3);
}

#[test]
fn a_message_is_owed_three_seconds_after_it_was_asked_for() {
    let mut rpc = RpcState { reinit: false, timer: 0, mode: ReinitMode::Idle };
    assert!(!rpc.is_due(10));
    rpc.renew(1000);
    assert!(rpc.reinit);
    assert_eq!(rpc.timer, 4000);
    assert_eq!(rpc.mode, ReinitMode::Renew);
    assert!(!rpc.is_due(3999));
    assert!(rpc.is_due(4000));
    rpc.pretend(u64::MAX - 1);
    assert_eq!(rpc.timer, u64::MAX);
    assert_eq!(rpc.mode, ReinitMode::Pretend);
    rpc.init(5);
    assert_eq!((rpc.timer, rpc.mode), (3005, ReinitMode::Init));
    rpc.reset(7);
    assert!(!rpc.reinit);
    assert_eq!((rpc.timer, rpc.mode), (7, ReinitMode::Idle));
    assert!(!rpc.is_due(8));
}

#[test]
fn what_is_left_of_a_song_is_its_length_less_the_position() {
    assert_eq!(duration_autobuild(len(100, 0), len(40, 500_000_000)), len(59, 500_000_000));
    assert_eq!(duration_autobuild(len(100, 0), len(100, 0)), len(0, 0));
    assert_eq!(duration_autobuild(len(100, 0), len(130, 0)), len(0, 0));
    assert_eq!(duration_autobuild(len(100, 7), len(0, 0)), len(100, 7));
}

#[test]
fn seeks_go_five_seconds_and_stay_inside_the_song() {
    assert_eq!(seek_forward_target(len(10, 0), len(100, 0)), len(15, 0));
    assert_eq!(seek_forward_target(len(95, 0), len(100, 0)), len(99, 0));
    assert_eq!(seek_forward_target(len(97, 5), len(100, 0)), len(99, 0));
    assert_eq!(seek_forward_target(len(0, 0), len(0, 500)), len(0, 0));
    assert_eq!(seek_forward_target(len(10, 0), len(0, 0)), len(15, 0));
    assert_eq!(seek_backward_target(len(10, 3)), Some(len(5, 3)));
    assert_eq!(seek_backward_target(len(5, 0)), None);
    assert_eq!(seek_backward_target(len(5, 1)), Some(len(0, 1)));
    assert_eq!(seek_backward_target(len(2, 0)), None);
}

#[test]
fn lengths_turn_into_nanoseconds_and_back() {
    assert_eq!(len(3, 500).as_nanos(), 3_000_000_500);
    assert_eq!(Length::from_nanos(3_000_000_500), len(3, 500));
    assert_eq!(Length::zero(), len(0, 0));
}

#[test]
fn numbers_are_written_in_decimal() {
    assert_eq!(decimal(0), "0");
    assert_eq!(decimal(7), "7");
    assert_eq!(decimal(10), "10");
    assert_eq!(decimal(1234567890), "1234567890");
    assert_eq!(decimal(u64::MAX), "18446744073709551615");
    assert_eq!(two_digits(0), "00");
    assert_eq!(two_digits(9), "09");
    assert_eq!(two_digits(10), "10");
    assert_eq!(two_digits(123), "123");
    assert_eq!(three_columns(5), "  5");
    assert_eq!(three_columns(50), " 50");
    assert_eq!(three_columns(100), "100");
    assert_eq!(three_columns(1000), "1000");
}

#[test]
fn a_clock_shows_minutes_and_seconds() {
    assert_eq!(to_mm_ss(0), "00:00");
    assert_eq!(to_mm_ss(59), "00:59");
    assert_eq!(to_mm_ss(60), "01:00");
    assert_eq!(to_mm_ss(3725), "62:05");
    assert_eq!(to_mm_ss(6000), "100:00");
}

#[test]
fn the_message_owed_follows_the_mode() {
    let mut timer = Timer::new();
    timer.maxlen = len(200, 0);
    timer.fcalc = len(150, 0);
    let songs = Songs::constructor(Vec::new());
    assert!(rpc_autobuild(ReinitMode::Idle, &timer, &songs, 5).is_none());
    assert!(matches!(rpc_autobuild(ReinitMode::Renew, &timer, &songs, 5), Some(RpcCommand::Renew(50))));
    assert!(matches!(
        rpc_autobuild(ReinitMode::Pretend, &timer, &songs, 5),
        Some(RpcCommand::Pretend(50))
    ));
    match rpc_autobuild(ReinitMode::Init, &timer, &songs, 5) {
        Some(RpcCommand::Init(name, artist, length, at)) => {
            assert_eq!((name.as_str(), artist.as_str(), length, at), ("Nothing", "Unknown", 200, 5));
        }
        _ => panic!("not an announcement"),
    }
}
