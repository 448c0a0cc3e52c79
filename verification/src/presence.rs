//! What the presence thread shows of the player: the commands it takes, and
//! the state by which it turns each command into what to show.

use crate::controls::ReinitMode;
use crate::songs::Songs;
use crate::timing::{spec_remaining_secs, Timer};
use vstd::prelude::*;

verus! {

/// A message to the presence thread. Times are whole seconds; `Init` carries
/// the song's name, its artist, its length, and the second of the epoch at
/// which it started.
pub enum RpcCommand {
    Init(String, String, u64, u64),
    Renew(u64),
    Stop,
    Clear,
    Pretend(u64),
}

/// The message that renews the timestamps after a seek.
pub fn rpc_rnw_autobuild(timer: &Timer) -> (r: RpcCommand)
    ensures
        r == RpcCommand::Renew(spec_remaining_secs(*timer) as u64),
{
    RpcCommand::Renew(timer.remaining_secs())
}

/// The message that takes the presence up again after a pause.
pub fn rpc_pretend_autobuild(timer: &Timer) -> (r: RpcCommand)
    ensures
        r == RpcCommand::Pretend(spec_remaining_secs(*timer) as u64),
{
    RpcCommand::Pretend(timer.remaining_secs())
}

/// The message that announces the song that plays: its name and artist, its
/// length `stamp`, and the second `at` at which it started.
pub fn rpc_init_autobuild(songs: &Songs, stamp: u64, at: u64) -> (r: RpcCommand)
    ensures
        (r matches RpcCommand::Init(name, artist, length, started) && {
            &&& length == stamp
            &&& started == at
            &&& name@ == if songs.current_index >= songs.all_songs@.len() {
                "Nothing"@
            } else {
                songs.all_songs@[songs.current_index as int].name@
            }
            &&& artist@ == if songs.current_index >= songs.all_songs@.len() {
                "Unknown"@
            } else {
                songs.all_songs@[songs.current_index as int].artist@
            }
        }),
{
    RpcCommand::Init(songs.current_name(), songs.get_artist_search(), stamp, at)
}

/// The message that is owed in `mode`, if one is: the announcement carries
/// the whole seconds of the song's length and the second `at`.
pub fn rpc_autobuild(mode: ReinitMode, timer: &Timer, songs: &Songs, at: u64) -> (r: Option<
    RpcCommand,
>)
    ensures
        (match mode {
            ReinitMode::Idle => r is None,
            ReinitMode::Renew => r == Some(RpcCommand::Renew(spec_remaining_secs(*timer) as u64)),
            ReinitMode::Pretend => r == Some(
                RpcCommand::Pretend(spec_remaining_secs(*timer) as u64),
            ),
            ReinitMode::Init => r matches Some(RpcCommand::Init(name, artist, length, started)) && {
                &&& length == timer.maxlen.secs
                &&& started == at
                &&& name@ == if songs.current_index >= songs.all_songs@.len() {
                    "Nothing"@
                } else {
                    songs.all_songs@[songs.current_index as int].name@
                }
                &&& artist@ == if songs.current_index >= songs.all_songs@.len() {
                    "Unknown"@
                } else {
                    songs.all_songs@[songs.current_index as int].artist@
                }
            },
        }),
{
    match mode {
        ReinitMode::Idle => None,
        ReinitMode::Renew => Some(rpc_rnw_autobuild(timer)),
        ReinitMode::Pretend => Some(rpc_pretend_autobuild(timer)),
        ReinitMode::Init => Some(rpc_init_autobuild(songs, timer.maxlen.secs, at)),
    }
}

/// Whether a song was announced.
#[derive(Clone, Copy, Debug, PartialEq, Eq, Structural)]
pub enum Init {
    Yes,
    No,
    Pretend,
}

/// What the presence thread remembers between commands: start and end of the
/// song, each as announced and as shown now; what is shown as state and as
/// details; and whether a song was announced.
pub struct Presence {
    pub st_ts: (u64, u64),
    pub ed_ts: (u64, u64),
    pub title: String,
    pub detai: String,
    pub init: Init,
}

/// What the thread does after a command.
#[derive(Clone, Copy, Debug, PartialEq, Eq, Structural)]
pub enum Shown {
    /// Leave the loop.
    Stop,
    /// Take the activity off the display.
    Clear,
    /// Nothing: the command does not apply.
    Skip,
    /// Show the state, the details and the two timestamps shown now.
    Activity,
}

/// `a + b`, and the greatest number where that is too much.
pub open spec fn sat_add(a: u64, b: u64) -> u64 {
    if a + b > u64::MAX {
        u64::MAX
    } else {
        (a + b) as u64
    }
}

/// `a - b`, and 0 where that is too little.
pub open spec fn sat_sub(a: u64, b: u64) -> u64 {
    if a < b {
        0
    } else {
        (a - b) as u64
    }
}

/// The timestamps shown after the song's start was moved to `time` seconds
/// before `now`: the end keeps its distance from the start.
pub open spec fn moved(st_ts: (u64, u64), ed_ts: (u64, u64), time: u64, now: u64) -> (
    (u64, u64),
    (u64, u64),
) {
    let start = sat_sub(now, time);
    ((st_ts.0, start), (ed_ts.0, sat_add(sat_sub(ed_ts.0, st_ts.0), start)))
}

impl Presence {
    /// The state before any command.
    pub fn new() -> (r: Self)
        ensures
            r.st_ts == (0u64, 0u64),
            r.ed_ts == (0u64, 0u64),
            r.title@ == Seq::<char>::empty(),
            r.detai@ == Seq::<char>::empty(),
            r.init == Init::No,
    {
        Presence {
            st_ts: (0, 0),
            ed_ts: (0, 0),
            title: String::new(),
            detai: String::new(),
            init: Init::No,
        }
    }

    /// Takes one command, `now` being the second of the epoch at which it is
    /// taken.
    ///
    /// `Stop` ends the loop. `Clear` takes the activity away and waits for a
    /// `Pretend`. `Renew` applies only while a song is announced, `Pretend`
    /// only after a `Clear`; both move the start to the given seconds before
    /// now and the end with it. `Init` announces a song: artist as state,
    /// name as details, start at the second given, end a length later.
    pub fn handle(&mut self, command: RpcCommand, now: u64) -> (r: Shown)
        ensures
            (match command {
                RpcCommand::Stop => r == Shown::Stop && *final(self) == *old(self),
                RpcCommand::Clear => {
                    &&& r == Shown::Clear
                    &&& final(self).init == Init::Pretend
                    &&& final(self).st_ts == old(self).st_ts
                    &&& final(self).ed_ts == old(self).ed_ts
                    &&& final(self).title == old(self).title
                    &&& final(self).detai == old(self).detai
                },
                RpcCommand::Renew(time) => if old(self).init != Init::Yes {
                    r == Shown::Skip && *final(self) == *old(self)
                } else {
                    &&& r == Shown::Activity
                    &&& (final(self).st_ts, final(self).ed_ts) == moved(
                        old(self).st_ts,
                        old(self).ed_ts,
                        time,
                        now,
                    )
                    &&& final(self).init == Init::Yes
                    &&& final(self).title == old(self).title
                    &&& final(self).detai == old(self).detai
                },
                RpcCommand::Pretend(time) => if old(self).init != Init::Pretend {
                    r == Shown::Skip && *final(self) == *old(self)
                } else {
                    &&& r == Shown::Activity
                    &&& (final(self).st_ts, final(self).ed_ts) == moved(
                        old(self).st_ts,
                        old(self).ed_ts,
                        time,
                        now,
                    )
                    &&& final(self).init == Init::Yes
                    &&& final(self).title == old(self).title
                    &&& final(self).detai == old(self).detai
                },
                RpcCommand::Init(name, artist, time, at) => {
                    &&& r == Shown::Activity
                    &&& final(self).st_ts == (at, at)
                    &&& final(self).ed_ts == (sat_add(at, time), sat_add(at, time))
                    &&& final(self).title == artist
                    &&& final(self).detai == name
                    &&& final(self).init == Init::Yes
                },
            }),
    {
        match command {
            RpcCommand::Stop => {
                return Shown::Stop;
            },
            RpcCommand::Clear => {
                self.init = Init::Pretend;
                return Shown::Clear;
            },
            RpcCommand::Renew(time) => {
                match self.init {
                    Init::Yes => {},
                    _ => {
                        return Shown::Skip;
                    },
                }
                self.st_ts.1 = now.saturating_sub(time);
                self.ed_ts.1 = self.ed_ts.0.saturating_sub(self.st_ts.0).saturating_add(
                    self.st_ts.1,
                );
            },
            RpcCommand::Pretend(time) => {
                match self.init {
                    Init::Pretend => {},
                    _ => {
                        return Shown::Skip;
                    },
                }
                self.st_ts.1 = now.saturating_sub(time);
                self.ed_ts.1 = self.ed_ts.0.saturating_sub(self.st_ts.0).saturating_add(
                    self.st_ts.1,
                );
                self.init = Init::Yes;
            },
            RpcCommand::Init(name, artist, time, at) => {
                self.st_ts.0 = at;
                self.ed_ts.0 = at.saturating_add(time);
                self.title = artist;
                self.detai = name;
                self.st_ts.1 = self.st_ts.0;
                self.ed_ts.1 = self.ed_ts.0;
                self.init = Init::Yes;
            },
        }
        Shown::Activity
    }
}

} // verus!
