//! The catalogue of songs: what is listed, what plays, what is skipped, and
//! which song comes next.

use crate::timing::Length;
use rand::RngExt;
use vstd::prelude::*;

verus! {

/// `text` in lower case, as `str::to_lowercase` gives it.
pub uninterp spec fn lowercase_of(text: Seq<char>) -> Seq<char>;

/// `text` with every match of `from` replaced by `to`, as `str::replace`
/// gives it.
pub uninterp spec fn replaced(text: Seq<char>, from: Seq<char>, to: Seq<char>) -> Seq<char>;

/// `needle` stands somewhere in `haystack`.
pub open spec fn spec_contains(haystack: Seq<char>, needle: Seq<char>) -> bool {
    exists|i: int|
        0 <= i <= haystack.len() - needle.len() && #[trigger] haystack.subrange(
            i,
            i + needle.len(),
        ) == needle
}

/// Calls `str::to_lowercase`. The result is a function of the text alone;
/// nothing more is claimed of it.
#[verifier::external_body]
fn lowercase(text: &str) -> (r: String)
    ensures
        r@ == lowercase_of(text@),
{
    text.to_lowercase()
}

/// Calls `str::replace` with string patterns. The result is a function of
/// the three texts alone; nothing more is claimed of it.
#[verifier::external_body]
fn replace(text: &str, from: &str, to: &str) -> (r: String)
    ensures
        r@ == replaced(text@, from@, to@),
{
    text.replace(from, to)
}

/// Calls `str::contains` with a string pattern, which is true exactly when
/// the pattern is a substring.
#[verifier::external_body]
fn contains(haystack: &str, needle: &str) -> (r: bool)
    ensures
        r == spec_contains(haystack@, needle@),
{
    haystack.contains(needle)
}

/// The generator of random numbers of the running thread, `rand`'s
/// `ThreadRng`. Nothing is known of what it holds.
#[verifier::external_type_specification]
#[verifier::external_body]
pub struct ExThreadRng(rand::rngs::ThreadRng);

/// Calls `rand::rng`, which hands out the thread's generator. Nothing is
/// claimed of it. It panics where the system gives the generator no seed.
#[verifier::external_body]
fn thread_rng() -> (r: rand::rngs::ThreadRng) {
    rand::rng()
}

/// Calls `RngExt::random_range` with the range `0..n`, which panics on an
/// empty range and else gives a number of the range. Which one is not said:
/// it differs from call to call.
#[verifier::external_body]
fn random_below(rng: &mut rand::rngs::ThreadRng, n: usize) -> (r: usize)
    requires
        n > 0,
    ensures
        r < n,
{
    rng.random_range(0..n)
}

/// One song of the catalogue.
pub struct Song {
    pub path: String,
    pub name: String,
    pub artist: String,
    pub searchable: String,
    pub duration: Length,
    pub forced: bool,
}

/// The name a song is listed under: its path without the music directory and
/// without the file ending.
pub open spec fn name_of(path: Seq<char>) -> Seq<char> {
    replaced(
        replaced(replaced(path, "music/"@, ""@), "music\\"@, ""@),
        ".mp3"@,
        ""@,
    )
}

/// The text a search looks through: name and artist in lower case, a space
/// between them.
pub open spec fn searchable_of(name: Seq<char>, artist: Seq<char>) -> Seq<char> {
    lowercase_of(name) + " "@ + lowercase_of(artist)
}

impl Song {
    /// The song at `path`, by `artist`, `duration` long, not forced as next.
    pub fn new(path: String, artist: String, duration: Length) -> (r: Song)
        ensures
            r.path@ == path@,
            r.artist@ == artist@,
            r.name@ == name_of(path@),
            r.searchable@ == searchable_of(name_of(path@), artist@),
            r.duration == duration,
            !r.forced,
    {
        let first = replace(path.as_str(), "music/", "");
        let second = replace(first.as_str(), "music\\", "");
        let name = replace(second.as_str(), ".mp3", "");
        let searchable = lowercase(name.as_str()).concat(" ").concat(
            lowercase(artist.as_str()).as_str(),
        );
        Song { path, name, artist, searchable, duration, forced: false }
    }
}

/// The catalogue and the player's place in it. Songs are known by their place
/// in `all_songs`; `usize::MAX` stands for "none".
pub struct Songs {
    pub all_songs: Vec<Song>,
    pub filtered_songs: Vec<usize>,
    pub current_index: usize,
    pub stophandler: bool,
    pub shuffle: bool,
    pub typical_page_size: usize,
    pub blacklist: Vec<usize>,
    pub setnext: usize,
}

/// The first place at or after `from` at which `x` stands in `s`.
pub open spec fn first_index(s: Seq<usize>, x: usize, from: int) -> Option<int>
    decreases s.len() - from,
{
    if from < 0 || from >= s.len() {
        None
    } else if s[from] == x {
        Some(from)
    } else {
        first_index(s, x, from + 1)
    }
}

/// The first song listed at a place from `from` up to, not including, `to`
/// that is not skipped.
pub open spec fn first_allowed(listed: Seq<usize>, skipped: Seq<usize>, from: int, to: int) -> Option<
    usize,
>
    decreases to - from,
{
    if from < 0 || from >= to || to > listed.len() {
        None
    } else if !skipped.contains(listed[from]) {
        Some(listed[from])
    } else {
        first_allowed(listed, skipped, from + 1, to)
    }
}

/// Of the first `n` songs listed, those that may be drawn when shuffling:
/// not skipped, and not the one that plays.
pub open spec fn candidates(listed: Seq<usize>, skipped: Seq<usize>, current: usize, n: int) -> Seq<
    usize,
>
    decreases n,
{
    if n <= 0 || n > listed.len() {
        Seq::empty()
    } else if !skipped.contains(listed[n - 1]) && listed[n - 1] != current {
        candidates(listed, skipped, current, n - 1).push(listed[n - 1])
    } else {
        candidates(listed, skipped, current, n - 1)
    }
}

/// Of the first `n` songs of the catalogue, those whose searchable text holds
/// `pattern`.
pub open spec fn matching(all: Seq<Song>, pattern: Seq<char>, n: int) -> Seq<usize>
    decreases n,
{
    if n <= 0 || n > all.len() {
        Seq::empty()
    } else if spec_contains(all[n - 1].searchable@, pattern) {
        matching(all, pattern, n - 1).push((n - 1) as usize)
    } else {
        matching(all, pattern, n - 1)
    }
}

/// The places `0` to `n - 1`.
pub open spec fn places(n: int) -> Seq<usize> {
    Seq::new(
        if n < 0 {
            0
        } else {
            n as nat
        },
        |i: int| i as usize,
    )
}

/// The value of `setnext` that stands for the outcome `r`.
pub open spec fn as_setnext(r: Result<usize, ()>) -> usize {
    match r {
        Ok(i) => i,
        Err(_) => usize::MAX,
    }
}

impl Songs {
    /// Every place named is a place of the catalogue, and the catalogue is
    /// short enough for `usize::MAX` to stand for "none".
    pub open spec fn wf(&self) -> bool {
        &&& self.all_songs@.len() < usize::MAX
        &&& forall|i: int|
            0 <= i < self.filtered_songs@.len() ==> #[trigger] self.filtered_songs@[i]
                < self.all_songs@.len()
        &&& self.setnext == usize::MAX || self.setnext < self.all_songs@.len()
    }

    /// `i` is skipped.
    pub open spec fn spec_is_blacklist(&self, i: usize) -> bool {
        self.blacklist@.contains(i)
    }

    /// The song after the one that plays, in the order listed: the first one
    /// not skipped after it, round to the start and up to it again; or,
    /// where the one that plays is not listed, the first one not skipped.
    pub open spec fn sequential_next(&self) -> Option<usize> {
        let listed = self.filtered_songs@;
        match first_index(listed, self.current_index, 0) {
            Some(start) => match first_allowed(
                listed,
                self.blacklist@,
                start + 1,
                listed.len() as int,
            ) {
                Some(i) => Some(i),
                None => first_allowed(listed, self.blacklist@, 0, start + 1),
            },
            None => first_allowed(listed, self.blacklist@, 0, listed.len() as int),
        }
    }

    /// `r` is an outcome that choosing the next song may have.
    ///
    /// Nothing is chosen while nothing is listed or the player is stopped. A
    /// song forced as next stays. A single listed song is chosen unless it is
    /// skipped. When shuffling, any one of the candidates may be chosen, and
    /// nothing where there is none. Else the next in order is chosen.
    pub open spec fn may_be_next(&self, r: Result<usize, ()>) -> bool {
        let listed = self.filtered_songs@;
        if listed.len() == 0 || self.stophandler {
            r is Err
        } else if self.setnext != usize::MAX && self.all_songs@[self.setnext as int].forced {
            r == Ok::<usize, ()>(self.setnext)
        } else if listed.len() == 1 {
            r == if self.blacklist@.contains(listed[0]) {
                Err::<usize, ()>(())
            } else {
                Ok::<usize, ()>(listed[0])
            }
        } else if self.shuffle {
            let drawn = candidates(listed, self.blacklist@, self.current_index, listed.len() as int);
            if drawn.len() == 0 {
                r is Err
            } else {
                r is Ok && drawn.contains(r->Ok_0)
            }
        } else {
            r == match self.sequential_next() {
                Some(i) => Ok::<usize, ()>(i),
                None => Err::<usize, ()>(()),
            }
        }
    }

    /// The catalogue of `songs`, all of them listed, nothing playing, and a
    /// page of fourteen.
    pub fn constructor(songs: Vec<Song>) -> (r: Self)
        requires
            songs@.len() < usize::MAX,
        ensures
            r.wf(),
            r.all_songs@ == songs@,
            r.filtered_songs@ == places(songs@.len() as int),
            r.current_index == usize::MAX,
            r.stophandler,
            !r.shuffle,
            r.typical_page_size == 14,
            r.blacklist@ == Seq::<usize>::empty(),
            r.setnext == usize::MAX,
    {
        let filtered_songs = Self::all_places(songs.len());
        Self {
            all_songs: songs,
            filtered_songs,
            current_index: usize::MAX,
            stophandler: true,
            shuffle: false,
            typical_page_size: 14,
            blacklist: Vec::new(),
            setnext: usize::MAX,
        }
    }

    /// The places `0` to `n - 1`.
    fn all_places(n: usize) -> (r: Vec<usize>)
        ensures
            r@ == places(n as int),
    {
        let mut out: Vec<usize> = Vec::new();
        let mut i: usize = 0;
        while i < n
            invariant
                i <= n,
                out@ == places(i as int),
            decreases n - i,
        {
            out.push(i);
            i += 1;
            assert(out@ =~= places(i as int));
        }
        out
    }

    /// The path of the song that plays, or "Nothing".
    pub fn current_song_path(&self) -> (r: String)
        ensures
            (r@ == if self.stophandler || self.current_index >= self.all_songs@.len() {
                "Nothing"@
            } else {
                self.all_songs@[self.current_index as int].path@
            }),
    {
        if self.stophandler || self.current_index >= self.all_songs.len() {
            return "Nothing".to_owned();
        }
        self.all_songs[self.current_index].path.clone()
    }

    /// The name of the song that plays, or "Nothing".
    pub fn current_name(&self) -> (r: String)
        ensures
            (r@ == if self.current_index >= self.all_songs@.len() {
                "Nothing"@
            } else {
                self.all_songs@[self.current_index as int].name@
            }),
    {
        if self.current_index >= self.all_songs.len() {
            return "Nothing".to_owned();
        }
        self.all_songs[self.current_index].name.clone()
    }

    /// The artist of the song that plays, or "Unknown".
    pub fn get_artist_search(&self) -> (r: String)
        ensures
            (r@ == if self.current_index >= self.all_songs@.len() {
                "Unknown"@
            } else {
                self.all_songs@[self.current_index as int].artist@
            }),
    {
        if self.current_index >= self.all_songs.len() {
            return "Unknown".to_owned();
        }
        self.all_songs[self.current_index].artist.clone()
    }

    /// How long the song that plays is; no time at all while the player is
    /// stopped or no song plays.
    pub fn get_duration(&self) -> (r: Length)
        ensures
            (r == if self.stophandler || self.current_index >= self.all_songs@.len() {
                Length { secs: 0, nanos: 0 }
            } else {
                self.all_songs@[self.current_index as int].duration
            }),
    {
        if self.stophandler || self.current_index >= self.all_songs.len() {
            return Length { secs: 0, nanos: 0 };
        }
        self.all_songs[self.current_index].duration
    }

    /// Forces the song at `song_index` to come next.
    pub fn set_next(&mut self, song_index: usize)
        requires
            old(self).wf(),
            song_index < old(self).all_songs@.len(),
        ensures
            final(self).wf(),
            final(self).setnext == song_index,
            final(self).all_songs@ == old(self).all_songs@.update(
                song_index as int,
                Song { forced: true, ..old(self).all_songs@[song_index as int] },
            ),
            final(self).filtered_songs == old(self).filtered_songs,
            final(self).blacklist == old(self).blacklist,
            final(self).current_index == old(self).current_index,
            final(self).stophandler == old(self).stophandler,
            final(self).shuffle == old(self).shuffle,
            final(self).typical_page_size == old(self).typical_page_size,
    {
        self.setnext = song_index;
        self.all_songs[song_index].forced = true;
        assert(self.all_songs@ =~= old(self).all_songs@.update(
            song_index as int,
            Song { forced: true, ..old(self).all_songs@[song_index as int] },
        ));
    }

    /// The song that comes next, `usize::MAX` for none.
    pub fn get_next(&self) -> (r: usize)
        ensures
            r == self.setnext,
    {
        self.setnext
    }

    /// The first place at which `x` stands in `list`.
    fn position(list: &Vec<usize>, x: usize) -> (r: Option<usize>)
        ensures
            (match r {
                Some(i) => first_index(list@, x, 0) == Some(i as int) && i < list@.len() && list@[i as int] == x,
                None => first_index(list@, x, 0) is None && !list@.contains(x),
            }),
    {
        let mut i: usize = 0;
        while i < list.len()
            invariant
                i <= list.len(),
                first_index(list@, x, 0) == first_index(list@, x, i as int),
                forall|j: int| 0 <= j < i ==> list@[j] != x,
            decreases list.len() - i,
        {
            if list[i] == x {
                return Some(i);
            }
            i += 1;
        }
        None
    }

    /// The place in the list at which the song `song_index` stands.
    pub fn get_filtered_index(&self, song_index: usize) -> (r: Result<usize, ()>)
        ensures
            (match r {
                Ok(i) => first_index(self.filtered_songs@, song_index, 0) == Some(i as int),
                Err(_) => first_index(self.filtered_songs@, song_index, 0) is None,
            }),
    {
        match Self::position(&self.filtered_songs, song_index) {
            Some(i) => Ok(i),
            None => Err(()),
        }
    }

    /// The place in the list of the song that plays, `usize::MAX` where it is
    /// not listed.
    pub fn match_c(&self) -> (r: usize)
        ensures
            r == (match first_index(self.filtered_songs@, self.current_index, 0) {
                Some(i) => i as usize,
                None => usize::MAX,
            }),
    {
        match Self::position(&self.filtered_songs, self.current_index) {
            Some(i) => i,
            None => usize::MAX,
        }
    }

    /// Whether the song `song_index` is skipped.
    pub fn is_blacklist(&self, song_index: usize) -> (r: bool)
        ensures
            r == self.spec_is_blacklist(song_index),
    {
        Self::position(&self.blacklist, song_index).is_some()
    }

    /// The first song listed from place `from` up to, not including, `to`
    /// that is not skipped.
    fn scan(&self, from: usize, to: usize) -> (r: Option<usize>)
        requires
            to <= self.filtered_songs@.len(),
        ensures
            r == first_allowed(self.filtered_songs@, self.blacklist@, from as int, to as int),
    {
        let mut i: usize = from;
        while i < to
            invariant
                from <= i,
                to <= self.filtered_songs@.len(),
                first_allowed(self.filtered_songs@, self.blacklist@, from as int, to as int)
                    == first_allowed(self.filtered_songs@, self.blacklist@, i as int, to as int),
            decreases to - i,
        {
            let song: usize = self.filtered_songs[i];
            if !self.is_blacklist(song) {
                return Some(song);
            }
            i += 1;
        }
        None
    }

    /// The songs that may be drawn when shuffling, in the order listed.
    pub fn candidate_list(&self) -> (r: Vec<usize>)
        ensures
            r@ == candidates(
                self.filtered_songs@,
                self.blacklist@,
                self.current_index,
                self.filtered_songs@.len() as int,
            ),
    {
        let mut out: Vec<usize> = Vec::new();
        let mut i: usize = 0;
        while i < self.filtered_songs.len()
            invariant
                i <= self.filtered_songs@.len(),
                out@ == candidates(
                    self.filtered_songs@,
                    self.blacklist@,
                    self.current_index,
                    i as int,
                ),
            decreases self.filtered_songs.len() - i,
        {
            let song: usize = self.filtered_songs[i];
            if !self.is_blacklist(song) && song != self.current_index {
                out.push(song);
            }
            i += 1;
        }
        out
    }

    /// Chooses the song that comes next. Only when shuffling is the choice
    /// left to chance, and then among the candidates alone.
    pub fn algorithm_setnext(&self) -> (r: Result<usize, ()>)
        requires
            self.wf(),
        ensures
            self.may_be_next(r),
            r is Ok ==> r->Ok_0 < self.all_songs@.len(),
    {
        let n: usize = self.filtered_songs.len();
        if n == 0 || self.stophandler {
            return Err(());
        }
        if self.setnext != usize::MAX && self.all_songs[self.setnext].forced {
            return Ok(self.setnext);
        }
        if n == 1 {
            let song_index: usize = self.filtered_songs[0];
            if self.is_blacklist(song_index) {
                return Err(());
            } else {
                return Ok(song_index);
            }
        }
        if self.shuffle {
            let candidate_list = self.candidate_list();
            if candidate_list.len() == 0 {
                return Err(());
            }
            let mut rng = thread_rng();
            let idx: usize = random_below(&mut rng, candidate_list.len());
            proof {
                candidates_are_listed(
                    self.filtered_songs@,
                    self.blacklist@,
                    self.current_index,
                    n as int,
                );
            }
            return Ok(candidate_list[idx]);
        }
        proof {
            first_allowed_is_listed(self.filtered_songs@, self.blacklist@, 0, n as int);
        }
        match Self::position(&self.filtered_songs, self.current_index) {
            Some(start) => {
                proof {
                    first_allowed_is_listed(
                        self.filtered_songs@,
                        self.blacklist@,
                        start + 1,
                        n as int,
                    );
                    first_allowed_is_listed(self.filtered_songs@, self.blacklist@, 0, start + 1);
                }
                match self.scan(start + 1, n) {
                    Some(i) => Ok(i),
                    None => match self.scan(0, start + 1) {
                        Some(i) => Ok(i),
                        None => Err(()),
                    },
                }
            },
            None => match self.scan(0, n) {
                Some(i) => Ok(i),
                None => Err(()),
            },
        }
    }

    /// Chooses the next song anew and keeps the choice.
    fn choose_next(&mut self)
        requires
            old(self).wf(),
        ensures
            final(self).wf(),
            old(self).may_be_next(
                if final(self).setnext == usize::MAX {
                    Err::<usize, ()>(())
                } else {
                    Ok::<usize, ()>(final(self).setnext)
                },
            ),
            final(self).all_songs == old(self).all_songs,
            final(self).filtered_songs == old(self).filtered_songs,
            final(self).blacklist == old(self).blacklist,
            final(self).current_index == old(self).current_index,
            final(self).stophandler == old(self).stophandler,
            final(self).shuffle == old(self).shuffle,
            final(self).typical_page_size == old(self).typical_page_size,
    {
        self.setnext = match self.algorithm_setnext() {
            Ok(i) => i,
            Err(_) => usize::MAX,
        };
    }

    /// Stops the player; the place in the catalogue stays.
    pub fn stop(&mut self)
        ensures
            final(self).stophandler,
            final(self).all_songs == old(self).all_songs,
            final(self).filtered_songs == old(self).filtered_songs,
            final(self).blacklist == old(self).blacklist,
            final(self).current_index == old(self).current_index,
            final(self).setnext == old(self).setnext,
            final(self).shuffle == old(self).shuffle,
            final(self).typical_page_size == old(self).typical_page_size,
    {
        self.stophandler = true;
    }

    /// Switches shuffling on or off and chooses the next song anew.
    pub fn shuffle(&mut self)
        requires
            old(self).wf(),
        ensures
            final(self).wf(),
            final(self).shuffle == !old(self).shuffle,
            (Songs { shuffle: !old(self).shuffle, ..*old(self) }).may_be_next(
                if final(self).setnext == usize::MAX {
                    Err::<usize, ()>(())
                } else {
                    Ok::<usize, ()>(final(self).setnext)
                },
            ),
            final(self).all_songs == old(self).all_songs,
            final(self).filtered_songs == old(self).filtered_songs,
            final(self).blacklist == old(self).blacklist,
            final(self).current_index == old(self).current_index,
            final(self).stophandler == old(self).stophandler,
            final(self).typical_page_size == old(self).typical_page_size,
    {
        self.shuffle = !self.shuffle;
        self.choose_next();
    }

    /// Makes the song `song_index` the one that plays; it is no longer
    /// forced.
    fn renew_current_status(&mut self, song_index: usize)
        requires
            old(self).wf(),
            song_index < old(self).all_songs@.len(),
        ensures
            final(self).wf(),
            final(self).current_index == song_index,
            final(self).all_songs@ == old(self).all_songs@.update(
                song_index as int,
                Song { forced: false, ..old(self).all_songs@[song_index as int] },
            ),
            final(self).filtered_songs == old(self).filtered_songs,
            final(self).blacklist == old(self).blacklist,
            final(self).setnext == old(self).setnext,
            final(self).stophandler == old(self).stophandler,
            final(self).shuffle == old(self).shuffle,
            final(self).typical_page_size == old(self).typical_page_size,
    {
        self.current_index = song_index;
        self.all_songs[song_index].forced = false;
        assert(self.all_songs@ =~= old(self).all_songs@.update(
            song_index as int,
            Song { forced: false, ..old(self).all_songs@[song_index as int] },
        ));
    }

    /// Plays the song on row `index` of page `page`.
    ///
    /// `Err(1)` where no song is listed there, `Err(0)` where the song there
    /// is skipped; in both cases nothing changes. Else the song plays, the
    /// player runs, and the next song is chosen.
    pub fn set_by_pindex(&mut self, index: usize, page: usize) -> (r: Result<(), u8>)
        requires
            old(self).wf(),
            page >= 1,
        ensures
            final(self).wf(),
            ({
                let place = crate::controls::spec_absolute_index(
                    index as int,
                    page as int,
                    old(self).typical_page_size as int,
                );
                if place >= old(self).filtered_songs@.len() {
                    r == Err::<(), u8>(1) && *final(self) == *old(self)
                } else if old(self).blacklist@.contains(old(self).filtered_songs@[place]) {
                    r == Err::<(), u8>(0) && *final(self) == *old(self)
                } else {
                    let song = old(self).filtered_songs@[place];
                    &&& r is Ok
                    &&& final(self).current_index == song
                    &&& !final(self).stophandler
                    &&& final(self).all_songs@ == old(self).all_songs@.update(
                        song as int,
                        Song { forced: false, ..old(self).all_songs@[song as int] },
                    )
                    &&& final(self).filtered_songs == old(self).filtered_songs
                    &&& final(self).blacklist == old(self).blacklist
                    &&& final(self).shuffle == old(self).shuffle
                    &&& final(self).typical_page_size == old(self).typical_page_size
                    &&& (Songs { setnext: old(self).setnext, ..*final(self) }).may_be_next(
                        if final(self).setnext == usize::MAX {
                            Err::<usize, ()>(())
                        } else {
                            Ok::<usize, ()>(final(self).setnext)
                        },
                    )
                }
            }),
    {
        let listed: usize = self.filtered_songs.len();
        let absolute: usize = match crate::controls::absolute_index(
            index,
            page,
            self.typical_page_size,
        ) {
            Some(place) => place,
            None => {
                return Err(1);
            },
        };
        if absolute >= listed {
            return Err(1);
        }
        let song_index: usize = self.filtered_songs[absolute];
        if self.is_blacklist(song_index) {
            return Err(0);
        }
        self.renew_current_status(song_index);
        self.stophandler = false;
        let ghost before = *self;
        self.choose_next();
        assert(before == (Songs { setnext: old(self).setnext, ..*self }));
        Ok(())
    }

    /// Goes on to the song chosen as next, and chooses the one after it.
    /// Nothing changes, and `Err` is returned, where none was chosen.
    pub fn set_by_next(&mut self) -> (r: Result<usize, ()>)
        requires
            old(self).wf(),
        ensures
            final(self).wf(),
            old(self).setnext == usize::MAX ==> r is Err && *final(self) == *old(self),
            (old(self).setnext != usize::MAX ==> {
                &&& r == Ok::<usize, ()>(old(self).setnext)
                &&& final(self).current_index == old(self).setnext
                &&& final(self).all_songs@ == old(self).all_songs@.update(
                    old(self).setnext as int,
                    Song { forced: false, ..old(self).all_songs@[old(self).setnext as int] },
                )
                &&& final(self).filtered_songs == old(self).filtered_songs
                &&& final(self).blacklist == old(self).blacklist
                &&& final(self).stophandler == old(self).stophandler
                &&& final(self).shuffle == old(self).shuffle
                &&& final(self).typical_page_size == old(self).typical_page_size
                &&& (Songs { setnext: old(self).setnext, ..*final(self) }).may_be_next(
                    if final(self).setnext == usize::MAX {
                        Err::<usize, ()>(())
                    } else {
                        Ok::<usize, ()>(final(self).setnext)
                    },
                )
            }),
    {
        if self.setnext == usize::MAX {
            Err(())
        } else {
            self.renew_current_status(self.setnext);
            let ghost before = *self;
            self.choose_next();
            assert(before == (Songs { setnext: old(self).setnext, ..*self }));
            Ok(self.current_index)
        }
    }

    /// The places of the songs whose searchable text holds `pattern`, taken
    /// as it is given.
    pub fn matches(&self, pattern: &str) -> (r: Vec<usize>)
        requires
            self.wf(),
        ensures
            r@ == matching(self.all_songs@, pattern@, self.all_songs@.len() as int),
            forall|i: int| 0 <= i < r@.len() ==> #[trigger] r@[i] < self.all_songs@.len(),
    {
        let mut out: Vec<usize> = Vec::new();
        let mut i: usize = 0;
        while i < self.all_songs.len()
            invariant
                i <= self.all_songs@.len(),
                out@ == matching(self.all_songs@, pattern@, i as int),
                forall|k: int| 0 <= k < out@.len() ==> #[trigger] out@[k] < self.all_songs@.len(),
            decreases self.all_songs.len() - i,
        {
            if contains(self.all_songs[i].searchable.as_str(), pattern) {
                out.push(i);
            }
            i += 1;
        }
        out
    }

    /// The list that a search for `pattern` leaves: every song where the
    /// pattern is empty or the word "false", else the songs whose searchable
    /// text holds the pattern in lower case.
    pub open spec fn found(&self, pattern: Seq<char>) -> Seq<usize> {
        if pattern == "false"@ || pattern.len() == 0 {
            places(self.all_songs@.len() as int)
        } else {
            matching(self.all_songs@, lowercase_of(pattern), self.all_songs@.len() as int)
        }
    }

    /// Lists the songs that `pattern` finds, and chooses the next song anew.
    pub fn search(&mut self, pattern: &String)
        requires
            old(self).wf(),
        ensures
            final(self).wf(),
            final(self).filtered_songs@ == old(self).found(pattern@),
            final(self).all_songs == old(self).all_songs,
            final(self).blacklist == old(self).blacklist,
            final(self).current_index == old(self).current_index,
            final(self).stophandler == old(self).stophandler,
            final(self).shuffle == old(self).shuffle,
            final(self).typical_page_size == old(self).typical_page_size,
            (Songs { setnext: old(self).setnext, ..*final(self) }).may_be_next(
                if final(self).setnext == usize::MAX {
                    Err::<usize, ()>(())
                } else {
                    Ok::<usize, ()>(final(self).setnext)
                },
            ),
    {
        let rest = "false".to_owned();
        if pattern.eq(&rest) || pattern.as_str().is_empty() {
            self.filtered_songs = Self::all_places(self.all_songs.len());
        } else {
            let lowered = lowercase(pattern.as_str());
            self.filtered_songs = self.matches(lowered.as_str());
        }
        let ghost before = *self;
        self.choose_next();
        assert(before == (Songs { setnext: old(self).setnext, ..*self }));
    }

    /// Records that the artist of the listed song `index_in_filtered` is now
    /// `artist`. Nothing changes while the player is stopped or where no song
    /// is listed there.
    pub fn set_artist(&mut self, index_in_filtered: usize, artist: &String)
        requires
            old(self).wf(),
        ensures
            final(self).wf(),
            final(self).filtered_songs == old(self).filtered_songs,
            final(self).blacklist == old(self).blacklist,
            final(self).current_index == old(self).current_index,
            final(self).setnext == old(self).setnext,
            final(self).stophandler == old(self).stophandler,
            final(self).shuffle == old(self).shuffle,
            final(self).typical_page_size == old(self).typical_page_size,
            final(self).all_songs@.len() == old(self).all_songs@.len(),
            old(self).stophandler || index_in_filtered >= old(self).filtered_songs@.len()
                ==> final(self).all_songs == old(self).all_songs,
            (!old(self).stophandler && index_in_filtered < old(self).filtered_songs@.len() ==> {
                let idx = old(self).filtered_songs@[index_in_filtered as int] as int;
                &&& final(self).all_songs@[idx].artist@ == artist@
                &&& final(self).all_songs@[idx].path == old(self).all_songs@[idx].path
                &&& final(self).all_songs@[idx].name == old(self).all_songs@[idx].name
                &&& final(self).all_songs@[idx].searchable == old(self).all_songs@[idx].searchable
                &&& final(self).all_songs@[idx].duration == old(self).all_songs@[idx].duration
                &&& final(self).all_songs@[idx].forced == old(self).all_songs@[idx].forced
                &&& forall|k: int|
                    0 <= k < final(self).all_songs@.len() && k != idx ==> final(self).all_songs@[k] == old(self).all_songs@[k]
            }),
    {
        if self.stophandler || index_in_filtered >= self.filtered_songs.len() {
            return ;
        }
        let idx: usize = self.filtered_songs[index_in_filtered];
        self.all_songs[idx].artist = artist.clone();
    }

    /// The list of skipped songs after the key for skipping was pressed on
    /// the listed song `song_index`: without its first mention where it
    /// was skipped, with it at the end where it was not.
    pub open spec fn toggled(skipped: Seq<usize>, song_index: usize) -> Seq<usize> {
        match first_index(skipped, song_index, 0) {
            Some(pos) => skipped.remove(pos),
            None => skipped.push(song_index),
        }
    }

    /// Skips the listed song `index_in_filtered`, or stops skipping it.
    ///
    /// Nothing changes where no song is listed there or the song plays. The
    /// next song is chosen anew where the song just skipped was the next one,
    /// which then is no longer forced, or where, in order, the next one lies
    /// after a song just taken back in.
    pub fn blacklist(&mut self, index_in_filtered: usize)
        requires
            old(self).wf(),
        ensures
            final(self).wf(),
            final(self).filtered_songs == old(self).filtered_songs,
            final(self).current_index == old(self).current_index,
            final(self).stophandler == old(self).stophandler,
            final(self).shuffle == old(self).shuffle,
            final(self).typical_page_size == old(self).typical_page_size,
            ({
                let listed = old(self).filtered_songs@;
                if index_in_filtered >= listed.len() || listed[index_in_filtered as int] == old(self).current_index {
                    *final(self) == *old(self)
                } else {
                    let song = listed[index_in_filtered as int];
                    let was_skipped = old(self).blacklist@.contains(song);
                    let chosen_anew = if was_skipped {
                        !old(self).shuffle && old(self).setnext > song && old(self).setnext
                            != usize::MAX
                    } else {
                        song == old(self).setnext
                    };
                    &&& final(self).blacklist@ == Self::toggled(old(self).blacklist@, song)
                    &&& final(self).all_songs@ == if !was_skipped && song == old(self).setnext {
                        old(self).all_songs@.update(
                            song as int,
                            Song { forced: false, ..old(self).all_songs@[song as int] },
                        )
                    } else {
                        old(self).all_songs@
                    }
                    &&& !chosen_anew ==> final(self).setnext == old(self).setnext
                    &&& chosen_anew ==> (Songs { setnext: old(self).setnext, ..*final(self) }).may_be_next(
                        if final(self).setnext == usize::MAX {
                            Err::<usize, ()>(())
                        } else {
                            Ok::<usize, ()>(final(self).setnext)
                        },
                    )
                }
            }),
    {
        if index_in_filtered >= self.filtered_songs.len() {
            return ;
        }
        let song_index: usize = self.filtered_songs[index_in_filtered];
        if song_index == self.current_index {
            return ;
        }
        match Self::position(&self.blacklist, song_index) {
            Some(pos) => {
                let _gone = self.blacklist.remove(pos);
                if !self.shuffle && self.setnext > song_index && self.setnext != usize::MAX {
                    let ghost before = *self;
                    self.choose_next();
                    assert(before == (Songs { setnext: old(self).setnext, ..*self }));
                }
            },
            None => {
                self.blacklist.push(song_index);
                if song_index == self.setnext {
                    self.all_songs[song_index].forced = false;
                    assert(self.all_songs@ =~= old(self).all_songs@.update(
                        song_index as int,
                        Song { forced: false, ..old(self).all_songs@[song_index as int] },
                    ));
                    let ghost before = *self;
                    self.choose_next();
                    assert(before == (Songs { setnext: old(self).setnext, ..*self }));
                }
            },
        }
    }
}

/// Where a number is found in a list, it is found at a place of the list.
pub proof fn first_index_in_range(s: Seq<usize>, x: usize, from: int)
    ensures
        first_index(s, x, from) matches Some(i) ==> from <= i < s.len(),
    decreases s.len() - from,
{
    if 0 <= from && from < s.len() && s[from] != x {
        first_index_in_range(s, x, from + 1);
    }
}

/// What may be drawn is listed.
pub proof fn candidates_are_listed(
    listed: Seq<usize>,
    skipped: Seq<usize>,
    current: usize,
    n: int,
)
    requires
        0 <= n <= listed.len(),
    ensures
        forall|k: int|
            0 <= k < candidates(listed, skipped, current, n).len() ==> listed.contains(
                #[trigger] candidates(listed, skipped, current, n)[k],
            ),
    decreases n,
{
    if n > 0 {
        candidates_are_listed(listed, skipped, current, n - 1);
        let shorter = candidates(listed, skipped, current, n - 1);
        let all = candidates(listed, skipped, current, n);
        assert forall|k: int| 0 <= k < all.len() implies listed.contains(#[trigger] all[k]) by {
            if k < shorter.len() {
                assert(all[k] == shorter[k]);
            } else {
                assert(all[k] == listed[n - 1]);
            }
        }
    }
}

/// What a scan finds is listed and not skipped.
pub proof fn first_allowed_is_listed(listed: Seq<usize>, skipped: Seq<usize>, from: int, to: int)
    ensures
        first_allowed(listed, skipped, from, to) matches Some(i) ==> listed.contains(i)
            && !skipped.contains(i),
    decreases to - from,
{
    if 0 <= from && from < to && to <= listed.len() {
        if !skipped.contains(listed[from]) {
            assert(listed.contains(listed[from]));
        } else {
            first_allowed_is_listed(listed, skipped, from + 1, to);
        }
    }
}

} // verus!
