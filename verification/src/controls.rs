//! The player's small pieces of state: volume, search line, selection, and
//! the rules by which keys move them.

use vstd::prelude::*;

verus! {

/// The volume in steps of a hundred, and how far one key press moves it.
pub struct Volume {
    pub steps: u8,
    pub step_div: u8,
}

impl Volume {
    /// One step louder, and never louder than 100.
    pub fn step_up(&mut self)
        ensures
            final(self).step_div == old(self).step_div,
            (final(self).steps == if old(self).steps + old(self).step_div > 100 {
                100
            } else {
                old(self).steps + old(self).step_div
            }),
    {
        self.steps = self.steps.saturating_add(self.step_div);
        if self.steps > 100 {
            self.steps = 100;
        }
    }

    /// One step quieter, and never below 0.
    pub fn step_down(&mut self)
        ensures
            final(self).step_div == old(self).step_div,
            (final(self).steps == if old(self).step_div > old(self).steps {
                0
            } else {
                old(self).steps - old(self).step_div
            }),
    {
        if self.step_div > self.steps {
            self.steps = 0;
        } else {
            self.steps -= self.step_div;
        }
    }
}

/// The line being typed at the top of the screen: what it is for (0: nothing,
/// 1: search, 2: artist, 3: playlist) and what was typed.
pub struct SearchQuery {
    pub mode: u8,
    pub query: String,
}

impl SearchQuery {
    /// Back to rest: no mode, and the word that stands for "no search".
    pub fn default(&mut self)
        ensures
            final(self).mode == 0,
            final(self).query@ == "false"@,
    {
        self.mode = 0;
        self.query = "false".to_owned();
    }

    /// Starts typing for `mode`, with nothing typed yet.
    pub fn to_mode(&mut self, mode: u8)
        ensures
            final(self).mode == mode,
            final(self).query@ == Seq::<char>::empty(),
    {
        self.mode = mode;
        self.query = String::new();
    }
}

/// Which message the presence thread is owed.
#[derive(Clone, Copy, Debug, PartialEq, Eq, Structural)]
pub enum ReinitMode {
    Renew,
    Init,
    Idle,
    Pretend,
}

/// Whether a message to the presence thread is owed, of which kind, and
/// from which moment on it may be sent. Moments are milliseconds on the
/// player's own clock.
pub struct RpcState {
    pub reinit: bool,
    pub timer: u64,
    pub mode: ReinitMode,
}

/// How long a message waits before it is sent, in milliseconds.
pub const RPC_DELAY: u64 = 3000;

/// The moment `RPC_DELAY` after `now`, and the last moment of the clock where
/// that is past it.
pub open spec fn due_after(now: u64) -> u64 {
    if now + RPC_DELAY > u64::MAX {
        u64::MAX
    } else {
        (now + RPC_DELAY) as u64
    }
}

impl RpcState {
    /// Owes a message, to be sent three seconds from `now`.
    fn _init(&mut self, now: u64)
        ensures
            final(self).reinit,
            final(self).timer == due_after(now),
            final(self).mode == old(self).mode,
    {
        self.reinit = true;
        self.timer = now.saturating_add(RPC_DELAY);
    }

    /// Owes a renewal of the timestamps.
    pub fn renew(&mut self, now: u64)
        ensures
            *final(self) == (RpcState {
                reinit: true,
                timer: due_after(now),
                mode: ReinitMode::Renew,
            }),
    {
        self._init(now);
        self.mode = ReinitMode::Renew;
    }

    /// Owes the message that takes the presence up again.
    pub fn pretend(&mut self, now: u64)
        ensures
            *final(self) == (RpcState {
                reinit: true,
                timer: due_after(now),
                mode: ReinitMode::Pretend,
            }),
    {
        self._init(now);
        self.mode = ReinitMode::Pretend;
    }

    /// Owes the announcement of a song.
    pub fn init(&mut self, now: u64)
        ensures
            *final(self) == (RpcState {
                reinit: true,
                timer: due_after(now),
                mode: ReinitMode::Init,
            }),
    {
        self._init(now);
        self.mode = ReinitMode::Init;
    }

    /// Owes nothing.
    pub fn reset(&mut self, now: u64)
        ensures
            *final(self) == (RpcState { reinit: false, timer: now, mode: ReinitMode::Idle }),
    {
        self.reinit = false;
        self.timer = now;
        self.mode = ReinitMode::Idle;
    }

    /// Whether the message owed may be sent at `now`.
    pub fn is_due(&self, now: u64) -> (r: bool)
        ensures
            r == (self.timer <= now && self.reinit),
    {
        self.timer <= now && self.reinit
    }
}

/// The player's switches.
pub struct State {
    pub spint: bool,
    pub isloop: bool,
    pub desel: bool,
    pub mouse_support: bool,
    pub needs_update: bool,
}

/// The selection: a page, counted from 1, and a row on it, counted from 0.
pub struct Indexer {
    pub page: usize,
    pub index: usize,
}

/// Which way a key moves.
#[derive(Clone, Copy, Debug, PartialEq, Eq, Structural)]
pub enum Direction {
    Up,
    Down,
}

/// What a mouse click or a remote request asks of the player.
#[derive(Clone, Copy, Debug, PartialEq, Eq, Structural)]
pub enum Action {
    Play(usize, usize),
    Shuffle,
    Repeat,
    Rpc,
    PgDown,
    PgUp,
    Nothing,
}

/// The place in the whole list of row `index` on page `page`.
pub open spec fn spec_absolute_index(index: int, page: int, typical_page_size: int) -> int {
    index + (page - 1) * typical_page_size
}

/// The number of pages that `total` songs fill, `psize` to a page; a page
/// size of 0 counts as 1.
pub open spec fn spec_page_count(total: int, psize: int) -> int {
    let size = if psize < 1 {
        1
    } else {
        psize
    };
    (total + size - 1) / size
}

/// The number of pages that `total` songs fill, `psize` to a page.
pub fn page_count(total: usize, psize: usize) -> (r: usize)
    ensures
        r == spec_page_count(total as int, psize as int),
{
    if total == 0 {
        assert(spec_page_count(0, psize as int) == 0) by (nonlinear_arith);
        return 0;
    }
    let size: usize = if psize < 1 {
        1
    } else {
        psize
    };
    let pages: usize = (total - 1) / size + 1;
    assert(pages == spec_page_count(total as int, psize as int)) by (nonlinear_arith)
        requires
            total >= 1,
            size >= 1,
            (size == if psize < 1 {
                1usize
            } else {
                psize
            }),
            pages == (total - 1) / (size as int) + 1,
    ;
    pages
}

/// The place in the whole list of row `index` on page `page`, where a
/// machine integer holds it.
pub fn absolute_index(index: usize, page: usize, typical_page_size: usize) -> (r: Option<usize>)
    requires
        page >= 1,
    ensures
        (r == if spec_absolute_index(index as int, page as int, typical_page_size as int)
            <= usize::MAX {
            Some(spec_absolute_index(index as int, page as int, typical_page_size as int) as usize)
        } else {
            None
        }),
{
    let before: usize = page - 1;
    assert(0 <= before * typical_page_size) by (nonlinear_arith);
    match before.checked_mul(typical_page_size) {
        Some(rows) => index.checked_add(rows),
        None => None,
    }
}

/// The selection after the page key `dir` was pressed, with `total` songs
/// listed: one page back, not before the first; or one page on, not past the
/// last. A page change puts the selection on the first row.
pub open spec fn page_changed(dir: Direction, at: Indexer, total: int, psize: int) -> Indexer {
    if total == 0 {
        at
    } else {
        match dir {
            Direction::Up => if at.page > 1 {
                Indexer { page: (at.page - 1) as usize, index: 0 }
            } else {
                at
            },
            Direction::Down => if at.page < spec_page_count(total, psize) {
                Indexer { page: (at.page + 1) as usize, index: 0 }
            } else {
                at
            },
        }
    }
}

/// Handles a page key. Returns whether the page changed, and so whether the
/// list has to be drawn again.
pub fn change_page(dir: Direction, at: &mut Indexer, total: usize, psize: usize) -> (moved: bool)
    ensures
        *final(at) == page_changed(dir, *old(at), total as int, psize as int),
        moved == (final(at).page != old(at).page),
{
    if total == 0 {
        return false;
    }
    let max_page: usize = page_count(total, psize);
    match dir {
        Direction::Up => {
            if at.page > 1 {
                at.page -= 1;
                at.index = 0;
                return true;
            }
        },
        Direction::Down => {
            if at.page < max_page {
                at.page += 1;
                at.index = 0;
                return true;
            }
        },
    }
    false
}

/// The selection after the row key `direction` was pressed.
///
/// Up: one row up; from the first row of a page to the last row of the page
/// before; nowhere from the first row of the first page. Down: nothing unless
/// a song follows the selected one; then one row down, or from the last row
/// of a page to the first row of the next.
pub open spec fn selection_moved(direction: Direction, at: Indexer, psize: int, total: int) -> Indexer {
    match direction {
        Direction::Up => if at.index > 0 {
            Indexer { page: at.page, index: (at.index - 1) as usize }
        } else if at.page > 1 {
            Indexer { page: (at.page - 1) as usize, index: (psize - 1) as usize }
        } else {
            at
        },
        Direction::Down => if spec_absolute_index(at.index as int, at.page as int, psize) < total
            - 1 {
            if at.index + 1 < psize {
                Indexer { page: at.page, index: (at.index + 1) as usize }
            } else {
                Indexer { page: (at.page + 1) as usize, index: 0 }
            }
        } else {
            at
        },
    }
}

/// Handles a row key. Returns whether the page changed.
pub fn move_selection(direction: Direction, at: &mut Indexer, psize: usize, total: usize) -> (moved:
    bool)
    requires
        old(at).page >= 1,
        psize >= 1,
    ensures
        *final(at) == selection_moved(direction, *old(at), psize as int, total as int),
        moved == (final(at).page != old(at).page),
        final(at).page >= 1,
{
    match direction {
        Direction::Up => {
            if at.index > 0 {
                at.index -= 1;
            } else if at.page > 1 {
                at.page -= 1;
                at.index = psize - 1;
                return true;
            }
        },
        Direction::Down => {
            let follows = match absolute_index(at.index, at.page, psize) {
                Some(place) => total > 0 && place < total - 1,
                None => false,
            };
            if follows {
                assert(at.page < total) by (nonlinear_arith)
                    requires
                        at.index + (at.page - 1) * psize < total - 1,
                        psize >= 1,
                        at.page >= 1,
                ;
                if at.index + 1 < psize {
                    at.index += 1;
                } else {
                    at.page += 1;
                    at.index = 0;
                    return true;
                }
            }
        },
    }
    false
}

} // verus!
