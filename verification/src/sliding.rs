//! A line of text too long for its field, shown a window at a time and moved
//! on by one grapheme at every tick.

use unicode_segmentation::UnicodeSegmentation;
use unicode_width::UnicodeWidthStr;
use vstd::prelude::*;

verus! {

/// The extended grapheme clusters of `text`, in order, as
/// `unicode_segmentation` cuts them.
pub uninterp spec fn grapheme_clusters(text: Seq<char>) -> Seq<Seq<char>>;

/// The number of terminal columns that `text` takes, as `unicode_width`
/// measures it.
pub uninterp spec fn display_width(text: Seq<char>) -> usize;

/// Calls `UnicodeSegmentation::graphemes` with `is_extended` set and copies
/// each cluster into a string of its own. The clusters are a function of the
/// text alone; nothing more is claimed of them.
#[verifier::external_body]
fn graphemes_of(text: &str) -> (r: Vec<String>)
    ensures
        r@.len() == grapheme_clusters(text@).len(),
        forall|i: int| 0 <= i < r@.len() ==> (#[trigger] r@[i])@ == grapheme_clusters(text@)[i],
{
    text.graphemes(true).map(|g| g.to_string()).collect()
}

/// Calls `UnicodeWidthStr::width`. The width is a function of the text alone;
/// nothing more is claimed of it.
#[verifier::external_body]
pub(crate) fn width_of(text: &str) -> (r: usize)
    ensures
        r == display_width(text@),
{
    text.width()
}

/// What a sliding text holds: its clusters, the width of the field, and the
/// cluster at which the window starts.
pub struct Sliding {
    pub clusters: Seq<Seq<char>>,
    pub width: usize,
    pub offset: usize,
}

/// The widths of the clusters, added up.
pub open spec fn total_width(clusters: Seq<Seq<char>>) -> nat
    decreases clusters.len(),
{
    if clusters.len() == 0 {
        0
    } else {
        total_width(clusters.drop_last()) + display_width(clusters.last()) as nat
    }
}

/// The clusters written one after the other.
pub open spec fn joined(clusters: Seq<Seq<char>>) -> Seq<char>
    decreases clusters.len(),
{
    if clusters.len() == 0 {
        Seq::empty()
    } else {
        joined(clusters.drop_last()) + clusters.last()
    }
}

/// How many clusters a window may take at most: as many as the field has
/// columns, times the number of clusters, and no more than a machine integer
/// holds. Where every round through the text adds a column, this is never
/// reached.
pub open spec fn budget(s: Sliding) -> nat {
    if s.width * s.clusters.len() > usize::MAX {
        usize::MAX as nat
    } else {
        (s.width * s.clusters.len()) as nat
    }
}

/// The window that starts with `shown` and goes on from cluster `from`, round
/// and round, until it is as wide as the field or `left` clusters were taken.
pub open spec fn window(s: Sliding, from: int, shown: Seq<char>, left: nat) -> Seq<char>
    decreases left,
{
    if display_width(shown) >= s.width || left == 0 || s.clusters.len() == 0 {
        shown
    } else {
        window(s, (from + 1) % (s.clusters.len() as int), shown + s.clusters[from], (left - 1) as nat)
    }
}

/// The state one tick later: the window starts one cluster further on, and
/// at the first one again after the last.
pub open spec fn ticked(s: Sliding) -> Sliding {
    if s.clusters.len() == 0 {
        s
    } else {
        Sliding { offset: ((s.offset + 1) % (s.clusters.len() as int)) as usize, ..s }
    }
}

/// What is on show. Text that fits the field is shown whole and at rest,
/// without its last three clusters, the padding; text that does not fit is
/// shown as the window that starts at the offset.
pub open spec fn shown(s: Sliding) -> Seq<char> {
    if s.clusters.len() == 0 {
        Seq::empty()
    } else if total_width(s.clusters) <= s.width {
        joined(
            s.clusters.take(
                if s.clusters.len() >= 3 {
                    s.clusters.len() - 3
                } else {
                    0
                },
            ),
        )
    } else {
        window(s, s.offset as int, Seq::empty(), budget(s))
    }
}

/// A longer list of clusters is at least as wide.
pub proof fn total_width_grows(clusters: Seq<Seq<char>>, n: int)
    requires
        0 <= n <= clusters.len(),
    ensures
        total_width(clusters.take(n)) <= total_width(clusters),
    decreases clusters.len() - n,
{
    if n < clusters.len() {
        total_width_grows(clusters, n + 1);
        assert(clusters.take(n + 1).drop_last() =~= clusters.take(n));
    } else {
        assert(clusters.take(n) =~= clusters);
    }
}

/// A text that slides through a field of fixed width.
pub struct SlidingText {
    graphemes: Vec<String>,
    width: usize,
    offset: usize,
}

impl View for SlidingText {
    type V = Sliding;

    closed spec fn view(&self) -> Sliding {
        Sliding {
            clusters: Seq::new(self.graphemes@.len(), |i: int| self.graphemes@[i]@),
            width: self.width,
            offset: self.offset,
        }
    }
}

impl SlidingText {
    /// The window starts at a cluster that exists.
    pub open spec fn wf(&self) -> bool {
        self@.clusters.len() == 0 || self@.offset < self@.clusters.len()
    }

    /// A sliding text for a field of `width` columns: `text` and three
    /// spaces of padding, cut into clusters, the window at the start.
    pub fn new(text: &str, width: usize) -> (r: Self)
        ensures
            r.wf(),
            r@.clusters == grapheme_clusters(text@ + "   "@),
            r@.width == width,
            r@.offset == 0,
    {
        let padded = String::from_str(text).concat("   ");
        let graphemes = graphemes_of(padded.as_str());
        let r = SlidingText { graphemes, width, offset: 0 };
        assert(r@.clusters =~= grapheme_clusters(text@ + "   "@));
        r
    }

    /// A sliding text made of clusters that were cut already, the window at
    /// the start.
    pub fn from_graphemes(graphemes: Vec<String>, width: usize) -> (r: Self)
        ensures
            r.wf(),
            r@.clusters == Seq::new(graphemes@.len(), |i: int| graphemes@[i]@),
            r@.width == width,
            r@.offset == 0,
    {
        SlidingText { graphemes, width, offset: 0 }
    }

    /// Takes a new text, padded and cut as in `new`, and puts the window back
    /// at the start.
    pub fn reset_to(&mut self, new_text: &str)
        ensures
            final(self).wf(),
            final(self)@.clusters == grapheme_clusters(new_text@ + "   "@),
            final(self)@.width == old(self)@.width,
            final(self)@.offset == 0,
    {
        let padded = String::from_str(new_text).concat("   ");
        self.graphemes = graphemes_of(padded.as_str());
        self.offset = 0;
        assert(self@.clusters =~= grapheme_clusters(new_text@ + "   "@));
    }

    /// Moves the window on by one cluster.
    pub fn _update(&mut self)
        requires
            old(self).wf(),
        ensures
            final(self).wf(),
            final(self)@ == ticked(old(self)@),
    {
        let n: usize = self.graphemes.len();
        if n > 0 {
            self.offset = (self.offset + 1) % n;
        }
    }

    /// Whether the clusters all together are no wider than the field.
    fn fits(&self) -> (r: bool)
        ensures
            r == (total_width(self@.clusters) <= self@.width),
    {
        let n: usize = self.graphemes.len();
        let mut total: usize = 0;
        let mut i: usize = 0;
        assert(self@.clusters.take(0) =~= Seq::<Seq<char>>::empty());
        while i < n
            invariant
                i <= n,
                n == self.graphemes@.len(),
                total == total_width(self@.clusters.take(i as int)),
                total <= self.width,
            decreases n - i,
        {
            let w: usize = width_of(self.graphemes[i].as_str());
            proof {
                assert(self@.clusters.take(i + 1).drop_last() =~= self@.clusters.take(i as int));
                assert(self@.clusters.take(i + 1).last() == self.graphemes@[i as int]@);
                total_width_grows(self@.clusters, i + 1);
            }
            match total.checked_add(w) {
                Some(sum) => {
                    if sum > self.width {
                        return false;
                    }
                    total = sum;
                },
                None => {
                    return false;
                },
            }
            i += 1;
        }
        assert(self@.clusters.take(n as int) =~= self@.clusters);
        true
    }

    /// The first `n` clusters written one after the other.
    fn join(&self, n: usize) -> (r: String)
        requires
            n <= self@.clusters.len(),
        ensures
            r@ == joined(self@.clusters.take(n as int)),
    {
        let mut text = String::new();
        let mut i: usize = 0;
        assert(self@.clusters.take(0) =~= Seq::<Seq<char>>::empty());
        while i < n
            invariant
                i <= n,
                n <= self.graphemes@.len(),
                text@ == joined(self@.clusters.take(i as int)),
            decreases n - i,
        {
            proof {
                assert(self@.clusters.take(i + 1).drop_last() =~= self@.clusters.take(i as int));
                assert(self@.clusters.take(i + 1).last() == self.graphemes@[i as int]@);
            }
            text.append(self.graphemes[i].as_str());
            i += 1;
        }
        text
    }

    /// What the field shows now. With `due` set a tick has passed since the
    /// window last moved, and it moves on by one cluster first.
    pub fn visible_text(&mut self, due: bool) -> (r: String)
        requires
            old(self).wf(),
        ensures
            final(self).wf(),
            (final(self)@ == if due {
                ticked(old(self)@)
            } else {
                old(self)@
            }),
            r@ == shown(final(self)@),
    {
        if due {
            self._update();
        }
        let n: usize = self.graphemes.len();
        if n == 0 {
            return String::new();
        }
        if self.fits() {
            return self.join(n.saturating_sub(3));
        }
        let mut left: usize = match self.width.checked_mul(n) {
            Some(product) => product,
            None => usize::MAX,
        };
        let mut visible = String::new();
        let mut idx: usize = self.offset;
        assert(left == budget(self@));
        while left > 0 && width_of(visible.as_str()) < self.width
            invariant
                n == self.graphemes@.len(),
                n > 0,
                idx < n,
                window(self@, self@.offset as int, Seq::empty(), budget(self@)) == window(
                    self@,
                    idx as int,
                    visible@,
                    left as nat,
                ),
            decreases left,
        {
            assert(self@.clusters[idx as int] == self.graphemes@[idx as int]@);
            visible.append(self.graphemes[idx].as_str());
            idx = (idx + 1) % n;
            left -= 1;
        }
        visible
    }
}

} // verus!
