//! What a rendering target has to offer, and a headless target that only
//! remembers what it was asked to do.

use vstd::prelude::*;
use vstd::slice::slice_to_vec;
use vstd::utf8::valid_utf8;

verus! {

/// An opaque colour identifier, handed through to the backend untouched.
pub type ColorIntegerSize = u32;

/// One request made of a backend.
pub enum DrawOp {
    /// Move the draw position to column `x`, row `y`.
    Cursor { x: int, y: int },
    /// Draw `bytes` in `color` at the draw position.
    Blob { bytes: Seq<u8>, color: ColorIntegerSize },
    /// Commit the frame to the display.
    Flush,
}

/// The three operations of a rendering target `I`.
///
/// `issued` is the target's history: every request it has received, oldest
/// first. Each operation adds exactly its own request to that history; this is
/// what an implementation owes, and what the engine's contracts are stated
/// over. A target that keeps a record, as `Recorder` does, says here what its
/// history is and is held to these contracts. A target that keeps none (a real
/// terminal) leaves `issued` as given, a value of which nothing is known, and
/// is taken on trust to act on each request once, in the order received.
pub trait Execute<I> {
    /// The requests that `interface` has received so far.
    open spec fn issued(interface: &I) -> Seq<DrawOp> {
        arbitrary()
    }

    /// Move the draw position.
    fn cursor(x: usize, y: usize, interface: &mut I)
        ensures
            Self::issued(final(interface)) == Self::issued(old(interface)).push(
                DrawOp::Cursor { x: x as int, y: y as int },
            ),
    ;

    /// Draw `bytes`, which are well-formed UTF-8 and lent for this call only.
    fn blob(bytes: &[u8], color: ColorIntegerSize, interface: &mut I)
        requires
            valid_utf8(bytes@),
        ensures
            Self::issued(final(interface)) == Self::issued(old(interface)).push(
                DrawOp::Blob { bytes: bytes@, color },
            ),
    ;

    /// Commit the frame.
    fn flush(interface: &mut I)
        ensures
            Self::issued(final(interface)) == Self::issued(old(interface)).push(DrawOp::Flush),
    ;
}

/// One request as a headless backend keeps it.
#[derive(Debug, PartialEq, Eq)]
pub enum Drawn {
    Cursor(usize, usize),
    Blob(Vec<u8>, ColorIntegerSize),
    Flush,
}

impl View for Drawn {
    type V = DrawOp;

    open spec fn view(&self) -> DrawOp {
        match *self {
            Drawn::Cursor(x, y) => DrawOp::Cursor { x: x as int, y: y as int },
            Drawn::Blob(bytes, color) => DrawOp::Blob { bytes: bytes@, color },
            Drawn::Flush => DrawOp::Flush,
        }
    }
}

/// A backend without a display: it keeps every request it receives, in
/// order, for later inspection.
pub struct Recorder {
    pub log: Vec<Drawn>,
}

impl View for Recorder {
    type V = Seq<DrawOp>;

    open spec fn view(&self) -> Seq<DrawOp> {
        Seq::new(self.log@.len(), |i: int| self.log@[i]@)
    }
}

impl Recorder {
    /// A recorder that has received nothing.
    pub fn new() -> (r: Self)
        ensures
            r@ == Seq::<DrawOp>::empty(),
    {
        let r = Recorder { log: Vec::new() };
        assert(r@ =~= Seq::<DrawOp>::empty());
        r
    }
}

impl Execute<Recorder> for Recorder {
    open spec fn issued(interface: &Recorder) -> Seq<DrawOp> {
        interface@
    }

    fn cursor(x: usize, y: usize, interface: &mut Recorder) {
        interface.log.push(Drawn::Cursor(x, y));
        assert(interface@ =~= old(interface)@.push(DrawOp::Cursor { x: x as int, y: y as int }));
    }

    fn blob(bytes: &[u8], color: ColorIntegerSize, interface: &mut Recorder) {
        interface.log.push(Drawn::Blob(slice_to_vec(bytes), color));
        assert(interface@ =~= old(interface)@.push(DrawOp::Blob { bytes: bytes@, color }));
    }

    fn flush(interface: &mut Recorder) {
        interface.log.push(Drawn::Flush);
        assert(interface@ =~= old(interface)@.push(DrawOp::Flush));
    }
}

} // verus!
