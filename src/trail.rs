//! The walk that turns one particle's projected orbit into line commands.
//!
//! The walk goes over the orbit oldest first, keeping `pre`, the last point a
//! line was drawn to, and visiting each later point `cur` in turn. For each pair
//! the caller measures three things on the projected points: whether they are
//! closer on screen than the smallest visible step, whether the segment crosses
//! the longitude seam at +-pi, and whether `cur` is far enough from the camera to
//! be seen. The walk decides from these which lines to emit.
use vstd::prelude::*;

verus! {

/// An end of a line command.
#[derive(Clone, Copy, Debug, PartialEq, Eq, Structural)]
pub enum Anchor {
    /// The projected point at this orbit index.
    Point(usize),
    /// The point on the seam on this orbit index's side (longitude pi times the
    /// sign of its longitude), at the mean latitude of the pair being drawn.
    Seam(usize),
}

/// One line command; an invisible line is drawn fully transparent.
#[derive(Clone, Copy, Debug, PartialEq, Eq, Structural)]
pub struct Line {
    pub start: Anchor,
    pub end: Anchor,
    pub visible: bool,
}

/// The lines drawn for the pair (`pre`, `cur`).
pub open spec fn pair_lines(pre: usize, cur: usize, close: bool, crosses_seam: bool, visible: bool) -> Seq<Line> {
    if close {
        Seq::empty()
    } else if crosses_seam {
        seq![
            Line { start: Anchor::Seam(pre), end: Anchor::Point(pre), visible },
            Line { start: Anchor::Seam(cur), end: Anchor::Point(cur), visible },
        ]
    } else {
        seq![Line { start: Anchor::Point(pre), end: Anchor::Point(cur), visible }]
    }
}

/// The walk's position over an orbit of `len` points.
pub struct TrailWalk {
    pre: usize,
    cur: usize,
    len: usize,
}

impl TrailWalk {
    pub closed spec fn well_formed(&self) -> bool {
        self.pre < self.cur && self.cur <= self.len
    }

    /// The index of the last point a line was drawn to.
    pub closed spec fn pre(&self) -> usize {
        self.pre
    }

    /// The index of the point to visit next.
    pub closed spec fn cur(&self) -> usize {
        self.cur
    }

    /// The number of points in the orbit.
    pub closed spec fn len(&self) -> nat {
        self.len as nat
    }

    /// A walk over an orbit of `len` points, from its oldest point.
    pub fn start(len: usize) -> (r: Self)
        requires
            len > 0,
        ensures
            r.well_formed(),
            r.pre() == 0,
            r.cur() == 1,
            r.len() == len,
    {
        TrailWalk { pre: 0, cur: 1, len }
    }

    /// Whether every point has been visited.
    pub fn is_done(&self) -> (r: bool)
        ensures
            r == (self.cur() >= self.len()),
    {
        self.cur >= self.len
    }

    /// The index of the last point a line was drawn to.
    pub fn pre_index(&self) -> (r: usize)
        ensures
            r == self.pre(),
    {
        self.pre
    }

    /// The index of the point to visit next.
    pub fn cur_index(&self) -> (r: usize)
        ensures
            r == self.cur(),
    {
        self.cur
    }

    /// Visits the next point, given what was measured on the pair (`pre`,
    /// `cur`). A pair closer than the smallest visible step draws nothing and
    /// keeps `pre`; any other pair draws one line, or two that meet the seam
    /// when it crosses it, and `cur` becomes `pre`.
    pub fn visit(&mut self, close: bool, crosses_seam: bool, visible: bool) -> (r: Vec<Line>)
        requires
            old(self).well_formed(),
            old(self).cur() < old(self).len(),
        ensures
            final(self).well_formed(),
            r@ == pair_lines(old(self).pre(), old(self).cur(), close, crosses_seam, visible),
            final(self).pre() == if close { old(self).pre() } else { old(self).cur() },
            final(self).cur() == old(self).cur() + 1,
            final(self).len() == old(self).len(),
    {
        let pre = self.pre;
        let cur = self.cur;
        let mut r: Vec<Line> = Vec::new();
        if !close {
            if crosses_seam {
                r.push(Line { start: Anchor::Seam(pre), end: Anchor::Point(pre), visible });
                r.push(Line { start: Anchor::Seam(cur), end: Anchor::Point(cur), visible });
            } else {
                r.push(Line { start: Anchor::Point(pre), end: Anchor::Point(cur), visible });
            }
            self.pre = cur;
        }
        self.cur = cur + 1;
        assert(r@ =~= pair_lines(pre, cur, close, crosses_seam, visible));
        r
    }
}

} // verus!
