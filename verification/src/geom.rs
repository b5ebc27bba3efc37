//! Geometry types: positions, dimensions and rectangles on the video plane.

use vstd::prelude::*;

verus! {

/// A point, by its x and y coordinates.
#[derive(Clone, Copy, Debug, PartialEq, Eq, Structural)]
pub struct Pos {
    pub x: u32,
    pub y: u32,
}

/// A width and a height.
#[derive(Clone, Copy, Debug, PartialEq, Eq, Structural)]
pub struct Dims {
    pub w: u32,
    pub h: u32,
}

/// An axis-aligned rectangle: top-left corner plus dimensions.
#[derive(Clone, Copy, Debug, PartialEq, Eq, Structural)]
pub struct Rect {
    pub pos: Pos,
    pub dims: Dims,
}

/// Whether a rectangle's far corner still fits the coordinate space.
pub open spec fn rect_wf(r: Rect) -> bool {
    &&& r.pos.x + r.dims.w <= u32::MAX
    &&& r.pos.y + r.dims.h <= u32::MAX
}

/// Whether `r` contains the point `p` (far edges exclusive).
pub open spec fn rect_contains(r: Rect, p: Pos) -> bool {
    &&& r.pos.x <= p.x < r.pos.x + r.dims.w
    &&& r.pos.y <= p.y < r.pos.y + r.dims.h
}

/// The larger of two coordinates.
pub open spec fn coord_max(a: int, b: int) -> int {
    if a >= b {
        a
    } else {
        b
    }
}

/// The smaller of two coordinates.
pub open spec fn coord_min(a: int, b: int) -> int {
    if a <= b {
        a
    } else {
        b
    }
}

/// The overlap of two rectangles, if its area is not empty.
pub open spec fn spec_intersect(a: Rect, b: Rect) -> Option<Rect> {
    let x1 = coord_max(a.pos.x as int, b.pos.x as int);
    let y1 = coord_max(a.pos.y as int, b.pos.y as int);
    let x2 = coord_min(a.pos.x + a.dims.w, b.pos.x + b.dims.w);
    let y2 = coord_min(a.pos.y + a.dims.h, b.pos.y + b.dims.h);
    if x1 < x2 && y1 < y2 {
        Some(
            Rect {
                pos: Pos { x: x1 as u32, y: y1 as u32 },
                dims: Dims { w: (x2 - x1) as u32, h: (y2 - y1) as u32 },
            },
        )
    } else {
        None
    }
}

/// The smallest rectangle containing both arguments.
pub open spec fn spec_union(a: Rect, b: Rect) -> Rect {
    let x1 = coord_min(a.pos.x as int, b.pos.x as int);
    let y1 = coord_min(a.pos.y as int, b.pos.y as int);
    let x2 = coord_max(a.pos.x + a.dims.w, b.pos.x + b.dims.w);
    let y2 = coord_max(a.pos.y + a.dims.h, b.pos.y + b.dims.h);
    Rect {
        pos: Pos { x: x1 as u32, y: y1 as u32 },
        dims: Dims { w: (x2 - x1) as u32, h: (y2 - y1) as u32 },
    }
}

/// The overlap really is the overlap: a point lies in both rectangles
/// exactly when the intersection exists and contains it.
pub proof fn lemma_intersect_exact(a: Rect, b: Rect, p: Pos)
    requires
        rect_wf(a),
        rect_wf(b),
    ensures
        (rect_contains(a, p) && rect_contains(b, p)) <==> (spec_intersect(a, b) matches Some(i)
            && rect_contains(i, p)),
{
}

impl Pos {
    /// A point from its coordinates.
    pub fn new(x: u32, y: u32) -> (p: Pos)
        ensures
            p == (Pos { x, y }),
    {
        Pos { x, y }
    }
}

impl Default for Pos {
    fn default() -> (p: Pos)
        ensures
            p == (Pos { x: 0, y: 0 }),
    {
        Pos { x: 0, y: 0 }
    }
}

impl Dims {
    /// Dimensions from a width and a height.
    pub fn new(w: u32, h: u32) -> (d: Dims)
        ensures
            d == (Dims { w, h }),
    {
        Dims { w, h }
    }

    pub fn height(&self) -> (r: u32)
        ensures
            r == self.h,
    {
        self.h
    }

    pub fn width(&self) -> (r: u32)
        ensures
            r == self.w,
    {
        self.w
    }
}

impl Default for Dims {
    fn default() -> (d: Dims)
        ensures
            d == (Dims { w: 0, h: 0 }),
    {
        Dims { w: 0, h: 0 }
    }
}

/// The larger of two `u32` values.
fn max_u32(a: u32, b: u32) -> (r: u32)
    ensures
        r == coord_max(a as int, b as int),
{
    if a >= b {
        a
    } else {
        b
    }
}

/// The smaller of two `u32` values.
fn min_u32(a: u32, b: u32) -> (r: u32)
    ensures
        r == coord_min(a as int, b as int),
{
    if a <= b {
        a
    } else {
        b
    }
}

impl Rect {
    /// A rectangle from its top-left coordinates, width and height.
    pub fn new(x: u32, y: u32, w: u32, h: u32) -> (r: Rect)
        ensures
            r == (Rect { pos: Pos { x, y }, dims: Dims { w, h } }),
    {
        Rect { pos: Pos { x, y }, dims: Dims::new(w, h) }
    }

    /// A rectangle from a position and dimensions.
    pub fn new_pd(pos: Pos, dims: Dims) -> (r: Rect)
        ensures
            r == (Rect { pos, dims }),
    {
        Rect { pos, dims }
    }

    /// Whether the rectangle lies entirely inside a `w` by `h` screen.
    pub fn within(&self, w: u32, h: u32) -> (r: bool)
        requires
            rect_wf(*self),
        ensures
            r == (self.pos.x < w && self.pos.y < h && self.dims.w <= w && self.dims.h <= h
                && self.pos.x + self.dims.w <= w && self.pos.y + self.dims.h <= h),
    {
        self.x() < w && self.y() < h && self.w() <= w && self.h() <= h && self.x() + self.w() <= w
            && self.y() + self.h() <= h
    }

    pub fn pos(&self) -> (r: Pos)
        ensures
            r == self.pos,
    {
        self.pos
    }

    pub fn dims(&self) -> (r: Dims)
        ensures
            r == self.dims,
    {
        self.dims
    }

    pub fn x(&self) -> (r: u32)
        ensures
            r == self.pos.x,
    {
        self.pos.x
    }

    pub fn y(&self) -> (r: u32)
        ensures
            r == self.pos.y,
    {
        self.pos.y
    }

    pub fn w(&self) -> (r: u32)
        ensures
            r == self.dims.w,
    {
        self.dims.w
    }

    pub fn h(&self) -> (r: u32)
        ensures
            r == self.dims.h,
    {
        self.dims.h
    }

    pub fn top(&self) -> (r: u32)
        ensures
            r == self.pos.y,
    {
        self.y()
    }

    pub fn left(&self) -> (r: u32)
        ensures
            r == self.pos.x,
    {
        self.x()
    }

    /// The x coordinate one past the right edge.
    pub fn right(&self) -> (r: u32)
        requires
            rect_wf(*self),
        ensures
            r == self.pos.x + self.dims.w,
    {
        self.x() + self.w()
    }

    /// The y coordinate one past the bottom edge.
    pub fn bottom(&self) -> (r: u32)
        requires
            rect_wf(*self),
        ensures
            r == self.pos.y + self.dims.h,
    {
        self.y() + self.h()
    }

    /// The top-left corner.
    pub fn tl(&self) -> (r: Pos)
        ensures
            r == self.pos,
    {
        self.pos
    }

    /// The corner one past the bottom-right.
    pub fn br(&self) -> (r: Pos)
        requires
            rect_wf(*self),
        ensures
            r == (Pos { x: (self.pos.x + self.dims.w) as u32, y: (self.pos.y + self.dims.h) as u32 }),
    {
        Pos::new(self.x() + self.w(), self.y() + self.h())
    }

    /// The innermost bottom-right point (for a rectangle with area).
    pub fn br_inner(&self) -> (r: Pos)
        requires
            rect_wf(*self),
            self.dims.w >= 1,
            self.dims.h >= 1,
        ensures
            r == (Pos {
                x: (self.pos.x + self.dims.w - 1) as u32,
                y: (self.pos.y + self.dims.h - 1) as u32,
            }),
    {
        Pos::new(self.x() + self.w() - 1, self.y() + self.h() - 1)
    }

    /// Whether the point lies inside the rectangle (far edges exclusive).
    pub fn contains(&self, pt: &Pos) -> (r: bool)
        requires
            rect_wf(*self),
        ensures
            r == rect_contains(*self, *pt),
    {
        (self.left() <= pt.x && pt.x < self.right()) && (self.top() <= pt.y && pt.y < self.bottom())
    }

    /// Whether `r` lies entirely inside this rectangle: its top-left corner
    /// does, and either it has no area or its innermost corner does too.
    pub fn contains_rect(&self, r: &Rect) -> (res: bool)
        requires
            rect_wf(*self),
            rect_wf(*r),
        ensures
            res == (rect_contains(*self, r.pos) && (r.dims.w == 0 || r.dims.h == 0
                || rect_contains(
                *self,
                Pos {
                    x: (r.pos.x + r.dims.w - 1) as u32,
                    y: (r.pos.y + r.dims.h - 1) as u32,
                },
            ))),
    {
        if !self.contains(&r.tl()) {
            false
        } else if r.w() == 0 || r.h() == 0 {
            true
        } else if self.contains(&r.br_inner()) {
            true
        } else {
            false
        }
    }

    /// The overlap of the two rectangles: the area covered by both, or
    /// `None` when that area is empty.
    pub fn intersect(&self, other: &Rect) -> (r: Option<Rect>)
        requires
            rect_wf(*self),
            rect_wf(*other),
        ensures
            r == spec_intersect(*self, *other),
            r matches Some(i) ==> rect_wf(i),
    {
        let max_x1 = max_u32(self.left(), other.left());
        let max_y1 = max_u32(self.top(), other.top());
        let min_x2 = min_u32(self.right(), other.right());
        let min_y2 = min_u32(self.bottom(), other.bottom());

        if max_x1 < min_x2 && max_y1 < min_y2 {
            Some(
                Rect {
                    pos: Pos { x: max_x1, y: max_y1 },
                    dims: Dims::new(min_x2 - max_x1, min_y2 - max_y1),
                },
            )
        } else {
            None
        }
    }

    /// The loose union of the two rectangles: the smallest rectangle that
    /// contains both.
    pub fn union(&self, other: &Rect) -> (r: Rect)
        requires
            rect_wf(*self),
            rect_wf(*other),
        ensures
            r == spec_union(*self, *other),
            rect_wf(r),
    {
        let new_tl = Pos { x: min_u32(self.left(), other.left()), y: min_u32(
            self.top(),
            other.top(),
        ) };
        let new_br = Pos { x: max_u32(self.right(), other.right()), y: max_u32(
            self.bottom(),
            other.bottom(),
        ) };
        Rect { pos: new_tl, dims: Dims::new(new_br.x - new_tl.x, new_br.y - new_tl.y) }
    }

    /// Walk every non-empty pairwise intersection of two lists of
    /// rectangles, rows of the first list outer.
    pub fn list_intersect(list1: &[Rect], list2: &[Rect]) -> (it: RectListIntersect)
        ensures
            it.lists() == (list1@, list2@),
            it.cursor() == (0int, 0int),
    {
        RectListIntersect {
            list1: slice_to_rect_vec(list1),
            list2: slice_to_rect_vec(list2),
            idx1: 0,
            idx2: 0,
        }
    }
}

/// An owned copy of a slice of rectangles.
fn slice_to_rect_vec(s: &[Rect]) -> (v: Vec<Rect>)
    ensures
        v@ == s@,
{
    let n = s.len();
    let mut v: Vec<Rect> = Vec::new();
    let mut i: usize = 0;
    while i < n
        invariant
            n == s@.len(),
            i <= n,
            v@ == s@.take(i as int),
        decreases n - i,
    {
        v.push(s[i]);
        proof {
            assert(s@.take(i as int + 1) =~= s@.take(i as int).push(s@[i as int]));
        }
        i += 1;
    }
    proof {
        assert(s@.take(n as int) =~= s@);
    }
    v
}

/// Cursor state over the pairwise intersections of two rectangle lists.
pub struct RectListIntersect {
    list1: Vec<Rect>,
    list2: Vec<Rect>,
    idx1: usize,
    idx2: usize,
}

/// One search step of the intersection walk, from cursor `(i1, i2)`: the
/// cursor afterwards and the intersection found, if any.  The walk visits
/// every pair, rows of the first list outer, the second list inner.
pub open spec fn walk(l1: Seq<Rect>, l2: Seq<Rect>, i1: int, i2: int) -> (int, int, Option<Rect>)
    decreases l1.len() - i1, l2.len() - i2,
        when 0 <= i1 && 0 <= i2 <= l2.len()
{
    if i1 < l1.len() {
        if i2 == l2.len() {
            walk(l1, l2, i1 + 1, 0)
        } else {
            let found = spec_intersect(l1[i1], l2[i2]);
            if found is Some {
                (i1, i2 + 1, found)
            } else {
                walk(l1, l2, i1, i2 + 1)
            }
        }
    } else {
        (i1, i2, None::<Rect>)
    }
}

/// Every yield of the walk is a true pairwise intersection: a `Some` result
/// is the non-empty overlap of the pair just before the returned cursor, and
/// the cursor never moves backwards — so successive yields come from
/// strictly increasing pairs.
pub proof fn lemma_walk_sound(l1: Seq<Rect>, l2: Seq<Rect>, i1: int, i2: int)
    requires
        0 <= i1,
        0 <= i2 <= l2.len(),
    ensures
        ({
            let (n1, n2, r) = walk(l1, l2, i1, i2);
            &&& i1 <= n1
            &&& (n1 == i1 ==> i2 <= n2)
            &&& (r matches Some(rect) ==> 0 <= n1 < l1.len() && 0 < n2 <= l2.len()
                && spec_intersect(l1[n1], l2[n2 - 1]) == Some(rect))
        }),
    decreases l1.len() - i1, l2.len() - i2,
{
    if i1 < l1.len() {
        if i2 == l2.len() {
            lemma_walk_sound(l1, l2, i1 + 1, 0);
        } else {
            if spec_intersect(l1[i1], l2[i2]) is None {
                lemma_walk_sound(l1, l2, i1, i2 + 1);
            }
        }
    }
}

impl RectListIntersect {
    /// The two rectangle lists being walked.
    pub closed spec fn lists(self) -> (Seq<Rect>, Seq<Rect>) {
        (self.list1@, self.list2@)
    }

    /// The current cursor into the two lists.
    pub closed spec fn cursor(self) -> (int, int) {
        (self.idx1 as int, self.idx2 as int)
    }

    /// Whether another step of the walk may be taken: the cursor is within
    /// bounds and every rectangle is well-formed.
    pub open spec fn wf(self) -> bool {
        &&& 0 <= self.cursor().0
        &&& 0 <= self.cursor().1 <= self.lists().1.len()
        &&& forall|i: int| 0 <= i < self.lists().0.len() ==> rect_wf(#[trigger] self.lists().0[i])
        &&& forall|i: int| 0 <= i < self.lists().1.len() ==> rect_wf(#[trigger] self.lists().1[i])
    }

    /// The next non-empty pairwise intersection, advancing the cursor as
    /// [`walk`] describes, or `None` once every remaining pair has been
    /// visited (and on every call after that).
    pub fn next(&mut self) -> (r: Option<Rect>)
        requires
            old(self).wf(),
        ensures
            final(self).lists() == old(self).lists(),
            final(self).wf(),
            (final(self).cursor().0, final(self).cursor().1, r) == walk(
                old(self).lists().0,
                old(self).lists().1,
                old(self).cursor().0,
                old(self).cursor().1,
            ),
    {
        while self.idx1 < self.list1.len()
            invariant
                self.list1@ == old(self).lists().0,
                self.list2@ == old(self).lists().1,
                self.idx2 <= self.list2@.len(),
                old(self).wf(),
                walk(
                    old(self).lists().0,
                    old(self).lists().1,
                    old(self).cursor().0,
                    old(self).cursor().1,
                ) == walk(self.list1@, self.list2@, self.idx1 as int, self.idx2 as int),
            decreases self.list1@.len() - self.idx1, self.list2@.len() - self.idx2,
        {
            if self.idx2 == self.list2.len() {
                self.idx1 += 1;
                self.idx2 = 0;
            } else {
                let rv = self.list1[self.idx1].intersect(&self.list2[self.idx2]);
                self.idx2 += 1;
                if rv.is_some() {
                    return rv;
                }
            }
        }
        None
    }
}

} // verus!
