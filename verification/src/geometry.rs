//! Merging the wall layer's grid cells into collider rectangles.
//!
//! The level loader delivers one point per solid cell. Cells that are
//! surrounded on all four sides never touch anything and are pruned; the
//! rest are merged row by row into horizontal runs, each becoming one
//! collider box.

use vstd::prelude::*;
use crate::constants::WALL_GRID_SIZE;
use crate::math::Vec2Fx;

verus! {

broadcast use vstd::seq_lib::group_to_multiset_ensures;

/// One grid cell of the wall layer, in cell coordinates.
#[derive(Clone, Copy, Debug, PartialEq, Eq, Hash, Structural)]
pub struct Point {
    pub x: i32,
    pub y: i32,
}

/// A merged run of wall cells: `width` x `height` cells whose lowest-left
/// cell is `top_left`.
#[derive(Clone, Copy, Debug, PartialEq, Eq, Structural)]
pub struct Rectangle {
    pub top_left: Point,
    pub width: usize,
    pub height: usize,
}

/// Some point of `s` has exactly these cell coordinates.
pub open spec fn contains_coord(s: Seq<Point>, x: int, y: int) -> bool {
    exists|i: int| 0 <= i < s.len() && s[i].x == x && s[i].y == y
}

/// `p` has a neighbor cell on all four sides within `s`.
pub open spec fn has_all_neighbors(s: Seq<Point>, p: Point) -> bool {
    &&& contains_coord(s, p.x - 1, p.y as int)
    &&& contains_coord(s, p.x + 1, p.y as int)
    &&& contains_coord(s, p.x as int, p.y + 1)
    &&& contains_coord(s, p.x as int, p.y - 1)
}

/// The predicate of `find_points_with_neighbors`: walled in on all four
/// sides within `s`.
pub open spec fn surrounded_in(s: Seq<Point>) -> spec_fn(Point) -> bool {
    |p: Point| has_all_neighbors(s, p)
}

/// The predicate of `remove_interior_points`: touchable from some side.
pub open spec fn exposed_in(s: Seq<Point>) -> spec_fn(Point) -> bool {
    |p: Point| !has_all_neighbors(s, p)
}

/// Whether some point of `points` sits at cell `(x, y)`.
fn has_coord(points: &Vec<Point>, x: i64, y: i64) -> (r: bool)
    ensures
        r == contains_coord(points@, x as int, y as int),
{
    let n = points.len();
    let mut idx: usize = 0;
    while idx < n
        invariant
            n == points@.len(),
            idx <= n,
            forall|i: int| 0 <= i < idx ==> !(points@[i].x == x && points@[i].y == y),
        decreases n - idx,
    {
        if points[idx].x as i64 == x && points[idx].y as i64 == y {
            return true;
        }
        idx = idx + 1;
    }
    false
}

/// The points of `points` that are walled in on all four sides, in their
/// original order.
pub fn find_points_with_neighbors(points: &Vec<Point>) -> (result: Vec<Point>)
    ensures
        result@ == points@.filter(surrounded_in(points@)),
{
    let ghost pred = surrounded_in(points@);
    let mut result: Vec<Point> = Vec::new();
    let n = points.len();
    let mut idx: usize = 0;

    proof {
        reveal(Seq::filter);
        assert(points@.subrange(0, 0).filter(pred) =~= Seq::<Point>::empty());
    }

    while idx < n
        invariant
            n == points@.len(),
            idx <= n,
            pred == surrounded_in(points@),
            result@ == points@.subrange(0, idx as int).filter(pred),
        decreases n - idx,
    {
        let point = points[idx];
        let has_left_neighbor = has_coord(points, point.x as i64 - 1, point.y as i64);
        let has_right_neighbor = has_coord(points, point.x as i64 + 1, point.y as i64);
        let has_top_neighbor = has_coord(points, point.x as i64, point.y as i64 + 1);
        let has_bottom_neighbor = has_coord(points, point.x as i64, point.y as i64 - 1);

        if has_left_neighbor && has_right_neighbor && has_top_neighbor && has_bottom_neighbor {
            result.push(point);
        }

        proof {
            reveal(Seq::filter);
            let pre = points@.subrange(0, idx as int);
            let post = points@.subrange(0, idx + 1);
            assert(post.drop_last() =~= pre);
            assert(post.last() == point);
            assert(post.filter(pred) == (if pred(point) {
                pre.filter(pred).push(point)
            } else {
                pre.filter(pred)
            }));
        }
        idx = idx + 1;
    }

    proof {
        assert(points@.subrange(0, n as int) =~= points@);
    }
    result
}

/// The points of `points` that can still be touched — everything except the
/// fully surrounded interior — in their original order.
pub fn remove_interior_points(points: &Vec<Point>) -> (result: Vec<Point>)
    ensures
        result@ == points@.filter(exposed_in(points@)),
{
    let ghost pred = exposed_in(points@);
    let mut result: Vec<Point> = Vec::new();
    let n = points.len();
    let mut idx: usize = 0;

    proof {
        reveal(Seq::filter);
        assert(points@.subrange(0, 0).filter(pred) =~= Seq::<Point>::empty());
    }

    while idx < n
        invariant
            n == points@.len(),
            idx <= n,
            pred == exposed_in(points@),
            result@ == points@.subrange(0, idx as int).filter(pred),
        decreases n - idx,
    {
        let point = points[idx];
        let has_left_neighbor = has_coord(points, point.x as i64 - 1, point.y as i64);
        let has_right_neighbor = has_coord(points, point.x as i64 + 1, point.y as i64);
        let has_top_neighbor = has_coord(points, point.x as i64, point.y as i64 + 1);
        let has_bottom_neighbor = has_coord(points, point.x as i64, point.y as i64 - 1);

        if !(has_left_neighbor && has_right_neighbor && has_top_neighbor && has_bottom_neighbor) {
            result.push(point);
        }

        proof {
            reveal(Seq::filter);
            let pre = points@.subrange(0, idx as int);
            let post = points@.subrange(0, idx + 1);
            assert(post.drop_last() =~= pre);
            assert(post.last() == point);
            assert(post.filter(pred) == (if pred(point) {
                pre.filter(pred).push(point)
            } else {
                pre.filter(pred)
            }));
        }
        idx = idx + 1;
    }

    proof {
        assert(points@.subrange(0, n as int) =~= points@);
    }
    result
}

/// Row-major sweep order: lower rows first, within a row left to right.
pub open spec fn row_le(a: Point, b: Point) -> bool {
    a.y < b.y || (a.y == b.y && a.x <= b.x)
}

/// `s` is in row-major order.
pub open spec fn sorted_rowwise(s: Seq<Point>) -> bool {
    forall|i: int, j: int| 0 <= i < j < s.len() ==> row_le(s[i], s[j])
}

/// Whether `a` comes no later than `b` in the row-major sweep.
fn row_le_exec(a: &Point, b: &Point) -> (r: bool)
    ensures
        r == row_le(*a, *b),
{
    a.y < b.y || (a.y == b.y && a.x <= b.x)
}

/// The points of `points` in row-major order (insertion sort; the merge
/// walks runs of equal rows, so order matters, multiplicity is kept).
fn sort_rowwise(points: &Vec<Point>) -> (sorted: Vec<Point>)
    ensures
        sorted@.len() == points@.len(),
        sorted_rowwise(sorted@),
        sorted@.to_multiset() == points@.to_multiset(),
{
    let mut sorted: Vec<Point> = Vec::new();
    let n = points.len();
    let mut i: usize = 0;

    proof {
        assert(points@.subrange(0, 0).to_multiset() =~= Seq::<Point>::empty().to_multiset());
    }

    while i < n
        invariant
            n == points@.len(),
            i <= n,
            sorted@.len() == i,
            sorted_rowwise(sorted@),
            sorted@.to_multiset() == points@.subrange(0, i as int).to_multiset(),
        decreases n - i,
    {
        let p = points[i];
        let mut j: usize = 0;
        while j < sorted.len() && row_le_exec(&sorted[j], &p)
            invariant
                j <= sorted@.len(),
                forall|k: int| 0 <= k < j ==> row_le(#[trigger] sorted@[k], p),
            decreases sorted@.len() - j,
        {
            j = j + 1;
        }

        let ghost pre = sorted@;
        sorted.insert(j, p);

        proof {
            pre.insert_ensures(j as int, p);
            assert forall|a: int, b: int| 0 <= a < b < sorted@.len() implies row_le(
                sorted@[a],
                sorted@[b],
            ) by {
                if b < j {
                    assert(sorted@[a] == pre[a] && sorted@[b] == pre[b]);
                } else if a > j {
                    assert(sorted@[a] == pre[a - 1] && sorted@[b] == pre[b - 1]);
                } else if a < j && b == j {
                    assert(sorted@[a] == pre[a] && sorted@[b] == p);
                } else if a == j {
                    assert(sorted@[a] == p && sorted@[b] == pre[b - 1]);
                    assert(!row_le(pre[j as int], p));
                    assert(row_le(pre[j as int], pre[b - 1]) || j == b - 1);
                } else {
                    assert(a < j < b);
                    assert(sorted@[a] == pre[a] && sorted@[b] == pre[b - 1]);
                }
            }
            let post = points@.subrange(0, i + 1);
            assert(post.drop_last() =~= points@.subrange(0, i as int));
            assert(post =~= points@.subrange(0, i as int).push(p));
            assert(sorted@.to_multiset() =~= post.to_multiset());
        }
        i = i + 1;
    }

    proof {
        assert(points@.subrange(0, n as int) =~= points@);
    }
    sorted
}

/// `p` lies within `r`.
pub open spec fn in_rect(r: Rectangle, p: Point) -> bool {
    &&& r.top_left.x <= p.x < r.top_left.x + r.width
    &&& r.top_left.y <= p.y < r.top_left.y + r.height
}

/// Whether `point` lies within `rect`.
pub fn is_point_in_rectangle(rect: &Rectangle, point: &Point) -> (r: bool)
    requires
        rect.width <= 0x4000_0000,
        rect.height <= 0x4000_0000,
    ensures
        r == in_rect(*rect, *point),
{
    (point.x as i64) >= (rect.top_left.x as i64)
        && (point.x as i64) < (rect.top_left.x as i64) + (rect.width as i64)
        && (point.y as i64) >= (rect.top_left.y as i64)
        && (point.y as i64) < (rect.top_left.y as i64) + (rect.height as i64)
}

/// Some rectangle of `rs` contains `p`.
pub open spec fn covered(rs: Seq<Rectangle>, p: Point) -> bool {
    exists|k: int| 0 <= k < rs.len() && in_rect(rs[k], p)
}

/// `r` is a horizontal run of cells of `s`: one cell tall, and every cell
/// it spans is a point of `s`.
pub open spec fn run_of(s: Seq<Point>, r: Rectangle) -> bool {
    &&& r.height == 1
    &&& 1 <= r.width
    &&& forall|d: int|
        0 <= d < r.width ==> #[trigger] contains_coord(s, r.top_left.x + d, r.top_left.y as int)
}

/// The two rectangles share no cell: they are separated along at least one
/// axis.
pub open spec fn disjoint_rects(a: Rectangle, b: Rectangle) -> bool {
    ||| a.top_left.x + a.width <= b.top_left.x
    ||| b.top_left.x + b.width <= a.top_left.x
    ||| a.top_left.y + a.height <= b.top_left.y
    ||| b.top_left.y + b.height <= a.top_left.y
}

/// A run of `s` that extends past neither of its ends.
pub open spec fn maximal_run_of(s: Seq<Point>, r: Rectangle) -> bool {
    &&& run_of(s, r)
    &&& !contains_coord(s, r.top_left.x - 1, r.top_left.y as int)
    &&& !contains_coord(s, r.top_left.x + r.width, r.top_left.y as int)
}

proof fn lemma_contains_coord_transfer(s1: Seq<Point>, s2: Seq<Point>, x: int, y: int)
    requires
        s1.to_multiset() == s2.to_multiset(),
    ensures
        contains_coord(s1, x, y) == contains_coord(s2, x, y),
{
    if contains_coord(s1, x, y) {
        let i = choose|i: int| 0 <= i < s1.len() && s1[i].x == x && s1[i].y == y;
        let e = s1[i];
        assert(s1.contains(e));
        assert(s1.to_multiset().count(e) > 0);
        assert(s2.to_multiset().count(e) > 0);
        assert(s2.contains(e));
        let j = choose|j: int| 0 <= j < s2.len() && s2[j] == e;
        assert(s2[j].x == x && s2[j].y == y);
    }
    if contains_coord(s2, x, y) {
        let i = choose|i: int| 0 <= i < s2.len() && s2[i].x == x && s2[i].y == y;
        let e = s2[i];
        assert(s2.contains(e));
        assert(s2.to_multiset().count(e) > 0);
        assert(s1.to_multiset().count(e) > 0);
        assert(s1.contains(e));
        let j = choose|j: int| 0 <= j < s1.len() && s1[j] == e;
        assert(s1[j].x == x && s1[j].y == y);
    }
}

/// Whether any rectangle gathered so far contains `p`.
fn covered_by_any(rectangles: &Vec<Rectangle>, p: &Point) -> (r: bool)
    requires
        forall|k: int|
            0 <= k < rectangles@.len() ==> (#[trigger] rectangles@[k]).width <= 0x4000_0000
                && rectangles@[k].height <= 0x4000_0000,
    ensures
        r == covered(rectangles@, *p),
{
    let n = rectangles.len();
    let mut k: usize = 0;
    while k < n
        invariant
            n == rectangles@.len(),
            k <= n,
            forall|m: int|
                0 <= m < rectangles@.len() ==> (#[trigger] rectangles@[m]).width <= 0x4000_0000
                    && rectangles@[m].height <= 0x4000_0000,
            forall|m: int| 0 <= m < k ==> !in_rect(#[trigger] rectangles@[m], *p),
        decreases n - k,
    {
        if is_point_in_rectangle(&rectangles[k], p) {
            return true;
        }
        k = k + 1;
    }
    false
}

/// Merge points into one-cell-tall rectangles, row by row.
///
/// The points are swept in row-major order; each point not yet inside a
/// gathered rectangle starts a new one, which swallows the unbroken run of
/// horizontally consecutive points that follows it. Every returned
/// rectangle is a run of the input's cells, every input point ends up
/// covered, distinct rectangles are pairwise disjoint (so the result
/// partitions the covered cells into runs, with no rectangle repeated),
/// and — provided no input point repeats — every rectangle is a maximal
/// run: the cells just beyond its two ends are not in the input.
pub fn find_rectangles(points: &Vec<Point>) -> (rectangles: Vec<Rectangle>)
    requires
        points@.len() <= 0x4000_0000,
    ensures
        forall|k: int|
            0 <= k < rectangles@.len() ==> run_of(points@, #[trigger] rectangles@[k])
                && rectangles@[k].width <= points@.len(),
        forall|i: int| 0 <= i < points@.len() ==> covered(rectangles@, #[trigger] points@[i]),
        forall|k1: int, k2: int|
            0 <= k1 < k2 < rectangles@.len() ==> disjoint_rects(
                #[trigger] rectangles@[k1],
                #[trigger] rectangles@[k2],
            ),
        forall|k1: int, k2: int, p: Point|
            0 <= k1 < k2 < rectangles@.len() ==> !(#[trigger] in_rect(rectangles@[k1], p)
                && #[trigger] in_rect(rectangles@[k2], p)),
        points@.no_duplicates() ==> forall|k: int|
            0 <= k < rectangles@.len() ==> maximal_run_of(points@, #[trigger] rectangles@[k]),
{
    let n = points.len();
    let sorted = sort_rowwise(points);
    let ghost s = sorted@;

    proof {
        if points@.no_duplicates() {
            points@.lemma_multiset_has_no_duplicates();
            s.lemma_multiset_has_no_duplicates_conv();
        }
    }

    let mut rectangles: Vec<Rectangle> = Vec::new();
    let mut i: usize = 0;

    while i < n
        invariant
            n == points@.len(),
            n <= 0x4000_0000,
            sorted@ == s,
            s.len() == n,
            sorted_rowwise(s),
            s.to_multiset() == points@.to_multiset(),
            points@.no_duplicates() ==> s.no_duplicates(),
            i <= n,
            forall|k: int|
                0 <= k < rectangles@.len() ==> run_of(s, #[trigger] rectangles@[k])
                    && rectangles@[k].width <= n,
            forall|j: int| 0 <= j < i ==> covered(rectangles@, #[trigger] s[j]),
            forall|k: int|
                0 <= k < rectangles@.len() ==> exists|m: int|
                    0 <= m < i && s[m] == (#[trigger] rectangles@[k]).top_left,
            forall|k1: int, k2: int|
                0 <= k1 < k2 < rectangles@.len() ==> disjoint_rects(
                    #[trigger] rectangles@[k1],
                    #[trigger] rectangles@[k2],
                ),
            s.no_duplicates() ==> forall|k: int|
                0 <= k < rectangles@.len() ==> maximal_run_of(s, #[trigger] rectangles@[k]),
        decreases n - i,
    {
        let point = sorted[i];

        if !covered_by_any(&rectangles, &point) {
            let mut width: usize = 1;
            while i + width < n && sorted[i + width].y == point.y && (sorted[i + width].x as i64)
                == (point.x as i64) + (width as i64)
                invariant
                    n == points@.len(),
                    n <= 0x4000_0000,
                    sorted@ == s,
                    s.len() == n,
                    i < n,
                    point == s[i as int],
                    1 <= width,
                    i + width <= n,
                    forall|d: int|
                        0 <= d < width ==> (#[trigger] s[i + d]).y == point.y && s[i + d].x
                            == point.x + d,
                decreases n - i - width,
            {
                width = width + 1;
                proof {
                    assert forall|d: int|
                        0 <= d < width implies (#[trigger] s[i + d]).y == point.y && s[i + d].x
                        == point.x + d by {
                        if d == width - 1 {
                            assert(i + d == i + width - 1);
                        }
                    }
                }
            }

            let rect = Rectangle { top_left: point, width, height: 1 };
            let ghost pre_rects = rectangles@;
            rectangles.push(rect);

            proof {
                assert forall|d: int|
                    0 <= d < width implies #[trigger] contains_coord(
                    s,
                    point.x + d,
                    point.y as int,
                ) by {
                    assert(s[i + d].x == point.x + d && s[i + d].y == point.y);
                }
                assert(run_of(s, rect));
                assert(in_rect(rect, point));
                assert(covered(rectangles@, point)) by {
                    assert(rectangles@[pre_rects.len() as int] == rect);
                }
                assert forall|j: int| 0 <= j < i + 1 implies covered(
                    rectangles@,
                    #[trigger] s[j],
                ) by {
                    if j < i {
                        let k = choose|k: int| 0 <= k < pre_rects.len() && in_rect(pre_rects[k], s[j]);
                        assert(rectangles@[k] == pre_rects[k]);
                    } else {
                        assert(s[j] == point);
                    }
                }

                // The new rectangle touches none of the earlier ones: an
                // earlier rectangle on the same row starts at or left of
                // this (uncovered) point, so it must end at or before it.
                assert forall|k: int| 0 <= k < pre_rects.len() implies disjoint_rects(
                    #[trigger] pre_rects[k],
                    rect,
                ) by {
                    let r = pre_rects[k];
                    assert(run_of(s, r));
                    if r.top_left.y == point.y {
                        let m = choose|m: int| 0 <= m < i && s[m] == r.top_left;
                        assert(row_le(s[m], s[i as int]));
                        assert(r.top_left.x <= point.x);
                        assert(!in_rect(r, point));
                        assert(r.top_left.x + r.width <= point.x);
                    }
                }
                assert forall|k1: int, k2: int|
                    0 <= k1 < k2 < rectangles@.len() implies disjoint_rects(
                    #[trigger] rectangles@[k1],
                    #[trigger] rectangles@[k2],
                ) by {
                    if k2 < pre_rects.len() {
                        assert(rectangles@[k1] == pre_rects[k1]);
                        assert(rectangles@[k2] == pre_rects[k2]);
                    } else {
                        assert(rectangles@[k1] == pre_rects[k1]);
                        assert(rectangles@[k2] == rect);
                    }
                }
                assert forall|k: int| 0 <= k < rectangles@.len() implies exists|m: int|
                    0 <= m < i + 1 && s[m] == (#[trigger] rectangles@[k]).top_left by {
                    if k < pre_rects.len() {
                        assert(rectangles@[k] == pre_rects[k]);
                        let m = choose|m: int| 0 <= m < i && s[m] == pre_rects[k].top_left;
                        assert(0 <= m < i + 1 && s[m] == rectangles@[k].top_left);
                    } else {
                        assert(rectangles@[k] == rect);
                        assert(s[i as int] == rect.top_left);
                    }
                }

                if s.no_duplicates() {
                    // The cell just past the right end is not among the
                    // points: the run swallowed every consecutive cell.
                    assert(!contains_coord(s, point.x + width, point.y as int)) by {
                        if contains_coord(s, point.x + width, point.y as int) {
                            let m = choose|m: int|
                                0 <= m < s.len() && s[m].x == point.x + width && s[m].y == point.y;
                            assert(m >= i + width) by {
                                if m < i + width {
                                    if m < i {
                                        assert(row_le(s[m], s[i as int]));
                                    } else {
                                        let d = m - i;
                                        assert(s[i + d].x == point.x + d);
                                        assert(i + d == m);
                                    }
                                }
                            }
                            assert(i + width < n);
                            assert(s[i + (width - 1)].y == point.y && s[i + (width - 1)].x
                                == point.x + (width - 1));
                            assert(row_le(s[i + width - 1], s[i + width]));
                            if m > i + width {
                                assert(row_le(s[i + width], s[m]));
                            }
                            assert(s[i + width].y == point.y);
                            assert(point.x + width - 1 <= s[i + width].x <= point.x + width);
                            assert(s[i + width] != s[i + width - 1]);
                            assert(s[i + width].x == point.x + width);
                            assert(false);
                        }
                    }
                    // The cell just before the left end is not among the
                    // points either: had it been, an earlier rectangle
                    // would have run through this point already.
                    assert(!contains_coord(s, point.x - 1, point.y as int)) by {
                        if contains_coord(s, point.x - 1, point.y as int) {
                            let m = choose|m: int|
                                0 <= m < s.len() && s[m].x == point.x - 1 && s[m].y == point.y;
                            assert(m < i) by {
                                if m >= i {
                                    if m > i {
                                        assert(row_le(s[i as int], s[m]));
                                    }
                                }
                            }
                            assert(covered(pre_rects, s[m]));
                            let k = choose|k: int|
                                0 <= k < pre_rects.len() && in_rect(pre_rects[k], s[m]);
                            let r = pre_rects[k];
                            assert(maximal_run_of(s, r));
                            assert(r.top_left.y == point.y);
                            assert(point.x - 1 < r.top_left.x + r.width);
                            if point.x == r.top_left.x + r.width {
                                assert(contains_coord(s, r.top_left.x + r.width, point.y as int))
                                    by {
                                    assert(s[i as int].x == point.x && s[i as int].y == point.y);
                                }
                                assert(false);
                            }
                            assert(in_rect(r, point));
                            assert(covered(pre_rects, point));
                            assert(false);
                        }
                    }
                    assert forall|k: int|
                        0 <= k < rectangles@.len() implies maximal_run_of(
                        s,
                        #[trigger] rectangles@[k],
                    ) by {
                        if k < pre_rects.len() {
                            assert(rectangles@[k] == pre_rects[k]);
                        } else {
                            assert(rectangles@[k] == rect);
                        }
                    }
                }
            }
        }

        i = i + 1;
    }

    proof {
        assert forall|k: int|
            0 <= k < rectangles@.len() implies run_of(points@, #[trigger] rectangles@[k])
            && rectangles@[k].width <= points@.len() by {
            let r = rectangles@[k];
            assert(run_of(s, r));
            assert forall|d: int|
                0 <= d < r.width implies #[trigger] contains_coord(
                points@,
                r.top_left.x + d,
                r.top_left.y as int,
            ) by {
                lemma_contains_coord_transfer(s, points@, r.top_left.x + d, r.top_left.y as int);
            }
        }
        assert forall|k1: int, k2: int, p: Point|
            0 <= k1 < k2 < rectangles@.len() implies !(#[trigger] in_rect(rectangles@[k1], p)
            && #[trigger] in_rect(rectangles@[k2], p)) by {
            assert(disjoint_rects(rectangles@[k1], rectangles@[k2]));
        }
        assert forall|t: int| 0 <= t < points@.len() implies covered(
            rectangles@,
            #[trigger] points@[t],
        ) by {
            let e = points@[t];
            assert(points@.contains(e));
            assert(points@.to_multiset().count(e) > 0);
            assert(s.to_multiset().count(e) > 0);
            assert(s.contains(e));
            let j = choose|j: int| 0 <= j < s.len() && s[j] == e;
            assert(covered(rectangles@, s[j]));
        }
        if points@.no_duplicates() {
            assert forall|k: int|
                0 <= k < rectangles@.len() implies maximal_run_of(
                points@,
                #[trigger] rectangles@[k],
            ) by {
                let r = rectangles@[k];
                assert(maximal_run_of(s, r));
                assert forall|d: int|
                    0 <= d < r.width implies #[trigger] contains_coord(
                    points@,
                    r.top_left.x + d,
                    r.top_left.y as int,
                ) by {
                    lemma_contains_coord_transfer(
                        s,
                        points@,
                        r.top_left.x + d,
                        r.top_left.y as int,
                    );
                }
                lemma_contains_coord_transfer(s, points@, r.top_left.x - 1, r.top_left.y as int);
                lemma_contains_coord_transfer(
                    s,
                    points@,
                    r.top_left.x + r.width,
                    r.top_left.y as int,
                );
            }
        }
    }

    rectangles
}

/// One merged wall rectangle as a physics collider: its center and half
/// extents in world milliunits. A cell is one grid step square; the box
/// spans the run's cells and is half a grid step tall.
#[derive(Clone, Copy, Debug, PartialEq, Eq, Structural)]
pub struct WallCollider {
    pub center: Vec2Fx,
    pub half_extents: Vec2Fx,
}

/// Where the collider box of a merged run sits and how big it is.
pub fn wall_collider(rect: &Rectangle) -> (c: WallCollider)
    requires
        rect.width <= 0x4000_0000,
    ensures
        c.center.x == rect.top_left.x * WALL_GRID_SIZE + rect.width * (WALL_GRID_SIZE / 2),
        c.center.y == rect.top_left.y * WALL_GRID_SIZE + WALL_GRID_SIZE / 2,
        c.half_extents.x == rect.width * (WALL_GRID_SIZE / 2),
        c.half_extents.y == WALL_GRID_SIZE / 2,
{
    let half_step: i64 = WALL_GRID_SIZE / 2;
    let half_span: i64 = (rect.width as i64) * half_step;
    WallCollider {
        center: Vec2Fx {
            x: (rect.top_left.x as i64) * WALL_GRID_SIZE + half_span,
            y: (rect.top_left.y as i64) * WALL_GRID_SIZE + half_step,
        },
        half_extents: Vec2Fx { x: half_span, y: half_step },
    }
}

} // verus!
