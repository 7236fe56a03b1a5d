//! Arithmetic of a half-open window `(start, end)` sliding over `total` items,
//! `page` items at a time.
//!
//! The spec functions work on mathematical integers; the executable functions
//! compute the same windows on `usize` without ever overflowing.

use vstd::prelude::*;

verus! {

/// The smaller of two integers.
pub open spec fn min_int(a: int, b: int) -> int {
    if a <= b {
        a
    } else {
        b
    }
}

/// `a - b`, or zero where that would be negative.
pub open spec fn minus_or_zero(a: int, b: int) -> int {
    if a >= b {
        a - b
    } else {
        0
    }
}

/// The window lies inside `[0, total]`, is not inverted and shows at most one page.
pub open spec fn window_ok(w: (int, int), page: int, total: int) -> bool {
    &&& 0 <= w.0 <= w.1 <= total
    &&& w.1 - w.0 <= page
}

/// The window lies inside `[0, total]` and shows exactly one page, or everything
/// where there is less than a page.
pub open spec fn window_full(w: (int, int), page: int, total: int) -> bool {
    &&& 0 <= w.0 <= w.1 <= total
    &&& w.1 - w.0 == min_int(page, total)
}

/// The first page.
pub open spec fn head_window(page: int, total: int) -> (int, int) {
    (0, min_int(page, total))
}

/// The last page.
pub open spec fn tail_window(page: int, total: int) -> (int, int) {
    (minus_or_zero(total, page), total)
}

/// One page further: the end advances by a page but stops at `total`, and the
/// start follows one page behind it.
pub open spec fn forward_window(w: (int, int), page: int, total: int) -> (int, int) {
    let end = min_int(w.1 + page, total);
    (minus_or_zero(end, page), end)
}

/// One page back: the start retreats by a page but stops at zero, and the end
/// lies one page after it, or at `total`.
pub open spec fn backward_window(w: (int, int), page: int, total: int) -> (int, int) {
    let start = minus_or_zero(w.0, page);
    (start, min_int(start + page, total))
}

/// The window that keeps its `start` and ends one page later, or at `total`.
pub open spec fn anchored_window(start: int, page: int, total: int) -> (int, int) {
    (start, min_int(start + page, total))
}

/// One move of a window.
pub enum Move {
    /// One page further.
    Forward,
    /// One page back.
    Backward,
    /// To the first page.
    Head,
    /// To the last page.
    Tail,
}

/// The window after one move.
pub open spec fn moved(w: (int, int), m: Move, page: int, total: int) -> (int, int) {
    match m {
        Move::Forward => forward_window(w, page, total),
        Move::Backward => backward_window(w, page, total),
        Move::Head => head_window(page, total),
        Move::Tail => tail_window(page, total),
    }
}

/// The window after a sequence of moves, made from the first to the last.
pub open spec fn moved_along(w: (int, int), moves: Seq<Move>, page: int, total: int) -> (int, int)
    decreases moves.len(),
{
    if moves.len() == 0 {
        w
    } else {
        moved(moved_along(w, moves.drop_last(), page, total), moves.last(), page, total)
    }
}

/// No move takes a window out of its bounds, inverts it or makes it wider than
/// a page; and a window that shows a full page still does so after the move.
pub proof fn lemma_move_keeps_window(w: (int, int), m: Move, page: int, total: int)
    requires
        0 <= page,
        0 <= total,
    ensures
        window_ok(w, page, total) ==> window_ok(moved(w, m, page, total), page, total),
        window_full(w, page, total) ==> window_full(moved(w, m, page, total), page, total),
{
}

/// Whatever the sequence of moves, a window stays inside its bounds, is not
/// inverted and shows at most a page: a full page, or everything where there is
/// less than a page, if it did so at the start.
pub proof fn lemma_moves_keep_window(w: (int, int), moves: Seq<Move>, page: int, total: int)
    requires
        0 <= page,
        0 <= total,
    ensures
        window_ok(w, page, total) ==> window_ok(moved_along(w, moves, page, total), page, total),
        window_full(w, page, total) ==> window_full(
            moved_along(w, moves, page, total),
            page,
            total,
        ),
    decreases moves.len(),
{
    if moves.len() > 0 {
        lemma_moves_keep_window(w, moves.drop_last(), page, total);
        lemma_move_keeps_window(
            moved_along(w, moves.drop_last(), page, total),
            moves.last(),
            page,
            total,
        );
    }
}

/// From any window, going to the head, then to the tail, then to the head again
/// ends on the first page.
pub proof fn lemma_head_tail_head(w: (int, int), page: int, total: int)
    ensures
        moved_along(w, seq![Move::Head, Move::Tail, Move::Head], page, total) == head_window(
            page,
            total,
        ),
{
    let moves = seq![Move::Head, Move::Tail, Move::Head];
    assert(moves.len() == 3);
    assert(moves.last() == Move::Head);
}

/// Once a window that shows a full page has reached the end, moving further
/// forward leaves it where it is.
pub proof fn lemma_forward_at_end_stays(w: (int, int), page: int, total: int)
    requires
        window_full(w, page, total),
        w.1 == total,
    ensures
        forward_window(w, page, total) == w,
{
}

/// However often a window that shows a full page and has reached the end is
/// moved further forward, it stays where it is.
pub proof fn lemma_forward_past_end_stays(w: (int, int), times: nat, page: int, total: int)
    requires
        window_full(w, page, total),
        w.1 == total,
    ensures
        moved_along(w, Seq::new(times, |i: int| Move::Forward), page, total) == w,
    decreases times,
{
    let moves = Seq::new(times, |i: int| Move::Forward);
    if times > 0 {
        let fewer = Seq::new((times - 1) as nat, |i: int| Move::Forward);
        assert(moves.drop_last() =~= fewer);
        lemma_forward_past_end_stays(w, (times - 1) as nat, page, total);
        lemma_forward_at_end_stays(w, page, total);
    }
}

/// The view of an executable window as a pair of integers.
pub open spec fn as_ints(w: (usize, usize)) -> (int, int) {
    (w.0 as int, w.1 as int)
}

/// `min(a + b, cap)`, computed without overflow.
pub fn capped_sum(a: usize, b: usize, cap: usize) -> (r: usize)
    ensures
        r as int == min_int(a + b, cap as int),
{
    if a >= cap {
        cap
    } else if b >= cap - a {
        cap
    } else {
        a + b
    }
}

/// `max(0, a - b)`.
pub fn floored_difference(a: usize, b: usize) -> (r: usize)
    ensures
        r as int == minus_or_zero(a as int, b as int),
{
    if a >= b {
        a - b
    } else {
        0
    }
}

/// Computes [`head_window`].
pub fn head(page: usize, total: usize) -> (w: (usize, usize))
    ensures
        as_ints(w) == head_window(page as int, total as int),
{
    (0, capped_sum(0, page, total))
}

/// Computes [`tail_window`].
pub fn tail(page: usize, total: usize) -> (w: (usize, usize))
    ensures
        as_ints(w) == tail_window(page as int, total as int),
{
    (floored_difference(total, page), total)
}

/// Computes [`forward_window`].
pub fn forward(w: (usize, usize), page: usize, total: usize) -> (r: (usize, usize))
    ensures
        as_ints(r) == forward_window(as_ints(w), page as int, total as int),
{
    let end = capped_sum(w.1, page, total);
    (floored_difference(end, page), end)
}

/// Computes [`backward_window`].
pub fn backward(w: (usize, usize), page: usize, total: usize) -> (r: (usize, usize))
    ensures
        as_ints(r) == backward_window(as_ints(w), page as int, total as int),
{
    let start = floored_difference(w.0, page);
    (start, capped_sum(start, page, total))
}

/// Computes [`anchored_window`].
pub fn anchored(start: usize, page: usize, total: usize) -> (r: (usize, usize))
    ensures
        as_ints(r) == anchored_window(start as int, page as int, total as int),
{
    (start, capped_sum(start, page, total))
}

} // verus!
