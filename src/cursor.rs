//! Saturating cursor arithmetic shared by every editable or scrollable field.

use vstd::prelude::*;

verus! {

/// Which positions a cursor over a collection of `len` elements may take.
#[derive(Clone, Copy, Debug, PartialEq, Eq, Structural)]
pub enum BoundKind {
    /// An insertion point: `0..=len`, one past the end included.
    Editing,
    /// An existing element: `0..=len - 1`, or `0` when the collection is empty.
    Selection,
}

/// The largest position a cursor of `kind` may take over `len` elements.
pub open spec fn upper_bound(kind: BoundKind, len: int) -> int {
    match kind {
        BoundKind::Editing => len,
        BoundKind::Selection => if len > 0 { len - 1 } else { 0 },
    }
}

/// `value` saturated into `0..=upper`.
pub open spec fn clamped(value: int, upper: int) -> int {
    if value < 0 {
        0
    } else if value > upper {
        upper
    } else {
        value
    }
}

/// Where a cursor at `index` lands after moving by `delta`.
pub open spec fn moved(index: int, delta: int, len: int, kind: BoundKind) -> int {
    clamped(index + delta, upper_bound(kind, len))
}

/// Whether `index` is a valid position of a cursor of `kind` over `len` elements.
pub open spec fn in_bounds(index: int, len: int, kind: BoundKind) -> bool {
    0 <= index <= upper_bound(kind, len)
}

/// A cursor that starts at `start` and makes each move of `moves` in turn;
/// a move is a delta together with the length of the collection at that time.
pub open spec fn after_moves(start: int, moves: Seq<(int, nat)>, kind: BoundKind) -> int
    decreases moves.len(),
{
    if moves.len() == 0 {
        start
    } else {
        let (delta, len) = moves.last();
        moved(after_moves(start, moves.drop_last(), kind), delta, len as int, kind)
    }
}

/// Every sequence of moves leaves the cursor inside the valid range for the
/// length at the last move, whatever the lengths were, empty ones included.
pub proof fn lemma_moves_stay_in_bounds(start: int, moves: Seq<(int, nat)>, kind: BoundKind)
    requires
        moves.len() > 0,
    ensures
        in_bounds(after_moves(start, moves, kind), moves.last().1 as int, kind),
{
}

/// The largest position of a cursor of `kind` over `len` elements.
pub fn last_position(kind: BoundKind, len: usize) -> (r: usize)
    ensures
        r as int == upper_bound(kind, len as int),
{
    match kind {
        BoundKind::Editing => len,
        BoundKind::Selection => if len > 0 {
            len - 1
        } else {
            0
        },
    }
}

/// Moves a cursor of `kind` over `len` elements from `index` by `delta`,
/// saturating at both ends.
pub fn move_cursor(index: usize, delta: i32, len: usize, kind: BoundKind) -> (r: usize)
    ensures
        r as int == moved(index as int, delta as int, len as int, kind),
        in_bounds(r as int, len as int, kind),
{
    let upper = last_position(kind, len);
    if delta < 0 {
        let back = (-(delta as i64)) as usize;
        if back >= index {
            0
        } else if index - back > upper {
            upper
        } else {
            index - back
        }
    } else {
        let forward = delta as usize;
        if index >= upper || forward >= upper - index {
            upper
        } else {
            index + forward
        }
    }
}

/// Puts a cursor of `kind` over `len` elements at `target`, or at the
/// nearest valid position.
pub fn jump_cursor(target: usize, len: usize, kind: BoundKind) -> (r: usize)
    ensures
        r as int == clamped(target as int, upper_bound(kind, len as int)),
        in_bounds(r as int, len as int, kind),
{
    let upper = last_position(kind, len);
    if target > upper {
        upper
    } else {
        target
    }
}

} // verus!
