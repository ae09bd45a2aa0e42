use vstd::prelude::*;

use crate::demon::MinimalDemon;
use crate::error::DemonlistError;

verus! {

/// What a move does to the demons other than the one that moves.
///
/// The list positions are kept free of holes and duplicates: the demons
/// between the old and the new position close up behind the moving demon
/// and open a gap for it at its target.
#[derive(Debug, Clone, Copy, PartialEq, Eq, Structural)]
pub enum PositionShift {
    /// The demon already stands at the target: nothing moves.
    Unchanged,
    /// The demon moves down the list, from `from` to the larger `to`: every
    /// demon at a position in `from + 1 ..= to` moves up by one.
    TowardsLower { from: i16, to: i16 },
    /// The demon moves up the list, from `from` to the smaller `to`: every
    /// demon at a position in `to .. from` moves down by one.
    TowardsHigher { from: i16, to: i16 },
}

impl PositionShift {
    /// Where a demon other than the moving one ends up, given its position `p`.
    pub open spec fn shifted(self, p: int) -> int {
        match self {
            PositionShift::Unchanged => p,
            PositionShift::TowardsLower { from, to } => if from < p <= to { p - 1 } else { p },
            PositionShift::TowardsHigher { from, to } => if to <= p < from { p + 1 } else { p },
        }
    }

    /// The position that a demon other than the moving one, standing at
    /// `position`, has after the shift.
    pub fn shift(&self, position: i16) -> (r: i16)
        ensures
            r == self.shifted(position as int),
    {
        match *self {
            PositionShift::Unchanged => position,
            PositionShift::TowardsLower { from, to } => {
                if from < position && position <= to {
                    position - 1
                } else {
                    position
                }
            },
            PositionShift::TowardsHigher { from, to } => {
                if to <= position && position < from {
                    position + 1
                } else {
                    position
                }
            },
        }
    }
}

/// The shift that moving a demon from `from` to `to` causes.
pub open spec fn move_shift(from: i16, to: i16) -> PositionShift {
    if to > from {
        PositionShift::TowardsLower { from, to }
    } else if to < from {
        PositionShift::TowardsHigher { from, to }
    } else {
        PositionShift::Unchanged
    }
}

/// The position, after moving the demon at `from` to `to`, of the demon that
/// stood at `p` before (the moving demon included).
pub open spec fn position_after_move(from: i16, to: i16, p: int) -> int {
    if p == from {
        to as int
    } else {
        move_shift(from, to).shifted(p)
    }
}

impl MinimalDemon {
    /// Moves this demon to position `to` of a list whose highest position is
    /// `maximal_position`.
    ///
    /// `to` must lie in `1..=maximal_position`, so that the move leaves no hole
    /// in the list. On success the demon stands at `to` and the result says
    /// how the other demons are to be shifted.
    pub fn mv(&mut self, to: i16, maximal_position: i16) -> (r: Result<PositionShift, DemonlistError>)
        ensures
            r is Err <==> (to > maximal_position || to < 1),
            r is Err ==> {
                &&& r == Err::<PositionShift, DemonlistError>(
                    DemonlistError::InvalidPosition { maximal: maximal_position },
                )
                &&& *final(self) == *old(self)
            },
            r is Ok ==> {
                &&& r == Ok::<PositionShift, DemonlistError>(move_shift(old(self).position, to))
                &&& *final(self) == (MinimalDemon { position: to, ..*old(self) })
            },
    {
        if to > maximal_position || to < 1 {
            return Err(DemonlistError::InvalidPosition { maximal: maximal_position });
        }
        if to == self.position {
            return Ok(PositionShift::Unchanged);
        }
        let from = self.position;
        self.position = to;
        if to > from {
            Ok(PositionShift::TowardsLower { from, to })
        } else {
            Ok(PositionShift::TowardsHigher { from, to })
        }
    }
}

/// A move within a list of `n` demons keeps every demon within `1..=n`.
pub proof fn lemma_move_stays_in_list(from: i16, to: i16, n: int, p: int)
    requires
        1 <= from <= n,
        1 <= to <= n,
        1 <= p <= n,
    ensures
        1 <= position_after_move(from, to, p) <= n,
{
}

/// A move never puts two demons at the same position.
pub proof fn lemma_move_injective(from: i16, to: i16, p: int, q: int)
    requires
        p != q,
    ensures
        position_after_move(from, to, p) != position_after_move(from, to, q),
{
}

/// After a move within a list of `n` demons, every position in `1..=n` is
/// taken: the list has no hole.
pub proof fn lemma_move_leaves_no_hole(from: i16, to: i16, n: int, t: int)
    requires
        1 <= from <= n,
        1 <= to <= n,
        1 <= t <= n,
    ensures
        exists|p: int| 1 <= p <= n && #[trigger] position_after_move(from, to, p) == t,
{
    lemma_move_back_restores(to, from, t);
    let p = position_after_move(to, from, t);
    assert(position_after_move(from, to, p) == t);
}

/// Moving a demon back to where it came from restores every position.
pub proof fn lemma_move_back_restores(from: i16, to: i16, p: int)
    ensures
        position_after_move(to, from, position_after_move(from, to, p)) == p,
{
}

/// The demons that do not move keep their order relative to each other.
pub proof fn lemma_move_keeps_order(from: i16, to: i16, p: int, q: int)
    requires
        p != from,
        q != from,
        p < q,
    ensures
        position_after_move(from, to, p) < position_after_move(from, to, q),
{
}

} // verus!
