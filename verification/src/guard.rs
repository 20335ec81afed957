//! What the turn loop does with the answer to a move: go on, ask again, or
//! give up on a player who keeps naming moves that cannot be played.

use vstd::prelude::*;
use crate::game::GameError;
use crate::piece::PieceType;

verus! {

/// How many refused moves in a row end the game.
pub const FAIL_LIMIT: usize = 6;

/// What the turn loop does next.
#[derive(Copy, Clone, PartialEq, Eq, Structural, Debug)]
pub enum TurnStep {
    /// The stone was placed; the other player moves.
    Next,
    /// The stone was placed and won the game for the given colour.
    Won(PieceType),
    /// The move was refused; the same player is asked again.
    Retry,
    /// The move was refused once too often: the player is taken to be
    /// broken, and the game is given up.
    GiveUp,
}

/// Counts the moves refused in a row.
pub struct RetryGuard {
    fail_count: usize,
    limit: usize,
}

/// The step to take on `outcome` after `fails` refusals in a row, where
/// `limit` refusals end the game.
pub open spec fn turn_step(
    fails: nat,
    limit: nat,
    outcome: Result<Option<PieceType>, GameError>,
) -> TurnStep {
    match outcome {
        Ok(None) => TurnStep::Next,
        Ok(Some(winner)) => TurnStep::Won(winner),
        Err(_) => if fails + 1 >= limit {
            TurnStep::GiveUp
        } else {
            TurnStep::Retry
        },
    }
}

/// The refusals in a row once `outcome` is counted. A stone that was placed
/// and leaves the game open clears the count. A refusal adds one to it, up to
/// the limit.
pub open spec fn fails_after(
    fails: nat,
    limit: nat,
    outcome: Result<Option<PieceType>, GameError>,
) -> nat {
    match outcome {
        Ok(None) => 0,
        Ok(Some(_)) => fails,
        Err(_) => if fails < limit {
            fails + 1
        } else {
            fails
        },
    }
}

impl RetryGuard {
    #[verifier::type_invariant]
    closed spec fn inv(self) -> bool {
        self.fail_count <= self.limit
    }

    /// The moves refused in a row so far.
    pub closed spec fn fails(&self) -> nat {
        self.fail_count as nat
    }

    /// The number of refusals in a row that ends the game.
    pub closed spec fn limit(&self) -> nat {
        self.limit as nat
    }

    /// A guard that gives up at the sixth refusal in a row.
    pub fn new() -> (guard: RetryGuard)
        ensures
            guard.fails() == 0,
            guard.limit() == FAIL_LIMIT,
    {
        RetryGuard::with_limit(FAIL_LIMIT)
    }

    /// A guard that gives up at the `limit`-th refusal in a row.
    pub fn with_limit(limit: usize) -> (guard: RetryGuard)
        ensures
            guard.fails() == 0,
            guard.limit() == limit,
    {
        RetryGuard { fail_count: 0, limit }
    }

    /// Counts the answer to a move, and says what the turn loop does next.
    pub fn step(&mut self, outcome: &Result<Option<PieceType>, GameError>) -> (step: TurnStep)
        ensures
            step == turn_step(old(self).fails(), old(self).limit(), *outcome),
            final(self).fails() == fails_after(old(self).fails(), old(self).limit(), *outcome),
            final(self).limit() == old(self).limit(),
            final(self).fails() <= final(self).limit(),
    {
        proof {
            use_type_invariant(&*self);
        }
        match outcome {
            Ok(None) => {
                self.fail_count = 0;
                TurnStep::Next
            },
            Ok(Some(winner)) => TurnStep::Won(*winner),
            Err(_) => {
                if self.fail_count < self.limit {
                    self.fail_count = self.fail_count + 1;
                }
                if self.fail_count >= self.limit {
                    TurnStep::GiveUp
                } else {
                    TurnStep::Retry
                }
            },
        }
    }
}

} // verus!
