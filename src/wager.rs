use vstd::prelude::*;

use crate::identity::Pubkey;

verus! {

/// One bet between an initiator and an opponent, decided by a judge.
#[derive(Clone, Copy, Debug, PartialEq, Eq, Structural)]
pub struct Wager {
    pub id: u64,
    pub wager_initiator: Pubkey,
    pub opponent: Option<Pubkey>,
    pub judge: Pubkey,
    pub amount: u64,
    pub expiration_date: i64,
    pub end_date: i64,
    pub opponent_accepted: bool,
    pub judge_accepted: bool,
    pub winner: Option<Pubkey>,
    pub odds_numerator: u16,
    pub odds_denominator: u16,
}

/// Both odds terms are at least one, the denominator is at most 1000, and
/// the ratio lies between 1:100 and 100:1 inclusive.
pub open spec fn odds_in_range(num: u16, den: u16) -> bool {
    &&& 1 <= num
    &&& 1 <= den
    &&& den <= 1000
    &&& den <= 100 * num
    &&& num <= 100 * den
}

impl Wager {
    /// What holds of every record the library keeps.
    pub open spec fn wf(self) -> bool {
        &&& self.end_date > self.expiration_date
        &&& odds_in_range(self.odds_numerator, self.odds_denominator)
        &&& self.opponent_accepted ==> self.opponent is Some
        &&& self.winner is Some ==> self.opponent_accepted && self.judge_accepted
    }

    /// The record as it stands right after creation.
    pub open spec fn fresh(
        initiator: Pubkey,
        id: u64,
        opponent: Option<Pubkey>,
        judge: Pubkey,
        amount: u64,
        expiration_date: i64,
        end_date: i64,
        odds_numerator: u16,
        odds_denominator: u16,
    ) -> Wager {
        Wager {
            id,
            wager_initiator: initiator,
            opponent,
            judge,
            amount,
            expiration_date,
            end_date,
            opponent_accepted: false,
            judge_accepted: false,
            winner: None,
            odds_numerator,
            odds_denominator,
        }
    }

    /// The record after `user` has accepted it as opponent.
    pub open spec fn accepted_by(self, user: Pubkey) -> Wager {
        Wager { opponent_accepted: true, opponent: Some(user), ..self }
    }

    /// The record after the judge has agreed to judge it.
    pub open spec fn judging_accepted(self) -> Wager {
        Wager { judge_accepted: true, ..self }
    }

    /// The record as it is closed with `winner` named.
    pub open spec fn won_by(self, winner: Pubkey) -> Wager {
        Wager { winner: Some(winner), ..self }
    }
}

} // verus!
