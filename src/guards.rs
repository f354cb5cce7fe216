use vstd::prelude::*;

use crate::error::ErrorCode;
use crate::identity::Pubkey;
use crate::wager::{odds_in_range, Wager};

verus! {

/// Whether a wager with these terms may be created at time `now`.
pub open spec fn creation_check(
    now: i64,
    expiration_date: i64,
    end_date: i64,
    odds_numerator: u16,
    odds_denominator: u16,
) -> Result<(), ErrorCode> {
    if !(expiration_date > now) {
        Err(ErrorCode::InvalidExpirationDate)
    } else if !(end_date > expiration_date) {
        Err(ErrorCode::InvalidEndDate)
    } else if !odds_in_range(odds_numerator, odds_denominator) {
        Err(ErrorCode::InvalidOdds)
    } else {
        Ok(())
    }
}

/// Whether `user` may accept `w` as opponent at time `now`.
pub open spec fn acceptance_check(w: Wager, user: Pubkey, now: i64) -> Result<(), ErrorCode> {
    if now > w.expiration_date {
        Err(ErrorCode::WagerExpired)
    } else if w.opponent is Some && w.opponent->0 != user {
        Err(ErrorCode::InvalidOpponent)
    } else {
        Ok(())
    }
}

/// Whether `user` may agree to judge `w`.
pub open spec fn judging_check(w: Wager, user: Pubkey) -> Result<(), ErrorCode> {
    if user != w.judge {
        Err(ErrorCode::InvalidCaller)
    } else {
        Ok(())
    }
}

/// Whether `user` may cancel `w`.
pub open spec fn cancel_check(w: Wager, user: Pubkey) -> Result<(), ErrorCode> {
    if user != w.wager_initiator {
        Err(ErrorCode::InvalidCaller)
    } else if w.opponent_accepted {
        Err(ErrorCode::WagerAlreadyAccepted)
    } else {
        Ok(())
    }
}

/// Whether `user` may declare the winner of `w`.
pub open spec fn resolution_check(w: Wager, user: Pubkey) -> Result<(), ErrorCode> {
    if user != w.judge {
        Err(ErrorCode::InvalidCaller)
    } else if !(w.opponent_accepted && w.judge_accepted) {
        Err(ErrorCode::WagerNotReady)
    } else {
        Ok(())
    }
}

/// Whether `user` may take back the stake of `w` at time `now`.
pub open spec fn refund_check(w: Wager, user: Pubkey, now: i64) -> Result<(), ErrorCode> {
    if user != w.wager_initiator {
        Err(ErrorCode::InvalidCaller)
    } else if w.opponent_accepted {
        Err(ErrorCode::WagerAlreadyAccepted)
    } else if !(now > w.expiration_date) {
        Err(ErrorCode::WagerNotExpired)
    } else {
        Ok(())
    }
}

/// Decides whether the odds `odds_numerator:odds_denominator` are acceptable.
pub fn check_odds(odds_numerator: u16, odds_denominator: u16) -> (r: bool)
    ensures
        r == odds_in_range(odds_numerator, odds_denominator),
{
    let num = odds_numerator as u32;
    let den = odds_denominator as u32;
    1 <= num && 1 <= den && den <= 1000 && den <= 100 * num && num <= 100 * den
}

/// Runs the creation guard.
pub fn check_creation(
    now: i64,
    expiration_date: i64,
    end_date: i64,
    odds_numerator: u16,
    odds_denominator: u16,
) -> (r: Result<(), ErrorCode>)
    ensures
        r == creation_check(now, expiration_date, end_date, odds_numerator, odds_denominator),
{
    if !(expiration_date > now) {
        Err(ErrorCode::InvalidExpirationDate)
    } else if !(end_date > expiration_date) {
        Err(ErrorCode::InvalidEndDate)
    } else if !check_odds(odds_numerator, odds_denominator) {
        Err(ErrorCode::InvalidOdds)
    } else {
        Ok(())
    }
}

/// Runs the acceptance guard.
pub fn check_acceptance(w: &Wager, user: Pubkey, now: i64) -> (r: Result<(), ErrorCode>)
    ensures
        r == acceptance_check(*w, user, now),
{
    if now > w.expiration_date {
        return Err(ErrorCode::WagerExpired);
    }
    if let Some(opponent) = w.opponent {
        if user != opponent {
            return Err(ErrorCode::InvalidOpponent);
        }
    }
    Ok(())
}

/// Runs the judging-acceptance guard.
pub fn check_judging(w: &Wager, user: Pubkey) -> (r: Result<(), ErrorCode>)
    ensures
        r == judging_check(*w, user),
{
    if user != w.judge {
        Err(ErrorCode::InvalidCaller)
    } else {
        Ok(())
    }
}

/// Runs the cancellation guard.
pub fn check_cancel(w: &Wager, user: Pubkey) -> (r: Result<(), ErrorCode>)
    ensures
        r == cancel_check(*w, user),
{
    if user != w.wager_initiator {
        Err(ErrorCode::InvalidCaller)
    } else if w.opponent_accepted {
        Err(ErrorCode::WagerAlreadyAccepted)
    } else {
        Ok(())
    }
}

/// Runs the resolution guard.
pub fn check_resolution(w: &Wager, user: Pubkey) -> (r: Result<(), ErrorCode>)
    ensures
        r == resolution_check(*w, user),
{
    if user != w.judge {
        Err(ErrorCode::InvalidCaller)
    } else if !(w.opponent_accepted && w.judge_accepted) {
        Err(ErrorCode::WagerNotReady)
    } else {
        Ok(())
    }
}

/// Runs the refund guard.
pub fn check_refund(w: &Wager, user: Pubkey, now: i64) -> (r: Result<(), ErrorCode>)
    ensures
        r == refund_check(*w, user, now),
{
    if user != w.wager_initiator {
        Err(ErrorCode::InvalidCaller)
    } else if w.opponent_accepted {
        Err(ErrorCode::WagerAlreadyAccepted)
    } else if !(now > w.expiration_date) {
        Err(ErrorCode::WagerNotExpired)
    } else {
        Ok(())
    }
}

} // verus!
