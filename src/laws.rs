use vstd::prelude::*;

use crate::book::{
    accept_outcome, after_terminal, balance_of, cancel_outcome, create_outcome,
    declare_outcome, refund_outcome, Create, CreateWager, Escrow, Payout, RefundWager,
    UpdateWager, WagerKey,
};
use crate::error::ErrorCode;
use crate::identity::Pubkey;
use crate::wager::{odds_in_range, Wager};

verus! {

/// A creation succeeds exactly when no wager is held under its key, the
/// expiration date lies after the current time, the end date after the
/// expiration date, and the odds lie between 1:100 and 100:1 with a
/// denominator of at most 1000; any violated term is rejected.
pub proof fn law_creation_terms(
    m: Map<WagerKey, Escrow>,
    ctx: CreateWager,
    wager_id: u64,
    expiration_date: i64,
    end_date: i64,
    odds_numerator: u16,
    odds_denominator: u16,
)
    ensures
        create_outcome(m, ctx, wager_id, expiration_date, end_date, odds_numerator, odds_denominator) is Ok
            <==> {
            &&& !m.contains_key(WagerKey { initiator: ctx.user, id: wager_id })
            &&& end_date > expiration_date > ctx.now
            &&& 1 <= odds_numerator && 1 <= odds_denominator <= 1000
            &&& 100 * odds_numerator >= odds_denominator
            &&& odds_numerator <= 100 * odds_denominator
        },
        !m.contains_key(WagerKey { initiator: ctx.user, id: wager_id }) ==> (
        create_outcome(m, ctx, wager_id, expiration_date, end_date, odds_numerator, odds_denominator)
            == if expiration_date <= ctx.now {
            Err(ErrorCode::InvalidExpirationDate)
        } else if end_date <= expiration_date {
            Err(ErrorCode::InvalidEndDate)
        } else if !odds_in_range(odds_numerator, odds_denominator) {
            Err(ErrorCode::InvalidOdds)
        } else {
            Ok(())
        }),
{
}

/// Acceptance of a held wager by a permitted caller succeeds at any time up
/// to and including the expiration date; after it, acceptance fails with
/// the expiry error whatever state the wager is in.
pub proof fn law_acceptance_deadline(m: Map<WagerKey, Escrow>, ctx: UpdateWager)
    requires
        m.contains_key(ctx.wager),
    ensures
        ctx.now > m[ctx.wager].wager.expiration_date ==> accept_outcome(m, ctx) == Err::<(), ErrorCode>(ErrorCode::WagerExpired),
        ctx.now <= m[ctx.wager].wager.expiration_date && (m[ctx.wager].wager.opponent is None
            || m[ctx.wager].wager.opponent == Some(ctx.user)) ==> accept_outcome(m, ctx) is Ok,
{
}

/// Once a wager is accepted, nobody but the accepting opponent can accept it
/// again: any other caller fails, and the record stays well formed.
pub proof fn law_acceptance_is_one_party(w: Wager, first: Pubkey, second: Pubkey, now: i64)
    requires
        w.wf(),
    ensures
        w.accepted_by(first).wf(),
        second != first ==> crate::guards::acceptance_check(w.accepted_by(first), second, now) is Err,
{
}

/// A winner is declared only on a wager both the opponent and the judge have
/// accepted; a caller other than the judge always fails with the caller
/// error, and the judge on an unready wager with the not-ready error.
pub proof fn law_resolution_readiness(m: Map<WagerKey, Escrow>, ctx: Create, winner: Pubkey)
    requires
        m.contains_key(ctx.wager),
    ensures
        declare_outcome(m, ctx, winner) is Ok <==> (ctx.user == m[ctx.wager].wager.judge
            && m[ctx.wager].wager.opponent_accepted && m[ctx.wager].wager.judge_accepted),
        ctx.user != m[ctx.wager].wager.judge ==> declare_outcome(m, ctx, winner)
            == Err::<(Wager, Payout), ErrorCode>(ErrorCode::InvalidCaller),
        ctx.user == m[ctx.wager].wager.judge && !(m[ctx.wager].wager.opponent_accepted
            && m[ctx.wager].wager.judge_accepted) ==> declare_outcome(m, ctx, winner)
            == Err::<(Wager, Payout), ErrorCode>(ErrorCode::WagerNotReady),
{
}

/// Once the opponent has accepted, neither cancellation nor refund can
/// succeed, whatever the caller and the time.
pub proof fn law_accepted_wager_is_locked(
    m: Map<WagerKey, Escrow>,
    k: WagerKey,
    user: Pubkey,
    now: i64,
)
    requires
        m.contains_key(k),
        m[k].wager.opponent_accepted,
    ensures
        cancel_outcome(m, UpdateWager { wager: k, user, now }) is Err,
        refund_outcome(m, RefundWager { wager: k, user, now }) is Err,
{
}

/// For the initiator of a wager nobody accepted, a refund fails with the
/// not-expired error up to and including the expiration date, and succeeds
/// after it, paying the whole custody back to the initiator.
pub proof fn law_refund_deadline(m: Map<WagerKey, Escrow>, ctx: RefundWager)
    requires
        m.contains_key(ctx.wager),
        ctx.user == m[ctx.wager].wager.wager_initiator,
        !m[ctx.wager].wager.opponent_accepted,
    ensures
        ctx.now <= m[ctx.wager].wager.expiration_date ==> refund_outcome(m, ctx)
            == Err::<Payout, ErrorCode>(ErrorCode::WagerNotExpired),
        ctx.now > m[ctx.wager].wager.expiration_date ==> refund_outcome(m, ctx) == Ok::<
            Payout,
            ErrorCode,
        >(Payout { recipient: ctx.user, amount: m[ctx.wager].balance }),
{
}

/// A wager that a terminal transition destroyed holds no custody, and every
/// further terminal transition on it fails because it is no longer held.
pub proof fn law_destroyed_wager_is_gone(
    m: Map<WagerKey, Escrow>,
    k: WagerKey,
    cancel: UpdateWager,
    refund: RefundWager,
    resolve: Create,
    winner: Pubkey,
)
    requires
        cancel.wager == k,
        refund.wager == k,
        resolve.wager == k,
    ensures
        balance_of(m.remove(k), k) == 0,
        cancel_outcome(m.remove(k), cancel) == Err::<Payout, ErrorCode>(ErrorCode::WagerNotFound),
        refund_outcome(m.remove(k), refund) == Err::<Payout, ErrorCode>(ErrorCode::WagerNotFound),
        declare_outcome(m.remove(k), resolve, winner) == Err::<(Wager, Payout), ErrorCode>(
            ErrorCode::WagerNotFound,
        ),
{
}

/// A successful terminal transition releases exactly the custody the wager
/// held, leaves none behind under its key, and touches no other wager.
pub proof fn law_terminal_drains_custody(
    m: Map<WagerKey, Escrow>,
    cancel: UpdateWager,
    refund: RefundWager,
    resolve: Create,
    winner: Pubkey,
)
    ensures
        cancel_outcome(m, cancel) is Ok ==> {
            &&& cancel_outcome(m, cancel)->Ok_0.amount == balance_of(m, cancel.wager)
            &&& balance_of(after_terminal(m, cancel.wager, cancel_outcome(m, cancel)), cancel.wager) == 0
            &&& forall|j: WagerKey| j != cancel.wager ==> #[trigger] balance_of(
                after_terminal(m, cancel.wager, cancel_outcome(m, cancel)),
                j,
            ) == balance_of(m, j)
        },
        refund_outcome(m, refund) is Ok ==> {
            &&& refund_outcome(m, refund)->Ok_0.amount == balance_of(m, refund.wager)
            &&& balance_of(after_terminal(m, refund.wager, refund_outcome(m, refund)), refund.wager) == 0
            &&& forall|j: WagerKey| j != refund.wager ==> #[trigger] balance_of(
                after_terminal(m, refund.wager, refund_outcome(m, refund)),
                j,
            ) == balance_of(m, j)
        },
        declare_outcome(m, resolve, winner) is Ok ==> {
            &&& declare_outcome(m, resolve, winner)->Ok_0.1.amount == balance_of(m, resolve.wager)
            &&& declare_outcome(m, resolve, winner)->Ok_0.1.recipient == winner
            &&& declare_outcome(m, resolve, winner)->Ok_0.0.winner == Some(winner)
            &&& balance_of(
                after_terminal(m, resolve.wager, declare_outcome(m, resolve, winner)),
                resolve.wager,
            ) == 0
            &&& forall|j: WagerKey| j != resolve.wager ==> #[trigger] balance_of(
                after_terminal(m, resolve.wager, declare_outcome(m, resolve, winner)),
                j,
            ) == balance_of(m, j)
        },
{
}

} // verus!
