use vstd::prelude::*;

use crate::error::ErrorCode;
use crate::guards::{
    acceptance_check, cancel_check, check_acceptance, check_cancel, check_creation,
    check_judging, check_refund, check_resolution, creation_check, judging_check,
    refund_check, resolution_check,
};
use crate::identity::Pubkey;
use crate::wager::Wager;

verus! {

/// The address of a wager: its initiator and the id the initiator chose.
#[derive(Clone, Copy, Debug, PartialEq, Eq, Structural)]
pub struct WagerKey {
    pub initiator: Pubkey,
    pub id: u64,
}

/// A wager record together with the value it holds in custody.
#[derive(Clone, Copy, Debug, PartialEq, Eq, Structural)]
pub struct Escrow {
    pub wager: Wager,
    pub balance: u64,
}

impl Escrow {
    pub open spec fn key(self) -> WagerKey {
        WagerKey { initiator: self.wager.wager_initiator, id: self.wager.id }
    }

    /// The record is well formed and its custody is exactly its stake.
    pub open spec fn wf(self) -> bool {
        self.wager.wf() && self.balance == self.wager.amount
    }
}

/// A release of custodied value to one account.
#[derive(Clone, Copy, Debug, PartialEq, Eq, Structural)]
pub struct Payout {
    pub recipient: Pubkey,
    pub amount: u64,
}

/// The caller and clock reading for a creation.
#[derive(Clone, Copy, Debug, PartialEq, Eq, Structural)]
pub struct CreateWager {
    pub user: Pubkey,
    pub now: i64,
}

/// The wager addressed, the caller and the clock reading for accepting,
/// agreeing to judge, or cancelling.
#[derive(Clone, Copy, Debug, PartialEq, Eq, Structural)]
pub struct UpdateWager {
    pub wager: WagerKey,
    pub user: Pubkey,
    pub now: i64,
}

/// The wager addressed, the caller, and the account that receives its funds.
#[derive(Clone, Copy, Debug, PartialEq, Eq, Structural)]
pub struct EndWager {
    pub wager: WagerKey,
    pub user: Pubkey,
    pub winner: Pubkey,
}

/// The wager addressed and the caller for a refund, with the clock reading.
#[derive(Clone, Copy, Debug, PartialEq, Eq, Structural)]
pub struct RefundWager {
    pub wager: WagerKey,
    pub user: Pubkey,
    pub now: i64,
}

/// The wager addressed, the caller, and the accounts that route the payout
/// through the settlement service.
#[derive(Clone, Copy, Debug, PartialEq, Eq, Structural)]
pub struct Create {
    pub wager: WagerKey,
    pub user: Pubkey,
    pub sender: Pubkey,
    pub recipient: Pubkey,
    pub metadata: Pubkey,
    pub mint: Pubkey,
    pub partner: Pubkey,
    pub streamflow_treasury: Pubkey,
    pub withdrawor: Pubkey,
    pub fee_oracle: Pubkey,
    pub streamflow_program: Pubkey,
}

/// The terms of the vesting stream that the settlement service opens.
#[derive(Clone, Copy, Debug)]
pub struct StreamParams {
    pub start_time: u64,
    pub net_amount_deposited: u64,
    pub period: u64,
    pub amount_per_period: u64,
    pub cliff: u64,
    pub cliff_amount: u64,
    pub cancelable_by_sender: bool,
    pub cancelable_by_recipient: bool,
    pub automatic_withdrawal: bool,
    pub transferable_by_sender: bool,
    pub transferable_by_recipient: bool,
    pub can_topup: bool,
    pub stream_name: [u8; 64],
    pub withdraw_frequency: u64,
    pub pausable: Option<bool>,
    pub can_update_rate: Option<bool>,
}

/// What a resolution hands to the settlement service: the closed record with
/// its winner, the payout, the stream terms and the routing accounts. The
/// host performs it in the same transaction as the custody drain.
#[derive(Clone, Copy, Debug)]
pub struct Settlement {
    pub record: Wager,
    pub payout: Payout,
    pub stream: StreamParams,
    pub route: Create,
}

/// Every live wager, keyed by `(initiator, id)`, with its custody.
pub struct WagerBook {
    slots: Vec<Option<Escrow>>,
}

/// Slot `i` holds the wager keyed `k`.
pub open spec fn holds(s: Seq<Option<Escrow>>, i: int, k: WagerKey) -> bool {
    0 <= i < s.len() && s[i] is Some && s[i]->0.key() == k
}

pub open spec fn slots_unique(s: Seq<Option<Escrow>>) -> bool {
    forall|i: int, j: int, k: WagerKey| holds(s, i, k) && holds(s, j, k) ==> i == j
}

pub open spec fn slots_wf(s: Seq<Option<Escrow>>) -> bool {
    &&& slots_unique(s)
    &&& forall|i: int| 0 <= i < s.len() && (#[trigger] s[i]) is Some ==> s[i]->0.wf()
}

pub open spec fn slots_has(s: Seq<Option<Escrow>>, k: WagerKey) -> bool {
    exists|i: int| holds(s, i, k)
}

pub open spec fn slots_get(s: Seq<Option<Escrow>>, k: WagerKey) -> Escrow {
    s[choose|i: int| holds(s, i, k)]->0
}

pub open spec fn slots_view(s: Seq<Option<Escrow>>) -> Map<WagerKey, Escrow> {
    Map::new(|k: WagerKey| slots_has(s, k), |k: WagerKey| slots_get(s, k))
}

proof fn lemma_view_at(s: Seq<Option<Escrow>>, i: int, k: WagerKey)
    requires
        slots_unique(s),
        holds(s, i, k),
    ensures
        slots_view(s).contains_key(k),
        slots_view(s)[k] == s[i]->0,
{
    let j = choose|j: int| holds(s, j, k);
    assert(holds(s, j, k));
}

proof fn lemma_view_set(s: Seq<Option<Escrow>>, i: int, k: WagerKey, x: Option<Escrow>)
    requires
        slots_wf(s),
        holds(s, i, k),
        x is Some ==> x->0.key() == k && x->0.wf(),
    ensures
        slots_wf(s.update(i, x)),
        slots_view(s.update(i, x)) == (if x is Some {
            slots_view(s).insert(k, x->0)
        } else {
            slots_view(s).remove(k)
        }),
{
    let t = s.update(i, x);
    assert forall|a: int, b: int, kk: WagerKey| holds(t, a, kk) && holds(t, b, kk) implies a == b by {
        if a != i && b != i {
            assert(holds(s, a, kk) && holds(s, b, kk));
        } else if a == i && b != i {
            assert(holds(s, b, k));
        } else if a != i && b == i {
            assert(holds(s, a, k));
        }
    }
    assert forall|a: int| 0 <= a < t.len() && (#[trigger] t[a]) is Some implies t[a]->0.wf() by {
        if a != i {
            assert(s[a] is Some);
        }
    }
    let expect = if x is Some {
        slots_view(s).insert(k, x->0)
    } else {
        slots_view(s).remove(k)
    };
    assert forall|kk: WagerKey| #[trigger] slots_view(t).contains_key(kk) <==> expect.contains_key(kk) by {
        if kk != k {
            if slots_has(t, kk) {
                let a = choose|a: int| holds(t, a, kk);
                assert(holds(s, a, kk));
            }
            if slots_has(s, kk) {
                let a = choose|a: int| holds(s, a, kk);
                assert(a != i);
                assert(holds(t, a, kk));
            }
        } else if x is Some {
            assert(holds(t, i, k));
        } else {
            if slots_has(t, k) {
                let a = choose|a: int| holds(t, a, k);
                assert(holds(s, a, k));
            }
        }
    }
    assert forall|kk: WagerKey| #[trigger] slots_view(t).contains_key(kk) implies slots_view(t)[kk]
        == expect[kk] by {
        assert(slots_has(t, kk));
        let a = choose|a: int| holds(t, a, kk);
        assert(holds(t, a, kk));
        lemma_view_at(t, a, kk);
        if a != i {
            assert(holds(s, a, kk));
            lemma_view_at(s, a, kk);
            if kk == k {
                assert(holds(s, i, k));
            }
        }
    }
    assert(slots_view(t) =~= expect);
}

proof fn lemma_view_push(s: Seq<Option<Escrow>>, e: Escrow)
    requires
        slots_wf(s),
        !slots_has(s, e.key()),
        e.wf(),
    ensures
        slots_wf(s.push(Some(e))),
        slots_view(s.push(Some(e))) == slots_view(s).insert(e.key(), e),
{
    let t = s.push(Some(e));
    let n = s.len() as int;
    assert forall|a: int, b: int, kk: WagerKey| holds(t, a, kk) && holds(t, b, kk) implies a == b by {
        if a != n && b != n {
            assert(holds(s, a, kk) && holds(s, b, kk));
        } else if a == n && b != n {
            assert(holds(s, b, kk));
        } else if a != n && b == n {
            assert(holds(s, a, kk));
        }
    }
    assert forall|a: int| 0 <= a < t.len() && (#[trigger] t[a]) is Some implies t[a]->0.wf() by {
        if a != n {
            assert(s[a] is Some);
        }
    }
    let expect = slots_view(s).insert(e.key(), e);
    assert forall|kk: WagerKey| #[trigger] slots_view(t).contains_key(kk) <==> expect.contains_key(kk) by {
        if kk != e.key() {
            if slots_has(t, kk) {
                let a = choose|a: int| holds(t, a, kk);
                assert(holds(s, a, kk));
            }
            if slots_has(s, kk) {
                let a = choose|a: int| holds(s, a, kk);
                assert(holds(t, a, kk));
            }
        } else {
            assert(holds(t, n, kk));
        }
    }
    assert forall|kk: WagerKey| #[trigger] slots_view(t).contains_key(kk) implies slots_view(t)[kk]
        == expect[kk] by {
        assert(slots_has(t, kk));
        let a = choose|a: int| holds(t, a, kk);
        assert(holds(t, a, kk));
        lemma_view_at(t, a, kk);
        if a != n {
            assert(holds(s, a, kk));
            lemma_view_at(s, a, kk);
            assert(kk != e.key());
        }
    }
    assert(slots_view(t) =~= expect);
}

impl View for WagerBook {
    type V = Map<WagerKey, Escrow>;

    closed spec fn view(&self) -> Map<WagerKey, Escrow> {
        slots_view(self.slots@)
    }
}

impl WagerBook {
    /// Keys are unique and every record held is well formed.
    pub closed spec fn wf(&self) -> bool {
        slots_wf(self.slots@)
    }

    /// Every wager held is well formed, holds exactly its stake in custody,
    /// and is filed under its own initiator and id.
    pub proof fn lemma_held_wagers_wf(&self)
        requires
            self.wf(),
        ensures
            forall|k: WagerKey| #[trigger] self@.contains_key(k) ==> self@[k].wf() && self@[k].key() == k,
    {
        assert forall|k: WagerKey| #[trigger] self@.contains_key(k) implies self@[k].wf() && self@[k].key()
            == k by {
            assert(slots_has(self.slots@, k));
            let i = choose|i: int| holds(self.slots@, i, k);
            lemma_view_at(self.slots@, i, k);
            assert(self.slots@[i] is Some);
        }
    }

    /// A book that holds no wager.
    pub fn new() -> (r: WagerBook)
        ensures
            r.wf(),
            r@ == Map::<WagerKey, Escrow>::empty(),
    {
        let r = WagerBook { slots: Vec::new() };
        assert(r@ =~= Map::<WagerKey, Escrow>::empty());
        r
    }

    /// The wager held under `key`, if any, with its custody.
    pub fn get(&self, key: WagerKey) -> (r: Option<Escrow>)
        requires
            self.wf(),
        ensures
            r == (if self@.contains_key(key) { Some(self@[key]) } else { None }),
    {
        match self.find(key) {
            Some(i) => {
                proof {
                    lemma_view_at(self.slots@, i as int, key);
                }
                self.slots[i]
            },
            None => None,
        }
    }

    fn find(&self, key: WagerKey) -> (r: Option<usize>)
        requires
            self.wf(),
        ensures
            r is Some ==> holds(self.slots@, r->0 as int, key),
            r is None ==> !self@.contains_key(key),
    {
        let mut i: usize = 0;
        while i < self.slots.len()
            invariant
                i <= self.slots.len(),
                forall|j: int| 0 <= j < i ==> !holds(self.slots@, j, key),
            decreases self.slots.len() - i,
        {
            if let Some(e) = self.slots[i] {
                if e.wager.wager_initiator == key.initiator && e.wager.id == key.id {
                    return Some(i);
                }
            }
            i = i + 1;
        }
        None
    }

    fn replace(&mut self, i: usize, key: WagerKey, x: Option<Escrow>)
        requires
            old(self).wf(),
            holds(old(self).slots@, i as int, key),
            x is Some ==> x->0.key() == key && x->0.wf(),
        ensures
            final(self).wf(),
            final(self)@ == (if x is Some {
                old(self)@.insert(key, x->0)
            } else {
                old(self)@.remove(key)
            }),
    {
        proof {
            lemma_view_set(self.slots@, i as int, key, x);
        }
        self.slots.set(i, x);
    }
}

/// The custody held under `k`: zero where no wager is held.
pub open spec fn balance_of(m: Map<WagerKey, Escrow>, k: WagerKey) -> u64 {
    if m.contains_key(k) { m[k].balance } else { 0 }
}

/// The book after a terminal transition on `k` that returned `r`.
pub open spec fn after_terminal<T>(m: Map<WagerKey, Escrow>, k: WagerKey, r: Result<T, ErrorCode>) -> Map<WagerKey, Escrow> {
    if r is Ok { m.remove(k) } else { m }
}

/// The outcome of creating a wager in `m`.
pub open spec fn create_outcome(
    m: Map<WagerKey, Escrow>,
    ctx: CreateWager,
    wager_id: u64,
    expiration_date: i64,
    end_date: i64,
    odds_numerator: u16,
    odds_denominator: u16,
) -> Result<(), ErrorCode> {
    if m.contains_key(WagerKey { initiator: ctx.user, id: wager_id }) {
        Err(ErrorCode::WagerAlreadyExists)
    } else {
        creation_check(ctx.now, expiration_date, end_date, odds_numerator, odds_denominator)
    }
}

/// The outcome of accepting `ctx.wager` as opponent.
pub open spec fn accept_outcome(m: Map<WagerKey, Escrow>, ctx: UpdateWager) -> Result<(), ErrorCode> {
    if !m.contains_key(ctx.wager) {
        Err(ErrorCode::WagerNotFound)
    } else {
        acceptance_check(m[ctx.wager].wager, ctx.user, ctx.now)
    }
}

/// The outcome of agreeing to judge `ctx.wager`.
pub open spec fn judging_outcome(m: Map<WagerKey, Escrow>, ctx: UpdateWager) -> Result<(), ErrorCode> {
    if !m.contains_key(ctx.wager) {
        Err(ErrorCode::WagerNotFound)
    } else {
        judging_check(m[ctx.wager].wager, ctx.user)
    }
}

/// The outcome of cancelling `ctx.wager`: on success the whole custody goes
/// back to the initiator.
pub open spec fn cancel_outcome(m: Map<WagerKey, Escrow>, ctx: UpdateWager) -> Result<Payout, ErrorCode> {
    if !m.contains_key(ctx.wager) {
        Err(ErrorCode::WagerNotFound)
    } else {
        match cancel_check(m[ctx.wager].wager, ctx.user) {
            Err(e) => Err(e),
            Ok(_) => Ok(
                Payout {
                    recipient: m[ctx.wager].wager.wager_initiator,
                    amount: m[ctx.wager].balance,
                },
            ),
        }
    }
}

/// The outcome of refunding `ctx.wager`: on success the whole custody goes
/// back to the initiator.
pub open spec fn refund_outcome(m: Map<WagerKey, Escrow>, ctx: RefundWager) -> Result<Payout, ErrorCode> {
    if !m.contains_key(ctx.wager) {
        Err(ErrorCode::WagerNotFound)
    } else {
        match refund_check(m[ctx.wager].wager, ctx.user, ctx.now) {
            Err(e) => Err(e),
            Ok(_) => Ok(
                Payout {
                    recipient: m[ctx.wager].wager.wager_initiator,
                    amount: m[ctx.wager].balance,
                },
            ),
        }
    }
}

/// The outcome of declaring `winner` the winner of `ctx.wager`: on success
/// the closed record and the payout of the whole custody to `winner`.
pub open spec fn declare_outcome(m: Map<WagerKey, Escrow>, ctx: Create, winner: Pubkey) -> Result<(Wager, Payout), ErrorCode> {
    if !m.contains_key(ctx.wager) {
        Err(ErrorCode::WagerNotFound)
    } else {
        match resolution_check(m[ctx.wager].wager, ctx.user) {
            Err(e) => Err(e),
            Ok(_) => Ok(
                (
                    m[ctx.wager].wager.won_by(winner),
                    Payout { recipient: winner, amount: m[ctx.wager].balance },
                ),
            ),
        }
    }
}

/// Opens a wager keyed `(ctx.user, wager_id)`, funded with `amount` taken
/// from the caller into custody.
pub fn create_wager(
    book: &mut WagerBook,
    ctx: CreateWager,
    wager_id: u64,
    opponent: Option<Pubkey>,
    judge: Pubkey,
    amount: u64,
    expiration_date: i64,
    end_date: i64,
    odds_numerator: u16,
    odds_denominator: u16,
) -> (r: Result<(), ErrorCode>)
    requires
        old(book).wf(),
    ensures
        final(book).wf(),
        r == create_outcome(
            old(book)@,
            ctx,
            wager_id,
            expiration_date,
            end_date,
            odds_numerator,
            odds_denominator,
        ),
        r is Ok ==> final(book)@ == old(book)@.insert(
            WagerKey { initiator: ctx.user, id: wager_id },
            Escrow {
                wager: Wager::fresh(
                    ctx.user,
                    wager_id,
                    opponent,
                    judge,
                    amount,
                    expiration_date,
                    end_date,
                    odds_numerator,
                    odds_denominator,
                ),
                balance: amount,
            },
        ),
        r is Err ==> final(book)@ == old(book)@,
{
    let key = WagerKey { initiator: ctx.user, id: wager_id };
    if book.find(key).is_some() {
        return Err(ErrorCode::WagerAlreadyExists);
    }
    check_creation(ctx.now, expiration_date, end_date, odds_numerator, odds_denominator)?;
    let wager = Wager {
        id: wager_id,
        wager_initiator: ctx.user,
        opponent,
        judge,
        amount,
        expiration_date,
        end_date,
        opponent_accepted: false,
        judge_accepted: false,
        winner: None,
        odds_numerator,
        odds_denominator,
    };
    let e = Escrow { wager, balance: amount };
    proof {
        lemma_view_push(book.slots@, e);
    }
    book.slots.push(Some(e));
    Ok(())
}

/// The caller becomes the opponent of `ctx.wager` and commits to it.
///
/// Acceptance stays open up to and including the expiration date. Once it
/// succeeded the opponent is fixed, so the same party may accept again with
/// no change, and anyone else is refused.
pub fn accept_wager(book: &mut WagerBook, ctx: UpdateWager) -> (r: Result<(), ErrorCode>)
    requires
        old(book).wf(),
    ensures
        final(book).wf(),
        r == accept_outcome(old(book)@, ctx),
        r is Ok ==> final(book)@ == old(book)@.insert(
            ctx.wager,
            Escrow {
                wager: old(book)@[ctx.wager].wager.accepted_by(ctx.user),
                ..old(book)@[ctx.wager]
            },
        ),
        r is Err ==> final(book)@ == old(book)@,
{
    let i = match book.find(ctx.wager) {
        Some(i) => i,
        None => return Err(ErrorCode::WagerNotFound),
    };
    proof {
        lemma_view_at(book.slots@, i as int, ctx.wager);
    }
    let mut e = book.slots[i].unwrap();
    check_acceptance(&e.wager, ctx.user, ctx.now)?;
    e.wager.opponent_accepted = true;
    e.wager.opponent = Some(ctx.user);
    book.replace(i, ctx.wager, Some(e));
    Ok(())
}

/// The judge of `ctx.wager` agrees to judge it.
pub fn accept_judging(book: &mut WagerBook, ctx: UpdateWager) -> (r: Result<(), ErrorCode>)
    requires
        old(book).wf(),
    ensures
        final(book).wf(),
        r == judging_outcome(old(book)@, ctx),
        r is Ok ==> final(book)@ == old(book)@.insert(
            ctx.wager,
            Escrow { wager: old(book)@[ctx.wager].wager.judging_accepted(), ..old(book)@[ctx.wager] },
        ),
        r is Err ==> final(book)@ == old(book)@,
{
    let i = match book.find(ctx.wager) {
        Some(i) => i,
        None => return Err(ErrorCode::WagerNotFound),
    };
    proof {
        lemma_view_at(book.slots@, i as int, ctx.wager);
    }
    let mut e = book.slots[i].unwrap();
    check_judging(&e.wager, ctx.user)?;
    e.wager.judge_accepted = true;
    book.replace(i, ctx.wager, Some(e));
    Ok(())
}

/// The initiator withdraws `ctx.wager` before anyone accepted it: the record
/// is destroyed and its whole custody is paid back to the initiator.
pub fn cancel_wager(book: &mut WagerBook, ctx: UpdateWager) -> (r: Result<Payout, ErrorCode>)
    requires
        old(book).wf(),
    ensures
        final(book).wf(),
        r == cancel_outcome(old(book)@, ctx),
        final(book)@ == after_terminal(old(book)@, ctx.wager, r),
{
    let i = match book.find(ctx.wager) {
        Some(i) => i,
        None => return Err(ErrorCode::WagerNotFound),
    };
    proof {
        lemma_view_at(book.slots@, i as int, ctx.wager);
    }
    let e = book.slots[i].unwrap();
    check_cancel(&e.wager, ctx.user)?;
    book.replace(i, ctx.wager, None);
    Ok(Payout { recipient: e.wager.wager_initiator, amount: e.balance })
}

/// The judge names `winner`: the record is closed with its winner set, and
/// its whole custody goes to the settlement service for `winner`.
///
/// Resolution is not bounded by the end date: the judge may resolve at any
/// time once both parties have accepted. The host applies the returned
/// settlement in the same transaction as the custody drain, so that either
/// both take effect or neither does.
pub fn declare_winner(
    book: &mut WagerBook,
    ctx: Create,
    start_time: u64,
    net_amount_deposited: u64,
    period: u64,
    amount_per_period: u64,
    cliff: u64,
    cliff_amount: u64,
    cancelable_by_sender: bool,
    cancelable_by_recipient: bool,
    automatic_withdrawal: bool,
    transferable_by_sender: bool,
    transferable_by_recipient: bool,
    can_topup: bool,
    stream_name: [u8; 64],
    withdraw_frequency: u64,
    pausable: Option<bool>,
    can_update_rate: Option<bool>,
    winner: Pubkey,
) -> (r: Result<Settlement, ErrorCode>)
    requires
        old(book).wf(),
    ensures
        final(book).wf(),
        r is Ok <==> declare_outcome(old(book)@, ctx, winner) is Ok,
        r is Err ==> r->Err_0 == declare_outcome(old(book)@, ctx, winner)->Err_0,
        r is Ok ==> {
            let s = r->Ok_0;
            &&& (s.record, s.payout) == declare_outcome(old(book)@, ctx, winner)->Ok_0
            &&& s.route == ctx
            &&& s.stream.start_time == start_time
            &&& s.stream.net_amount_deposited == net_amount_deposited
            &&& s.stream.period == period
            &&& s.stream.amount_per_period == amount_per_period
            &&& s.stream.cliff == cliff
            &&& s.stream.cliff_amount == cliff_amount
            &&& s.stream.cancelable_by_sender == cancelable_by_sender
            &&& s.stream.cancelable_by_recipient == cancelable_by_recipient
            &&& s.stream.automatic_withdrawal == automatic_withdrawal
            &&& s.stream.transferable_by_sender == transferable_by_sender
            &&& s.stream.transferable_by_recipient == transferable_by_recipient
            &&& s.stream.can_topup == can_topup
            &&& s.stream.stream_name == stream_name
            &&& s.stream.withdraw_frequency == withdraw_frequency
            &&& s.stream.pausable == pausable
            &&& s.stream.can_update_rate == can_update_rate
        },
        final(book)@ == after_terminal(old(book)@, ctx.wager, r),
{
    let i = match book.find(ctx.wager) {
        Some(i) => i,
        None => return Err(ErrorCode::WagerNotFound),
    };
    proof {
        lemma_view_at(book.slots@, i as int, ctx.wager);
    }
    let e = book.slots[i].unwrap();
    check_resolution(&e.wager, ctx.user)?;
    let mut record = e.wager;
    record.winner = Some(winner);
    let stream = StreamParams {
        start_time,
        net_amount_deposited,
        period,
        amount_per_period,
        cliff,
        cliff_amount,
        cancelable_by_sender,
        cancelable_by_recipient,
        automatic_withdrawal,
        transferable_by_sender,
        transferable_by_recipient,
        can_topup,
        stream_name,
        withdraw_frequency,
        pausable,
        can_update_rate,
    };
    book.replace(i, ctx.wager, None);
    Ok(
        Settlement {
            record,
            payout: Payout { recipient: winner, amount: e.balance },
            stream,
            route: ctx,
        },
    )
}

/// The initiator takes back the stake of `ctx.wager` once it expired
/// unaccepted: the record is destroyed and its whole custody is paid back.
pub fn refund_wager(book: &mut WagerBook, ctx: RefundWager) -> (r: Result<Payout, ErrorCode>)
    requires
        old(book).wf(),
    ensures
        final(book).wf(),
        r == refund_outcome(old(book)@, ctx),
        final(book)@ == after_terminal(old(book)@, ctx.wager, r),
{
    let i = match book.find(ctx.wager) {
        Some(i) => i,
        None => return Err(ErrorCode::WagerNotFound),
    };
    proof {
        lemma_view_at(book.slots@, i as int, ctx.wager);
    }
    let e = book.slots[i].unwrap();
    check_refund(&e.wager, ctx.user, ctx.now)?;
    book.replace(i, ctx.wager, None);
    Ok(Payout { recipient: e.wager.wager_initiator, amount: e.balance })
}

} // verus!
