use thewager::{
    accept_judging, accept_wager, cancel_wager, create_wager, declare_winner, refund_wager,
    Create, CreateWager, ErrorCode, Payout, Pubkey, RefundWager, UpdateWager, WagerBook,
    WagerKey,
};

const T: i64 = 1_700_000_000;

fn initiator() -> Pubkey {
    Pubkey::new(1, 1, 1, 1)
}

fn judge() -> Pubkey {
    Pubkey::new(2, 2, 2, 2)
}

fn player() -> Pubkey {
    Pubkey::new(3, 3, 3, 3)
}

fn stranger() -> Pubkey {
    Pubkey::new(4, 4, 4, 4)
}

fn key(id: u64) -> WagerKey {
    WagerKey { initiator: initiator(), id }
}

fn create(
    book: &mut WagerBook,
    id: u64,
    opponent: Option<Pubkey>,
    num: u16,
    den: u16,
) -> Result<(), ErrorCode> {
    create_wager(
        book,
        CreateWager { user: initiator(), now: T },
        id,
        opponent,
        judge(),
        100,
        T + 10,
        T + 20,
        num,
        den,
    )
}

fn update(id: u64, user: Pubkey, now: i64) -> UpdateWager {
    UpdateWager { wager: key(id), user, now }
}

fn route(id: u64, user: Pubkey) -> Create {
    let z = Pubkey::new(0, 0, 0, 0);
    Create {
        wager: key(id),
        user,
        sender: user,
        recipient: player(),
        metadata: Pubkey::new(5, 0, 0, 0),
        mint: Pubkey::new(6, 0, 0, 0),
        partner: z,
        streamflow_treasury: z,
        withdrawor: z,
        fee_oracle: z,
        streamflow_program: Pubkey::new(7, 0, 0, 0),
    }
}

fn declare(
    book: &mut WagerBook,
    id: u64,
    user: Pubkey,
    winner: Pubkey,
) -> Result<thewager::Settlement, ErrorCode> {
    declare_winner(
        book,
        route(id, user),
        (T + 30) as u64,
        100,
        60,
        10,
        0,
        0,
        false,
        false,
        true,
        false,
        false,
        false,
        [7u8; 64],
        60,
        Some(false),
        None,
        winner,
    )
}

#[test]
fn accept_before_expiration_sets_opponent() {
    let mut book = WagerBook::new();
    assert_eq!(create(&mut book, 1, None, 2, 1), Ok(()));
    assert_eq!(accept_wager(&mut book, update(1, player(), T + 5)), Ok(()));
    let e = book.get(key(1)).unwrap();
    assert_eq!(e.wager.opponent, Some(player()));
    assert!(e.wager.opponent_accepted);
    assert_eq!(e.balance, 100);
}

#[test]
fn accept_after_expiration_fails() {
    let mut book = WagerBook::new();
    create(&mut book, 1, None, 2, 1).unwrap();
    assert_eq!(
        accept_wager(&mut book, update(1, player(), T + 15)),
        Err(ErrorCode::WagerExpired)
    );
    assert!(!book.get(key(1)).unwrap().wager.opponent_accepted);
}

#[test]
fn accept_at_expiration_succeeds() {
    let mut book = WagerBook::new();
    create(&mut book, 1, None, 2, 1).unwrap();
    assert_eq!(accept_wager(&mut book, update(1, player(), T + 10)), Ok(()));
}

#[test]
fn fixed_opponent_only() {
    let mut book = WagerBook::new();
    create(&mut book, 1, Some(player()), 2, 1).unwrap();
    assert_eq!(
        accept_wager(&mut book, update(1, stranger(), T + 1)),
        Err(ErrorCode::InvalidOpponent)
    );
    assert_eq!(accept_wager(&mut book, update(1, player(), T + 1)), Ok(()));
}

#[test]
fn second_party_cannot_take_over_acceptance() {
    let mut book = WagerBook::new();
    create(&mut book, 1, None, 2, 1).unwrap();
    accept_wager(&mut book, update(1, player(), T + 1)).unwrap();
    assert_eq!(
        accept_wager(&mut book, update(1, stranger(), T + 2)),
        Err(ErrorCode::InvalidOpponent)
    );
    assert_eq!(book.get(key(1)).unwrap().wager.opponent, Some(player()));
}

#[test]
fn declare_winner_after_both_accept_drains_custody() {
    let mut book = WagerBook::new();
    create(&mut book, 1, None, 2, 1).unwrap();
    accept_wager(&mut book, update(1, player(), T + 5)).unwrap();
    accept_judging(&mut book, update(1, judge(), T + 6)).unwrap();
    let s = declare(&mut book, 1, judge(), player()).unwrap();
    assert_eq!(s.payout, Payout { recipient: player(), amount: 100 });
    assert_eq!(s.record.winner, Some(player()));
    assert_eq!(s.stream.net_amount_deposited, 100);
    assert_eq!(s.stream.stream_name, [7u8; 64]);
    assert_eq!(s.route, route(1, judge()));
    assert!(book.get(key(1)).is_none());
    assert_eq!(
        declare(&mut book, 1, judge(), player()).unwrap_err(),
        ErrorCode::WagerNotFound
    );
}

#[test]
fn declare_winner_not_ready() {
    let mut book = WagerBook::new();
    create(&mut book, 1, None, 2, 1).unwrap();
    assert_eq!(
        declare(&mut book, 1, judge(), player()).unwrap_err(),
        ErrorCode::WagerNotReady
    );
    accept_wager(&mut book, update(1, player(), T + 5)).unwrap();
    assert_eq!(
        declare(&mut book, 1, judge(), player()).unwrap_err(),
        ErrorCode::WagerNotReady
    );
    assert!(book.get(key(1)).is_some());
}

#[test]
fn declare_winner_wrong_caller_first() {
    let mut book = WagerBook::new();
    create(&mut book, 1, None, 2, 1).unwrap();
    assert_eq!(
        declare(&mut book, 1, stranger(), player()).unwrap_err(),
        ErrorCode::InvalidCaller
    );
    accept_wager(&mut book, update(1, player(), T + 5)).unwrap();
    accept_judging(&mut book, update(1, judge(), T + 6)).unwrap();
    assert_eq!(
        declare(&mut book, 1, player(), player()).unwrap_err(),
        ErrorCode::InvalidCaller
    );
}

#[test]
fn accept_judging_needs_judge() {
    let mut book = WagerBook::new();
    create(&mut book, 1, None, 2, 1).unwrap();
    assert_eq!(
        accept_judging(&mut book, update(1, stranger(), T)),
        Err(ErrorCode::InvalidCaller)
    );
    assert_eq!(accept_judging(&mut book, update(1, judge(), T)), Ok(()));
    assert!(book.get(key(1)).unwrap().wager.judge_accepted);
}

#[test]
fn odds_too_long_rejected() {
    let mut book = WagerBook::new();
    assert_eq!(create(&mut book, 1, None, 1, 2000), Err(ErrorCode::InvalidOdds));
    assert!(book.get(key(1)).is_none());
}

#[test]
fn odds_bounds() {
    let mut book = WagerBook::new();
    assert_eq!(create(&mut book, 1, None, 1, 100), Ok(()));
    assert_eq!(create(&mut book, 2, None, 100, 1), Ok(()));
    assert_eq!(create(&mut book, 3, None, 1, 101), Err(ErrorCode::InvalidOdds));
    assert_eq!(create(&mut book, 4, None, 101, 1), Err(ErrorCode::InvalidOdds));
    assert_eq!(create(&mut book, 5, None, 0, 1), Err(ErrorCode::InvalidOdds));
    assert_eq!(create(&mut book, 6, None, 1, 0), Err(ErrorCode::InvalidOdds));
    assert_eq!(create(&mut book, 7, None, 1000, 1000), Ok(()));
    assert_eq!(create(&mut book, 8, None, 1001, 1001), Err(ErrorCode::InvalidOdds));
}

#[test]
fn creation_dates() {
    let mut book = WagerBook::new();
    let ctx = CreateWager { user: initiator(), now: T };
    assert_eq!(
        create_wager(&mut book, ctx, 1, None, judge(), 100, T, T + 20, 2, 1),
        Err(ErrorCode::InvalidExpirationDate)
    );
    assert_eq!(
        create_wager(&mut book, ctx, 1, None, judge(), 100, T + 10, T + 10, 2, 1),
        Err(ErrorCode::InvalidEndDate)
    );
    assert!(book.get(key(1)).is_none());
    assert_eq!(
        create_wager(&mut book, ctx, 1, None, judge(), 100, T + 10, T + 11, 2, 1),
        Ok(())
    );
    assert_eq!(
        create_wager(&mut book, ctx, 1, None, judge(), 100, T + 10, T + 11, 2, 1),
        Err(ErrorCode::WagerAlreadyExists)
    );
}

#[test]
fn cancel_before_acceptance_returns_stake() {
    let mut book = WagerBook::new();
    create(&mut book, 1, None, 2, 1).unwrap();
    assert_eq!(
        cancel_wager(&mut book, update(1, stranger(), T + 1)),
        Err(ErrorCode::InvalidCaller)
    );
    assert_eq!(
        cancel_wager(&mut book, update(1, initiator(), T + 1)),
        Ok(Payout { recipient: initiator(), amount: 100 })
    );
    assert!(book.get(key(1)).is_none());
    assert_eq!(
        cancel_wager(&mut book, update(1, initiator(), T + 1)),
        Err(ErrorCode::WagerNotFound)
    );
}

#[test]
fn cancel_after_expiration_allowed() {
    let mut book = WagerBook::new();
    create(&mut book, 1, None, 2, 1).unwrap();
    assert!(cancel_wager(&mut book, update(1, initiator(), T + 500)).is_ok());
}

#[test]
fn accepted_wager_cannot_be_cancelled_or_refunded() {
    let mut book = WagerBook::new();
    create(&mut book, 1, None, 2, 1).unwrap();
    accept_wager(&mut book, update(1, player(), T + 5)).unwrap();
    assert_eq!(
        cancel_wager(&mut book, update(1, initiator(), T + 6)),
        Err(ErrorCode::WagerAlreadyAccepted)
    );
    let r = RefundWager { wager: key(1), user: initiator(), now: T + 100 };
    assert_eq!(refund_wager(&mut book, r), Err(ErrorCode::WagerAlreadyAccepted));
    assert_eq!(book.get(key(1)).unwrap().balance, 100);
}

#[test]
fn refund_at_expiration_not_expired() {
    let mut book = WagerBook::new();
    create(&mut book, 1, None, 2, 1).unwrap();
    let r = RefundWager { wager: key(1), user: initiator(), now: T + 10 };
    assert_eq!(refund_wager(&mut book, r), Err(ErrorCode::WagerNotExpired));
    assert!(book.get(key(1)).is_some());
}

#[test]
fn refund_after_expiration_returns_stake() {
    let mut book = WagerBook::new();
    create(&mut book, 1, None, 2, 1).unwrap();
    let bad = RefundWager { wager: key(1), user: judge(), now: T + 11 };
    assert_eq!(refund_wager(&mut book, bad), Err(ErrorCode::InvalidCaller));
    let r = RefundWager { wager: key(1), user: initiator(), now: T + 11 };
    assert_eq!(
        refund_wager(&mut book, r),
        Ok(Payout { recipient: initiator(), amount: 100 })
    );
    assert!(book.get(key(1)).is_none());
    assert_eq!(refund_wager(&mut book, r), Err(ErrorCode::WagerNotFound));
}

#[test]
fn wagers_are_independent() {
    let mut book = WagerBook::new();
    create(&mut book, 1, None, 2, 1).unwrap();
    create(&mut book, 2, None, 3, 1).unwrap();
    cancel_wager(&mut book, update(1, initiator(), T + 1)).unwrap();
    let e = book.get(key(2)).unwrap();
    assert_eq!(e.wager.odds_numerator, 3);
    assert_eq!(e.balance, 100);
    assert_eq!(accept_wager(&mut book, update(1, player(), T + 1)), Err(ErrorCode::WagerNotFound));
}

#[test]
fn error_messages() {
    assert_eq!(ErrorCode::InvalidCaller.message(), "No access");
    assert_eq!(ErrorCode::WagerNotExpired.message(), "Wager has not expired yet");
    assert_eq!(ErrorCode::InvalidOdds.message(), "Invalid odds");
}
