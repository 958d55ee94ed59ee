use escrow::{
    authorize, derive_vault_address, fee_split, new_escrow, plan_cancel, plan_release, release_gross,
    Config, DealType, EscrowError,
    EscrowProgram, EscrowStatus, FeeSplit, Holding, Ledger, Pubkey,
};

const NS: u64 = 7;
const ID: u64 = 42;

fn key(n: u64) -> Pubkey {
    Pubkey(n, n, n, n)
}

fn initiator() -> Pubkey {
    key(1)
}
fn recipient() -> Pubkey {
    key(2)
}
fn arbiter() -> Pubkey {
    key(3)
}
fn stranger() -> Pubkey {
    key(9)
}
fn fee_wallet() -> Pubkey {
    key(4)
}
fn reserve_wallet() -> Pubkey {
    key(5)
}

fn config() -> Config {
    Config { namespace: NS, fee_wallet: fee_wallet(), reserve_wallet: reserve_wallet() }
}

fn wallet(k: Pubkey) -> Holding {
    Holding::Wallet(k)
}

fn vault() -> Holding {
    derive_vault_address(NS, ID)
}

/// A controller holding one funded escrow of `amount` of `asset`.
fn funded(amount: u64, asset: DealType) -> EscrowProgram {
    let mut p = EscrowProgram::new(config());
    p.fund_wallet(initiator(), asset, 5000).unwrap();
    let e = p.initialize_escrow(initiator(), ID, amount, asset, arbiter(), recipient()).unwrap();
    assert_eq!(e.status, EscrowStatus::Funded);
    assert_eq!(e.released_amount, 0);
    p
}

fn snapshot(p: &EscrowProgram, asset: DealType) -> Vec<u64> {
    [vault(), wallet(initiator()), wallet(recipient()), wallet(fee_wallet()), wallet(reserve_wallet())]
        .iter()
        .map(|h| p.balance_of(*h, asset))
        .collect()
}

#[test]
fn fee_split_of_500() {
    assert_eq!(fee_split(500), FeeSplit { net: 450, fee_a: 25, fee_b: 25 });
}

#[test]
fn fee_split_of_333_leaves_dust() {
    let s = fee_split(333);
    assert_eq!(s, FeeSplit { net: 300, fee_a: 16, fee_b: 16 });
    assert_eq!(333 - (s.net + s.fee_a + s.fee_b), 1);
}

#[test]
fn fee_split_edges() {
    assert_eq!(fee_split(0), FeeSplit { net: 0, fee_a: 0, fee_b: 0 });
    assert_eq!(fee_split(9), FeeSplit { net: 9, fee_a: 0, fee_b: 0 });
    let big = fee_split(u64::MAX);
    assert_eq!(big.net, u64::MAX - 1844674407370955161);
    assert_eq!(big.fee_a, 922337203685477580);
}

#[test]
fn gross_of_percentages() {
    assert_eq!(release_gross(1000, 50), 500);
    assert_eq!(release_gross(333, 33), 109);
    assert_eq!(release_gross(7, 100), 7);
    assert_eq!(release_gross(u64::MAX, 100), u64::MAX);
    assert_eq!(release_gross(u64::MAX, 1), u64::MAX / 100);
}

#[test]
fn authorize_principals_only() {
    let p = funded(1000, DealType::Sol);
    let e = p.escrow(ID).unwrap();
    assert!(authorize(&e, initiator()));
    assert!(authorize(&e, arbiter()));
    assert!(!authorize(&e, recipient()));
    assert!(!authorize(&e, stranger()));
}

#[test]
fn initialize_moves_deposit_into_vault() {
    let p = funded(1000, DealType::Sol);
    assert_eq!(p.balance_of(vault(), DealType::Sol), 1000);
    assert_eq!(p.balance_of(wallet(initiator()), DealType::Sol), 4000);
    assert_eq!(p.get_remaining_amount(ID), Ok(1000));
    let e = p.escrow(ID).unwrap();
    assert_eq!(e.vault, Holding::Vault { namespace: NS, escrow_id: ID });
    assert_eq!(e.amount, 1000);
}

#[test]
fn initialize_duplicate_id_is_refused() {
    let mut p = funded(1000, DealType::Sol);
    let before = snapshot(&p, DealType::Sol);
    let r = p.initialize_escrow(initiator(), ID, 10, DealType::Sol, arbiter(), recipient());
    assert_eq!(r, Err(EscrowError::DuplicateEscrow));
    assert_eq!(snapshot(&p, DealType::Sol), before);
}

#[test]
fn initialize_without_funds_stores_nothing() {
    let mut p = EscrowProgram::new(config());
    p.fund_wallet(initiator(), DealType::Sol, 10).unwrap();
    let r = p.initialize_escrow(initiator(), ID, 11, DealType::Sol, arbiter(), recipient());
    assert_eq!(r, Err(EscrowError::TransferFailure));
    assert_eq!(p.escrow(ID), None);
    assert_eq!(p.get_remaining_amount(ID), Err(EscrowError::EscrowNotFound));
    assert_eq!(p.balance_of(wallet(initiator()), DealType::Sol), 10);
}

#[test]
fn scenario_a_half_release() {
    let mut p = funded(1000, DealType::Sol);
    let s = p.release_funds(ID, 50, initiator()).unwrap();
    assert_eq!(s, FeeSplit { net: 450, fee_a: 25, fee_b: 25 });
    assert_eq!(p.balance_of(wallet(recipient()), DealType::Sol), 450);
    assert_eq!(p.balance_of(wallet(fee_wallet()), DealType::Sol), 25);
    assert_eq!(p.balance_of(wallet(reserve_wallet()), DealType::Sol), 25);
    assert_eq!(p.balance_of(vault(), DealType::Sol), 500);
    let e = p.escrow(ID).unwrap();
    assert_eq!(e.released_amount, 500);
    assert_eq!(e.status, EscrowStatus::Funded);
    assert_eq!(p.get_remaining_amount(ID), Ok(500));
}

#[test]
fn scenario_b_release_the_rest() {
    let mut p = funded(1000, DealType::Sol);
    p.release_funds(ID, 50, initiator()).unwrap();
    let s = p.release_funds(ID, 100, arbiter()).unwrap();
    assert_eq!(s, FeeSplit { net: 450, fee_a: 25, fee_b: 25 });
    let e = p.escrow(ID).unwrap();
    assert_eq!(e.released_amount, 1000);
    assert_eq!(e.status, EscrowStatus::Released);
    assert_eq!(p.get_remaining_amount(ID), Ok(0));
    assert_eq!(p.balance_of(wallet(recipient()), DealType::Sol), 900);
    assert_eq!(p.balance_of(vault(), DealType::Sol), 0);
}

#[test]
fn scenario_c_cancel_before_release() {
    let mut p = funded(1000, DealType::Sol);
    assert_eq!(p.cancel_escrow(ID, initiator()), Ok(1000));
    assert_eq!(p.balance_of(wallet(initiator()), DealType::Sol), 5000);
    assert_eq!(p.balance_of(vault(), DealType::Sol), 0);
    assert_eq!(p.escrow(ID).unwrap().status, EscrowStatus::Cancelled);
}

#[test]
fn scenario_d_cancel_after_partial_release() {
    let mut p = funded(1000, DealType::Sol);
    p.release_funds(ID, 50, initiator()).unwrap();
    assert_eq!(p.cancel_escrow(ID, arbiter()), Ok(500));
    assert_eq!(p.balance_of(wallet(initiator()), DealType::Sol), 4500);
    let e = p.escrow(ID).unwrap();
    assert_eq!(e.status, EscrowStatus::Cancelled);
    assert_eq!(e.released_amount, 500);
}

#[test]
fn scenario_e_release_after_cancel_fails() {
    let mut p = funded(1000, DealType::Sol);
    p.cancel_escrow(ID, initiator()).unwrap();
    let before = snapshot(&p, DealType::Sol);
    assert_eq!(p.release_funds(ID, 50, initiator()), Err(EscrowError::InvalidEscrowStatus));
    assert_eq!(snapshot(&p, DealType::Sol), before);
}

#[test]
fn scenario_e_release_after_release_fails() {
    let mut p = funded(1000, DealType::Sol);
    p.release_funds(ID, 100, arbiter()).unwrap();
    let before = snapshot(&p, DealType::Sol);
    assert_eq!(p.release_funds(ID, 10, arbiter()), Err(EscrowError::InvalidEscrowStatus));
    assert_eq!(snapshot(&p, DealType::Sol), before);
    assert_eq!(p.escrow(ID).unwrap().released_amount, 1000);
}

#[test]
fn terminal_escrow_cannot_be_cancelled() {
    let mut p = funded(1000, DealType::Sol);
    p.cancel_escrow(ID, arbiter()).unwrap();
    assert_eq!(p.cancel_escrow(ID, arbiter()), Err(EscrowError::InvalidEscrowStatus));
    let mut q = funded(1000, DealType::Sol);
    q.release_funds(ID, 100, initiator()).unwrap();
    assert_eq!(q.cancel_escrow(ID, initiator()), Err(EscrowError::InvalidEscrowStatus));
}

#[test]
fn strangers_are_refused() {
    let mut p = funded(1000, DealType::Sol);
    let before = snapshot(&p, DealType::Sol);
    for pct in [0u8, 1, 50, 100, 101, 255] {
        assert_eq!(p.release_funds(ID, pct, stranger()), Err(EscrowError::Unauthorized));
        assert_eq!(p.release_funds(ID, pct, recipient()), Err(EscrowError::Unauthorized));
    }
    assert_eq!(p.cancel_escrow(ID, stranger()), Err(EscrowError::Unauthorized));
    assert_eq!(p.cancel_escrow(ID, recipient()), Err(EscrowError::Unauthorized));
    assert_eq!(snapshot(&p, DealType::Sol), before);
    assert_eq!(p.escrow(ID).unwrap().status, EscrowStatus::Funded);
}

#[test]
fn percentage_out_of_range_is_refused() {
    let mut p = funded(1000, DealType::Sol);
    assert_eq!(p.release_funds(ID, 0, initiator()), Err(EscrowError::InvalidPercentage));
    assert_eq!(p.release_funds(ID, 101, arbiter()), Err(EscrowError::InvalidPercentage));
    assert_eq!(p.get_remaining_amount(ID), Ok(1000));
}

#[test]
fn unknown_escrow_is_reported() {
    let mut p = EscrowProgram::new(config());
    assert_eq!(p.release_funds(1, 50, initiator()), Err(EscrowError::EscrowNotFound));
    assert_eq!(p.cancel_escrow(1, initiator()), Err(EscrowError::EscrowNotFound));
    assert_eq!(p.get_remaining_amount(1), Err(EscrowError::EscrowNotFound));
}

#[test]
fn failed_leg_rolls_back_release() {
    let mut p = funded(1000, DealType::Sol);
    // The reserve wallet is full: the third leg cannot be credited.
    p.fund_wallet(reserve_wallet(), DealType::Sol, u64::MAX).unwrap();
    let before = snapshot(&p, DealType::Sol);
    assert_eq!(p.release_funds(ID, 50, initiator()), Err(EscrowError::TransferFailure));
    assert_eq!(snapshot(&p, DealType::Sol), before);
    assert_eq!(p.escrow(ID).unwrap().released_amount, 0);
}

#[test]
fn failed_refund_keeps_escrow_funded() {
    let mut p = funded(1000, DealType::Sol);
    p.fund_wallet(initiator(), DealType::Sol, u64::MAX - 4000).unwrap();
    assert_eq!(p.cancel_escrow(ID, initiator()), Err(EscrowError::TransferFailure));
    assert_eq!(p.escrow(ID).unwrap().status, EscrowStatus::Funded);
    assert_eq!(p.balance_of(vault(), DealType::Sol), 1000);
}

#[test]
fn fund_wallet_overflow_is_refused() {
    let mut p = EscrowProgram::new(config());
    p.fund_wallet(recipient(), DealType::Sol, u64::MAX).unwrap();
    assert_eq!(p.fund_wallet(recipient(), DealType::Sol, 1), Err(EscrowError::TransferFailure));
    assert_eq!(p.balance_of(wallet(recipient()), DealType::Sol), u64::MAX);
}

#[test]
fn token_escrow_keeps_assets_apart() {
    let forge = DealType::Forge { mint: key(77) };
    let mut p = funded(1000, forge);
    p.fund_wallet(initiator(), DealType::Sol, 300).unwrap();
    let s = p.release_funds(ID, 33, arbiter()).unwrap();
    assert_eq!(s, FeeSplit { net: 297, fee_a: 16, fee_b: 16 });
    assert_eq!(p.balance_of(wallet(recipient()), forge), 297);
    assert_eq!(p.balance_of(wallet(recipient()), DealType::Sol), 0);
    assert_eq!(p.balance_of(vault(), forge), 1000 - 297 - 32);
    assert_eq!(p.balance_of(wallet(initiator()), DealType::Sol), 300);
    assert_eq!(p.get_remaining_amount(ID), Ok(670));
}

#[test]
fn installments_that_exhaust_release_everything() {
    let mut p = funded(1000, DealType::Sol);
    let mut gross_sum: u64 = 0;
    for pct in [10u8, 25, 50, 100] {
        let before = p.get_remaining_amount(ID).unwrap();
        p.release_funds(ID, pct, initiator()).unwrap();
        gross_sum += before - p.get_remaining_amount(ID).unwrap();
    }
    assert_eq!(gross_sum, 1000);
    let e = p.escrow(ID).unwrap();
    assert_eq!(e.released_amount, 1000);
    assert_eq!(e.status, EscrowStatus::Released);
    // Dust of every release stays in the vault.
    assert!(p.balance_of(vault(), DealType::Sol) <= 4);
}

#[test]
fn ledger_transfer_and_snapshot() {
    let mut l = Ledger::new();
    let a = wallet(key(1));
    let b = wallet(key(2));
    l.credit(a, DealType::Sol, 100).unwrap();
    let copy = l.snapshot();
    assert_eq!(l.transfer(a, b, DealType::Sol, 101), Err(EscrowError::TransferFailure));
    l.transfer(a, b, DealType::Sol, 60).unwrap();
    assert_eq!(l.balance(a, DealType::Sol), 40);
    assert_eq!(l.balance(b, DealType::Sol), 60);
    assert_eq!(copy.balance(a, DealType::Sol), 100);
    l.transfer(a, a, DealType::Sol, 40).unwrap();
    assert_eq!(l.balance(a, DealType::Sol), 40);
}

fn record(released: u64, status: EscrowStatus) -> escrow::Escrow {
    let mut e = new_escrow(NS, initiator(), ID, 1000, DealType::Sol, arbiter(), recipient());
    e.released_amount = released;
    e.status = status;
    e
}

#[test]
fn new_escrow_is_funded_and_empty() {
    let e = new_escrow(NS, initiator(), ID, 1000, DealType::Sol, arbiter(), recipient());
    assert_eq!(e.status, EscrowStatus::Funded);
    assert_eq!(e.released_amount, 0);
    assert_eq!(e.amount, 1000);
    assert_eq!(e.vault, Holding::Vault { namespace: NS, escrow_id: ID });
    assert_eq!(e.remaining(), 1000);
}

#[test]
fn plan_release_decides_without_moving() {
    let (u, s) = plan_release(&record(0, EscrowStatus::Funded), 50, initiator()).unwrap();
    assert_eq!(u.released_amount, 500);
    assert_eq!(u.status, EscrowStatus::Funded);
    assert_eq!(s, FeeSplit { net: 450, fee_a: 25, fee_b: 25 });
    let (v, _) = plan_release(&u, 100, arbiter()).unwrap();
    assert_eq!(v.released_amount, 1000);
    assert_eq!(v.status, EscrowStatus::Released);
    assert_eq!(v.remaining(), 0);
}

#[test]
fn plan_release_error_order() {
    assert_eq!(
        plan_release(&record(0, EscrowStatus::Cancelled), 0, stranger()),
        Err(EscrowError::InvalidEscrowStatus)
    );
    assert_eq!(plan_release(&record(0, EscrowStatus::Funded), 0, stranger()), Err(EscrowError::Unauthorized));
    assert_eq!(plan_release(&record(0, EscrowStatus::Funded), 101, arbiter()), Err(EscrowError::InvalidPercentage));
    assert_eq!(
        plan_release(&record(1000, EscrowStatus::Funded), 10, arbiter()),
        Err(EscrowError::NoFundsToRelease)
    );
}

#[test]
fn plan_cancel_refunds_remainder() {
    let (u, refund) = plan_cancel(&record(300, EscrowStatus::Funded), arbiter()).unwrap();
    assert_eq!(refund, 700);
    assert_eq!(u.status, EscrowStatus::Cancelled);
    assert_eq!(u.released_amount, 300);
    assert_eq!(plan_cancel(&record(300, EscrowStatus::Funded), recipient()), Err(EscrowError::Unauthorized));
    assert_eq!(plan_cancel(&record(1000, EscrowStatus::Released), arbiter()), Err(EscrowError::InvalidEscrowStatus));
}
