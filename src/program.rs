use std::collections::HashMap;
use vstd::prelude::*;
use crate::fee::{fee_split, fee_split_spec, lemma_fee_split_bounds, release_gross, release_gross_spec, FeeSplit};
use crate::ledger::{lemma_transfer_frame, transfer_spec, Account, Ledger};
use crate::types::{
    authorize, authorized, derive_vault_address, remaining_spec, vault_address_spec, DealType,
    Escrow, EscrowError, EscrowStatus, Holding, Pubkey,
};

verus! {

broadcast use vstd::std_specs::hash::group_hash_axioms;

/// The record `initialize_escrow` stores: `Funded`, nothing released, its
/// vault derived from the id.
pub open spec fn new_escrow_spec(
    namespace: u64,
    initiator: Pubkey,
    escrow_id: u64,
    amount: u64,
    deal_type: DealType,
    arbiter: Pubkey,
    recipient: Pubkey,
) -> Escrow {
    Escrow {
        escrow_id,
        initiator,
        recipient,
        arbiter,
        amount,
        released_amount: 0,
        deal_type,
        status: EscrowStatus::Funded,
        vault: vault_address_spec(namespace, escrow_id),
    }
}

/// Builds the record of a newly funded escrow. The record passes through
/// `Initialized` only inside this call.
pub fn new_escrow(
    namespace: u64,
    initiator: Pubkey,
    escrow_id: u64,
    amount: u64,
    deal_type: DealType,
    arbiter: Pubkey,
    recipient: Pubkey,
) -> (r: Escrow)
    ensures
        r == new_escrow_spec(namespace, initiator, escrow_id, amount, deal_type, arbiter, recipient),
{
    let e = Escrow {
        escrow_id,
        initiator,
        recipient,
        arbiter,
        amount,
        released_amount: 0,
        deal_type,
        status: EscrowStatus::Initialized,
        vault: derive_vault_address(namespace, escrow_id),
    };
    Escrow { status: EscrowStatus::Funded, ..e }
}

/// Decides a release of `percentage` percent of what remains of `e`, asked
/// by `signer`: the record after it and the split of its gross amount, or
/// the error. Moves nothing.
pub fn plan_release(e: &Escrow, percentage: u8, signer: Pubkey) -> (r: Result<(Escrow, FeeSplit), EscrowError>)
    requires
        e.released_amount <= e.amount,
    ensures
        match release_error(*e, percentage, signer) {
            Some(err) => r == Err::<(Escrow, FeeSplit), EscrowError>(err),
            None => r == Ok::<(Escrow, FeeSplit), EscrowError>(
                (after_release(*e, gross_of(*e, percentage)), fee_split_spec(gross_of(*e, percentage))),
            ),
        },
{
    if e.status != EscrowStatus::Funded {
        return Err(EscrowError::InvalidEscrowStatus);
    }
    if !authorize(e, signer) {
        return Err(EscrowError::Unauthorized);
    }
    if percentage < 1 || percentage > 100 {
        return Err(EscrowError::InvalidPercentage);
    }
    let remaining = e.remaining();
    if remaining == 0 {
        return Err(EscrowError::NoFundsToRelease);
    }
    let gross = release_gross(remaining, percentage);
    let released = e.released_amount + gross;
    let status = if released >= e.amount {
        EscrowStatus::Released
    } else {
        EscrowStatus::Funded
    };
    Ok((Escrow { released_amount: released, status, ..*e }, fee_split(gross)))
}

/// Decides a cancellation of `e` asked by `signer`: the record after it and
/// the amount to refund to the initiator, or the error. Moves nothing.
pub fn plan_cancel(e: &Escrow, signer: Pubkey) -> (r: Result<(Escrow, u64), EscrowError>)
    requires
        e.released_amount <= e.amount,
    ensures
        match cancel_error(*e, signer) {
            Some(err) => r == Err::<(Escrow, u64), EscrowError>(err),
            None => r == Ok::<(Escrow, u64), EscrowError>(
                (Escrow { status: EscrowStatus::Cancelled, ..*e }, remaining_spec(*e) as u64),
            ),
        },
{
    if e.status != EscrowStatus::Funded {
        return Err(EscrowError::InvalidEscrowStatus);
    }
    if !authorize(e, signer) {
        return Err(EscrowError::Unauthorized);
    }
    Ok((Escrow { status: EscrowStatus::Cancelled, ..*e }, e.remaining()))
}

/// Fixed settings of one controller.
#[derive(Clone, Copy, Debug, PartialEq, Eq, Structural)]
pub struct Config {
    /// Tag that every vault address is derived under.
    pub namespace: u64,
    /// Receives the first fee leg of every release.
    pub fee_wallet: Pubkey,
    /// Holds the second fee leg of every release.
    pub reserve_wallet: Pubkey,
}

/// Whether `e`, stored under `id`, is a consistent record backed by its vault.
pub open spec fn record_ok(cfg: Config, balances: Map<Account, nat>, id: u64, e: Escrow) -> bool {
    &&& e.escrow_id == id
    &&& e.vault == vault_address_spec(cfg.namespace, id)
    &&& e.released_amount <= e.amount
    &&& e.status != EscrowStatus::Initialized
    &&& e.status == EscrowStatus::Released ==> e.released_amount == e.amount
    &&& e.status == EscrowStatus::Funded ==> e.released_amount < e.amount
    &&& e.status == EscrowStatus::Funded ==> balances[(e.vault, e.deal_type)] >= remaining_spec(e)
}

/// The error `release_funds` gives on `e`, checked in this order, or `None`.
pub open spec fn release_error(e: Escrow, percentage: u8, caller: Pubkey) -> Option<EscrowError> {
    if e.status != EscrowStatus::Funded {
        Some(EscrowError::InvalidEscrowStatus)
    } else if !authorized(e, caller) {
        Some(EscrowError::Unauthorized)
    } else if percentage < 1 || percentage > 100 {
        Some(EscrowError::InvalidPercentage)
    } else if remaining_spec(e) <= 0 {
        Some(EscrowError::NoFundsToRelease)
    } else {
        None
    }
}

/// The error `cancel_escrow` gives on `e`, or `None`.
pub open spec fn cancel_error(e: Escrow, caller: Pubkey) -> Option<EscrowError> {
    if e.status != EscrowStatus::Funded {
        Some(EscrowError::InvalidEscrowStatus)
    } else if !authorized(e, caller) {
        Some(EscrowError::Unauthorized)
    } else {
        None
    }
}

/// The gross amount a release of `percentage` takes out of `e`.
pub open spec fn gross_of(e: Escrow, percentage: u8) -> int {
    release_gross_spec(remaining_spec(e), percentage as int)
}

/// A release never takes more than what remains.
pub proof fn lemma_gross_within_remaining(e: Escrow, percentage: u8)
    requires
        e.released_amount <= e.amount,
        percentage <= 100,
    ensures
        0 <= gross_of(e, percentage) <= remaining_spec(e),
{
    let r = remaining_spec(e);
    assert(r * percentage as int <= r * 100) by (nonlinear_arith)
        requires r >= 0, percentage <= 100;
    assert(0 <= r * percentage as int) by (nonlinear_arith)
        requires r >= 0, percentage >= 0;
    assert(release_gross_spec(r, percentage as int) <= r);
}

/// `e` after a release of `gross`: the whole gross counts as released, and
/// the escrow is `Released` once nothing remains.
pub open spec fn after_release(e: Escrow, gross: int) -> Escrow {
    let released = e.released_amount + gross;
    Escrow {
        released_amount: released as u64,
        status: if released >= e.amount { EscrowStatus::Released } else { EscrowStatus::Funded },
        ..e
    }
}

/// The three legs of a release, out of the vault, applied in turn.
pub open spec fn release_legs(
    cfg: Config,
    m: Map<Account, nat>,
    e: Escrow,
    split: FeeSplit,
) -> Option<Map<Account, nat>> {
    match transfer_spec(m, e.vault, Holding::Wallet(e.recipient), e.deal_type, split.net) {
        None => None,
        Some(m1) => match transfer_spec(
            m1,
            e.vault,
            Holding::Wallet(cfg.fee_wallet),
            e.deal_type,
            split.fee_a,
        ) {
            None => None,
            Some(m2) => transfer_spec(
                m2,
                e.vault,
                Holding::Wallet(cfg.reserve_wallet),
                e.deal_type,
                split.fee_b,
            ),
        },
    }
}

/// The refund of a cancellation: what remains goes back to the initiator;
/// with nothing left no transfer is made.
pub open spec fn refund_legs(m: Map<Account, nat>, e: Escrow) -> Option<Map<Account, nat>> {
    if remaining_spec(e) > 0 {
        transfer_spec(
            m,
            e.vault,
            Holding::Wallet(e.initiator),
            e.deal_type,
            remaining_spec(e) as u64,
        )
    } else {
        Some(m)
    }
}

/// The escrow lifecycle controller: the records, keyed by escrow id, and the
/// balances of every vault and wallet.
pub struct EscrowProgram {
    config: Config,
    escrows: HashMap<u64, Escrow>,
    ledger: Ledger,
}

impl EscrowProgram {
    pub closed spec fn config_spec(&self) -> Config {
        self.config
    }

    pub closed spec fn records(&self) -> Map<u64, Escrow> {
        self.escrows@
    }

    pub closed spec fn balances(&self) -> Map<Account, nat> {
        self.ledger@
    }

    /// `self` holds the same records and balances as `other`.
    pub open spec fn unchanged_from(&self, other: &EscrowProgram) -> bool {
        self.records() == other.records() && self.balances() == other.balances()
    }

    /// Every record is consistent and its vault holds at least what remains.
    pub open spec fn wf(&self) -> bool {
        &&& forall|a: Account| #[trigger] self.balances().contains_key(a)
        &&& forall|id: u64| #[trigger]
            self.records().contains_key(id) ==> record_ok(
                self.config_spec(),
                self.balances(),
                id,
                self.records()[id],
            )
    }

    /// A controller with no escrows and all balances zero.
    pub fn new(config: Config) -> (r: EscrowProgram)
        ensures
            r.wf(),
            r.config_spec() == config,
            r.records() == Map::<u64, Escrow>::empty(),
            forall|a: Account| #[trigger] r.balances()[a] == 0,
    {
        let r = EscrowProgram { config, escrows: HashMap::new(), ledger: Ledger::new() };
        proof { r.ledger.lemma_total(); }
        assert(r.records() =~= Map::<u64, Escrow>::empty());
        r
    }

    pub fn config(&self) -> (r: Config)
        ensures
            r == self.config_spec(),
    {
        self.config
    }

    /// The record of escrow `escrow_id`, if there is one.
    pub fn escrow(&self, escrow_id: u64) -> (r: Option<Escrow>)
        ensures
            r == (if self.records().contains_key(escrow_id) {
                Some(self.records()[escrow_id])
            } else {
                None
            }),
    {
        match self.escrows.get(&escrow_id) {
            Some(e) => Some(*e),
            None => None,
        }
    }

    /// The balance of `asset` held by `holder`.
    pub fn balance_of(&self, holder: Holding, asset: DealType) -> (r: u64)
        ensures
            r == self.balances()[(holder, asset)],
    {
        self.ledger.balance(holder, asset)
    }

    /// Creates escrow `escrow_id` and, in the same step, moves `amount` from
    /// the initiator's wallet into its vault. The record is stored `Funded`
    /// with nothing released; if the deposit fails nothing is stored.
    pub fn initialize_escrow(
        &mut self,
        initiator: Pubkey,
        escrow_id: u64,
        amount: u64,
        deal_type: DealType,
        arbiter: Pubkey,
        recipient: Pubkey,
    ) -> (r: Result<Escrow, EscrowError>)
        requires
            old(self).wf(),
            amount > 0,
        ensures
            final(self).wf(),
            final(self).config_spec() == old(self).config_spec(),
            old(self).records().contains_key(escrow_id) ==> r == Err::<Escrow, EscrowError>(
                EscrowError::DuplicateEscrow,
            ) && final(self).unchanged_from(old(self)),
            !old(self).records().contains_key(escrow_id) ==> ({
                let e = new_escrow_spec(
                    old(self).config_spec().namespace,
                    initiator,
                    escrow_id,
                    amount,
                    deal_type,
                    arbiter,
                    recipient,
                );
                let vault = e.vault;
                match transfer_spec(
                    old(self).balances(),
                    Holding::Wallet(initiator),
                    vault,
                    deal_type,
                    amount,
                ) {
                    None => r == Err::<Escrow, EscrowError>(EscrowError::TransferFailure)
                        && final(self).unchanged_from(old(self)),
                    Some(m) => r == Ok::<Escrow, EscrowError>(e) && final(self).records()
                        == old(self).records().insert(escrow_id, e) && final(self).balances() == m,
                }
            }),
    {
        if self.escrows.contains_key(&escrow_id) {
            return Err(EscrowError::DuplicateEscrow);
        }
        let e = new_escrow(self.config.namespace, initiator, escrow_id, amount, deal_type, arbiter, recipient);
        let vault = e.vault;
        let mut staged = self.ledger.snapshot();
        match staged.transfer(Holding::Wallet(initiator), vault, deal_type, amount) {
            Err(err) => return Err(err),
            Ok(()) => {},
        }
        let ghost before = self.balances();
        proof {
            lemma_transfer_frame(before, Holding::Wallet(initiator), vault, deal_type, amount);
        }
        self.escrows.insert(escrow_id, e);
        self.ledger = staged;
        proof {
            assert forall|id: u64| #[trigger] self.records().contains_key(id) implies record_ok(
                self.config_spec(),
                self.balances(),
                id,
                self.records()[id],
            ) by {
                if id != escrow_id {
                    let o = old(self).records()[id];
                    assert(record_ok(old(self).config_spec(), before, id, o));
                    assert(o.vault != vault);
                }
            }
        }
        Ok(e)
    }

    /// Releases `percentage` percent of what remains of escrow `escrow_id`:
    /// the gross is split by the fee calculator, the three legs leave the
    /// vault as one step, the whole gross counts as released, and the escrow
    /// becomes `Released` once nothing remains. Returns the split.
    pub fn release_funds(&mut self, escrow_id: u64, percentage: u8, signer: Pubkey) -> (r: Result<
        FeeSplit,
        EscrowError,
    >)
        requires
            old(self).wf(),
        ensures
            final(self).wf(),
            final(self).config_spec() == old(self).config_spec(),
            !old(self).records().contains_key(escrow_id) ==> r == Err::<FeeSplit, EscrowError>(
                EscrowError::EscrowNotFound,
            ) && final(self).unchanged_from(old(self)),
            old(self).records().contains_key(escrow_id) ==> ({
                let e = old(self).records()[escrow_id];
                match release_error(e, percentage, signer) {
                    Some(err) => r == Err::<FeeSplit, EscrowError>(err) && final(self).unchanged_from(
                        old(self),
                    ),
                    None => {
                        let gross = gross_of(e, percentage);
                        let split = fee_split_spec(gross);
                        match release_legs(old(self).config_spec(), old(self).balances(), e, split) {
                            None => r == Err::<FeeSplit, EscrowError>(EscrowError::TransferFailure)
                                && final(self).unchanged_from(old(self)),
                            Some(m) => r == Ok::<FeeSplit, EscrowError>(split) && final(self).records()
                                == old(self).records().insert(escrow_id, after_release(e, gross))
                                && final(self).balances() == m,
                        }
                    },
                }
            }),
    {
        let e = match self.escrows.get(&escrow_id) {
            Some(e) => *e,
            None => return Err(EscrowError::EscrowNotFound),
        };
        proof {
            assert(record_ok(self.config_spec(), self.balances(), escrow_id, e));
        }
        let (updated, split) = match plan_release(&e, percentage, signer) {
            Err(err) => return Err(err),
            Ok(plan) => plan,
        };
        let ghost m0 = self.balances();
        let mut staged = self.ledger.snapshot();
        match staged.transfer(e.vault, Holding::Wallet(e.recipient), e.deal_type, split.net) {
            Err(err) => return Err(err),
            Ok(()) => {},
        }
        let ghost m1 = staged@;
        match staged.transfer(e.vault, Holding::Wallet(self.config.fee_wallet), e.deal_type, split.fee_a) {
            Err(err) => return Err(err),
            Ok(()) => {},
        }
        let ghost m2 = staged@;
        match staged.transfer(e.vault, Holding::Wallet(self.config.reserve_wallet), e.deal_type, split.fee_b) {
            Err(err) => return Err(err),
            Ok(()) => {},
        }
        proof {
            lemma_gross_within_remaining(e, percentage);
            lemma_fee_split_bounds(gross_of(e, percentage));
            lemma_transfer_frame(m0, e.vault, Holding::Wallet(e.recipient), e.deal_type, split.net);
            lemma_transfer_frame(m1, e.vault, Holding::Wallet(self.config.fee_wallet), e.deal_type, split.fee_a);
            lemma_transfer_frame(m2, e.vault, Holding::Wallet(self.config.reserve_wallet), e.deal_type, split.fee_b);
        }
        self.escrows.insert(escrow_id, updated);
        self.ledger = staged;
        proof {
            assert forall|id: u64| #[trigger] self.records().contains_key(id) implies record_ok(
                self.config_spec(),
                self.balances(),
                id,
                self.records()[id],
            ) by {
                if id != escrow_id {
                    let o = old(self).records()[id];
                    assert(record_ok(old(self).config_spec(), m0, id, o));
                    assert(o.vault != e.vault);
                }
            }
        }
        Ok(split)
    }

    /// Cancels escrow `escrow_id`: what remains goes back to the initiator
    /// and the escrow becomes `Cancelled`, as one step. Returns the refund.
    pub fn cancel_escrow(&mut self, escrow_id: u64, signer: Pubkey) -> (r: Result<u64, EscrowError>)
        requires
            old(self).wf(),
        ensures
            final(self).wf(),
            final(self).config_spec() == old(self).config_spec(),
            !old(self).records().contains_key(escrow_id) ==> r == Err::<u64, EscrowError>(
                EscrowError::EscrowNotFound,
            ) && final(self).unchanged_from(old(self)),
            old(self).records().contains_key(escrow_id) ==> ({
                let e = old(self).records()[escrow_id];
                match cancel_error(e, signer) {
                    Some(err) => r == Err::<u64, EscrowError>(err) && final(self).unchanged_from(
                        old(self),
                    ),
                    None => match refund_legs(old(self).balances(), e) {
                        None => r == Err::<u64, EscrowError>(EscrowError::TransferFailure)
                            && final(self).unchanged_from(old(self)),
                        Some(m) => r == Ok::<u64, EscrowError>(remaining_spec(e) as u64)
                            && final(self).records() == old(self).records().insert(
                            escrow_id,
                            Escrow { status: EscrowStatus::Cancelled, ..e },
                        ) && final(self).balances() == m,
                    },
                }
            }),
    {
        let e = match self.escrows.get(&escrow_id) {
            Some(e) => *e,
            None => return Err(EscrowError::EscrowNotFound),
        };
        proof {
            assert(record_ok(self.config_spec(), self.balances(), escrow_id, e));
        }
        let (updated, remaining) = match plan_cancel(&e, signer) {
            Err(err) => return Err(err),
            Ok(plan) => plan,
        };
        let ghost m0 = self.balances();
        let mut staged = self.ledger.snapshot();
        if remaining > 0 {
            match staged.transfer(e.vault, Holding::Wallet(e.initiator), e.deal_type, remaining) {
                Err(err) => return Err(err),
                Ok(()) => {},
            }
            proof {
                lemma_transfer_frame(m0, e.vault, Holding::Wallet(e.initiator), e.deal_type, remaining);
            }
        }
        self.escrows.insert(escrow_id, updated);
        self.ledger = staged;
        proof {
            assert forall|id: u64| #[trigger] self.records().contains_key(id) implies record_ok(
                self.config_spec(),
                self.balances(),
                id,
                self.records()[id],
            ) by {
                if id != escrow_id {
                    let o = old(self).records()[id];
                    assert(record_ok(old(self).config_spec(), m0, id, o));
                    assert(o.vault != e.vault);
                }
            }
        }
        Ok(remaining)
    }

    /// What remains to be released from escrow `escrow_id`.
    pub fn get_remaining_amount(&self, escrow_id: u64) -> (r: Result<u64, EscrowError>)
        requires
            self.wf(),
        ensures
            self.records().contains_key(escrow_id) ==> r == Ok::<u64, EscrowError>(
                remaining_spec(self.records()[escrow_id]) as u64,
            ),
            !self.records().contains_key(escrow_id) ==> r == Err::<u64, EscrowError>(
                EscrowError::EscrowNotFound,
            ),
    {
        let e = match self.escrows.get(&escrow_id) {
            Some(e) => *e,
            None => return Err(EscrowError::EscrowNotFound),
        };
        proof {
            assert(self.records().contains_key(escrow_id));
            assert(e == self.records()[escrow_id]);
            assert(record_ok(self.config_spec(), self.balances(), escrow_id, e));
        }
        Ok(e.remaining())
    }

    /// Adds `amount` of `asset` to the wallet of `owner`, from outside the
    /// program; fails, changing nothing, where the balance would pass
    /// `u64::MAX`.
    pub fn fund_wallet(&mut self, owner: Pubkey, asset: DealType, amount: u64) -> (r: Result<(), EscrowError>)
        requires
            old(self).wf(),
        ensures
            final(self).wf(),
            final(self).config_spec() == old(self).config_spec(),
            final(self).records() == old(self).records(),
            ({
                let a = (Holding::Wallet(owner), asset);
                let b = old(self).balances()[a];
                if b + amount <= u64::MAX {
                    r is Ok && final(self).balances() == old(self).balances().insert(a, (b + amount) as nat)
                } else {
                    r == Err::<(), EscrowError>(EscrowError::TransferFailure) && final(self).balances()
                        == old(self).balances()
                }
            }),
    {
        let ghost m0 = self.balances();
        let r = self.ledger.credit(Holding::Wallet(owner), asset, amount);
        proof {
            assert(self.records() == old(self).records());
            assert forall|id: u64| #[trigger] self.records().contains_key(id) implies record_ok(
                self.config_spec(),
                self.balances(),
                id,
                self.records()[id],
            ) by {
                let o = self.records()[id];
                assert(old(self).records().contains_key(id));
                assert(record_ok(old(self).config_spec(), m0, id, o));
                assert(o.vault != Holding::Wallet(owner));
            }
        }
        r
    }
}

} // verus!
