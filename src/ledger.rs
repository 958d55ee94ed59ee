use vstd::prelude::*;
use crate::types::{DealType, EscrowError, Holding};

verus! {

/// A holding of one asset kind.
pub type Account = (Holding, DealType);

/// One line of the balance journal: from here on, `account` holds `amount`.
#[derive(Clone, Copy, Debug, PartialEq, Eq, Structural)]
pub struct Entry {
    pub holder: Holding,
    pub asset: DealType,
    pub amount: u64,
}

/// The balance of `(holder, asset)` after the journal `s`: the last line that
/// names it, or zero when none does.
pub open spec fn balance_in(s: Seq<Entry>, holder: Holding, asset: DealType) -> nat
    decreases s.len(),
{
    if s.len() == 0 {
        0
    } else if s.last().holder == holder && s.last().asset == asset {
        s.last().amount as nat
    } else {
        balance_in(s.drop_last(), holder, asset)
    }
}

/// The balance of `a` in `m`.
pub open spec fn bal(m: Map<Account, nat>, a: Account) -> nat {
    m[a]
}

/// One transfer of `amount` of `asset` from `from` to `to`, on balances `m`:
/// `None` when `from` holds too little or `to` would pass `u64::MAX`.
pub open spec fn transfer_spec(
    m: Map<Account, nat>,
    from: Holding,
    to: Holding,
    asset: DealType,
    amount: u64,
) -> Option<Map<Account, nat>> {
    let src = (from, asset);
    let dst = (to, asset);
    if bal(m, src) < amount {
        None
    } else {
        let m1 = m.insert(src, (bal(m, src) - amount) as nat);
        if bal(m1, dst) + amount > u64::MAX {
            None
        } else {
            Some(m1.insert(dst, (bal(m1, dst) + amount) as nat))
        }
    }
}

/// Balances of every holding, each asset kind apart. A holding never named
/// holds zero.
pub struct Ledger {
    journal: Vec<Entry>,
}

impl View for Ledger {
    type V = Map<Account, nat>;

    closed spec fn view(&self) -> Map<Account, nat> {
        Map::new(|a: Account| true, |a: Account| balance_in(self.journal@, a.0, a.1))
    }
}

impl Ledger {
    /// Every balance is a `u64` and every account is in the domain.
    pub open spec fn total(&self) -> bool {
        forall|a: Account| #[trigger] self@.contains_key(a) && self@[a] <= u64::MAX
    }

    /// Every account has a balance, and it fits in a `u64`.
    pub proof fn lemma_total(&self)
        ensures
            self.total(),
    {
        assert forall|a: Account| #[trigger] self@.contains_key(a) && self@[a] <= u64::MAX by {
            lemma_balance_bounded(self.journal@, a.0, a.1);
        }
    }

    /// An empty ledger: every balance is zero.
    pub fn new() -> (r: Ledger)
        ensures
            r.total(),
            forall|a: Account| #[trigger] r@[a] == 0,
    {
        let r = Ledger { journal: Vec::new() };
        proof { r.lemma_total(); }
        r
    }

    /// The balance of `asset` held by `holder`.
    pub fn balance(&self, holder: Holding, asset: DealType) -> (r: u64)
        ensures
            r == self@[(holder, asset)],
    {
        let mut found: u64 = 0;
        let mut i: usize = 0;
        while i < self.journal.len()
            invariant
                i <= self.journal@.len(),
                found == balance_in(self.journal@.subrange(0, i as int), holder, asset),
            decreases self.journal@.len() - i,
        {
            let e = self.journal[i];
            proof {
                let s = self.journal@.subrange(0, i as int + 1);
                assert(s.drop_last() =~= self.journal@.subrange(0, i as int));
            }
            if e.holder == holder && e.asset == asset {
                found = e.amount;
            }
            i = i + 1;
        }
        assert(self.journal@.subrange(0, i as int) =~= self.journal@);
        found
    }

    /// Sets the balance of `(holder, asset)` to `amount`.
    fn set(&mut self, holder: Holding, asset: DealType, amount: u64)
        ensures
            final(self)@ == old(self)@.insert((holder, asset), amount as nat),
    {
        let ghost before = self.journal@;
        self.journal.push(Entry { holder, asset, amount });
        proof {
            assert(self.journal@.drop_last() =~= before);
        }
        assert(self@ =~= old(self)@.insert((holder, asset), amount as nat));
    }

    /// A copy with the same balances.
    pub fn snapshot(&self) -> (r: Ledger)
        ensures
            r@ == self@,
    {
        let mut journal: Vec<Entry> = Vec::new();
        let mut i: usize = 0;
        while i < self.journal.len()
            invariant
                i <= self.journal@.len(),
                journal@ == self.journal@.subrange(0, i as int),
            decreases self.journal@.len() - i,
        {
            journal.push(self.journal[i]);
            i = i + 1;
            assert(journal@ =~= self.journal@.subrange(0, i as int));
        }
        assert(journal@ =~= self.journal@);
        let r = Ledger { journal };
        assert(r@ =~= self@);
        r
    }

    /// Adds `amount` of `asset` to `holder`; fails, changing nothing, where
    /// the balance would pass `u64::MAX`.
    pub fn credit(&mut self, holder: Holding, asset: DealType, amount: u64) -> (r: Result<(), EscrowError>)
        ensures
            old(self)@[(holder, asset)] + amount <= u64::MAX ==> r is Ok && final(self)@
                == old(self)@.insert((holder, asset), (old(self)@[(holder, asset)] + amount) as nat),
            old(self)@[(holder, asset)] + amount > u64::MAX ==> r == Err::<(), EscrowError>(
                EscrowError::TransferFailure,
            ) && final(self)@ == old(self)@,
    {
        let cur = self.balance(holder, asset);
        if cur > u64::MAX - amount {
            return Err(EscrowError::TransferFailure);
        }
        self.set(holder, asset, cur + amount);
        Ok(())
    }

    /// Moves `amount` of `asset` from `from` to `to`, as one step: on failure
    /// nothing changes.
    pub fn transfer(&mut self, from: Holding, to: Holding, asset: DealType, amount: u64) -> (r: Result<(), EscrowError>)
        ensures
            match transfer_spec(old(self)@, from, to, asset, amount) {
                Some(m) => r is Ok && final(self)@ == m,
                None => r == Err::<(), EscrowError>(EscrowError::TransferFailure) && final(self)@
                    == old(self)@,
            },
    {
        proof { self.lemma_total(); }
        let src = self.balance(from, asset);
        if src < amount {
            return Err(EscrowError::TransferFailure);
        }
        let dst = if from == to { src - amount } else { self.balance(to, asset) };
        if dst > u64::MAX - amount {
            return Err(EscrowError::TransferFailure);
        }
        self.set(from, asset, src - amount);
        self.set(to, asset, dst + amount);
        Ok(())
    }
}

/// A transfer between two different holdings takes `amount` from one, adds
/// it to the other and leaves every other account as it was.
pub proof fn lemma_transfer_frame(
    m: Map<Account, nat>,
    from: Holding,
    to: Holding,
    asset: DealType,
    amount: u64,
)
    requires
        forall|a: Account| #[trigger] m.contains_key(a),
        transfer_spec(m, from, to, asset, amount) is Some,
        from != to,
    ensures
        ({
            let m2 = transfer_spec(m, from, to, asset, amount)->Some_0;
            &&& forall|a: Account| #[trigger] m2.contains_key(a)
            &&& m2[(from, asset)] == m[(from, asset)] - amount
            &&& m2[(to, asset)] == m[(to, asset)] + amount
            &&& forall|a: Account| a != (from, asset) && a != (to, asset) ==> #[trigger] m2[a] == m[a]
        }),
{
}

proof fn lemma_balance_bounded(s: Seq<Entry>, holder: Holding, asset: DealType)
    ensures
        balance_in(s, holder, asset) <= u64::MAX,
    decreases s.len(),
{
    if s.len() > 0 {
        lemma_balance_bounded(s.drop_last(), holder, asset);
    }
}

} // verus!
