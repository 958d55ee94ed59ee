use vstd::prelude::*;

verus! {

/// An opaque, comparable account identity (32 bytes, held as four words).
#[derive(Clone, Copy, Debug, PartialEq, Eq, Structural)]
pub struct Pubkey(pub u64, pub u64, pub u64, pub u64);

/// A place that holds value: an escrow's custody vault, whose address is a
/// pure function of the escrow id and the program's namespace tag, or a
/// wallet owned by a principal.
#[derive(Clone, Copy, Debug, PartialEq, Eq, Structural)]
pub enum Holding {
    Vault { namespace: u64, escrow_id: u64 },
    Wallet(Pubkey),
}

/// The kind of asset an escrow holds: the native coin, or a fungible token
/// identified by its mint.
#[derive(Clone, Copy, Debug, PartialEq, Eq, Structural)]
pub enum DealType {
    Sol,
    Forge { mint: Pubkey },
}

/// Lifecycle of an escrow. `Released` and `Cancelled` are terminal.
#[derive(Clone, Copy, Debug, PartialEq, Eq, Structural)]
pub enum EscrowStatus {
    Initialized,
    Funded,
    Released,
    Cancelled,
}

/// Why an operation was refused. Every refused operation leaves the program
/// exactly as it was.
#[derive(Clone, Copy, Debug, PartialEq, Eq, Structural)]
pub enum EscrowError {
    InvalidEscrowStatus,
    Unauthorized,
    InsufficientFunds,
    InvalidDealType,
    OnlyInitiatorCanDeposit,
    InvalidPercentage,
    NoFundsToRelease,
    InvalidBurnAddress,
    DuplicateEscrow,
    EscrowNotFound,
    TransferFailure,
}

/// One escrow record.
#[derive(Clone, Copy, Debug, PartialEq, Eq, Structural)]
pub struct Escrow {
    pub escrow_id: u64,
    /// The depositor.
    pub initiator: Pubkey,
    /// Who receives released value; has no authority over the escrow.
    pub recipient: Pubkey,
    /// Shares release and cancel authority with the initiator.
    pub arbiter: Pubkey,
    /// Committed at funding time; never changes.
    pub amount: u64,
    /// Gross value released so far, fees included.
    pub released_amount: u64,
    pub deal_type: DealType,
    pub status: EscrowStatus,
    /// The custody vault, derived from the escrow id.
    pub vault: Holding,
}

impl Escrow {
    /// What is still held for the recipient.
    pub fn remaining(&self) -> (r: u64)
        requires
            self.released_amount <= self.amount,
        ensures
            r == remaining_spec(*self),
    {
        self.amount - self.released_amount
    }
}

/// Whether `caller` may release or cancel `e`.
pub open spec fn authorized(e: Escrow, caller: Pubkey) -> bool {
    caller == e.arbiter || caller == e.initiator
}

/// What is still held for the recipient.
pub open spec fn remaining_spec(e: Escrow) -> int {
    e.amount - e.released_amount
}

/// The address of the custody vault of escrow `escrow_id`.
pub open spec fn vault_address_spec(namespace: u64, escrow_id: u64) -> Holding {
    Holding::Vault { namespace, escrow_id }
}

/// Derives the custody vault of escrow `escrow_id` under `namespace`.
pub fn derive_vault_address(namespace: u64, escrow_id: u64) -> (r: Holding)
    ensures
        r == vault_address_spec(namespace, escrow_id),
{
    Holding::Vault { namespace, escrow_id }
}

/// Whether `caller` is the arbiter or the initiator of `e`.
pub fn authorize(e: &Escrow, caller: Pubkey) -> (r: bool)
    ensures
        r == authorized(*e, caller),
{
    caller == e.arbiter || caller == e.initiator
}

} // verus!
