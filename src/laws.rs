use vstd::prelude::*;
use crate::program::{after_release, lemma_gross_within_remaining, cancel_error, gross_of, release_error, EscrowProgram};
use crate::types::{authorized, remaining_spec, Escrow, EscrowError, EscrowStatus, Pubkey};

verus! {

/// In every well-formed state, and so in every state the operations reach,
/// each escrow has released no more than it holds.
pub proof fn lemma_released_within_amount(p: EscrowProgram, escrow_id: u64)
    requires
        p.wf(),
        p.records().contains_key(escrow_id),
    ensures
        0 <= p.records()[escrow_id].released_amount <= p.records()[escrow_id].amount,
{
}

/// Once an escrow is `Released` or `Cancelled`, every release and every
/// cancellation of it fails with `InvalidEscrowStatus`.
pub proof fn lemma_terminal_is_final(e: Escrow, percentage: u8, caller: Pubkey)
    requires
        e.status == EscrowStatus::Released || e.status == EscrowStatus::Cancelled,
    ensures
        release_error(e, percentage, caller) == Some(EscrowError::InvalidEscrowStatus),
        cancel_error(e, caller) == Some(EscrowError::InvalidEscrowStatus),
{
}

/// On a funded escrow, a caller that is neither the arbiter nor the initiator
/// is refused with `Unauthorized`, whatever the percentage or the remainder.
pub proof fn lemma_only_principals_act(e: Escrow, percentage: u8, caller: Pubkey)
    requires
        e.status == EscrowStatus::Funded,
        !authorized(e, caller),
    ensures
        release_error(e, percentage, caller) == Some(EscrowError::Unauthorized),
        cancel_error(e, caller) == Some(EscrowError::Unauthorized),
{
}

/// On a funded escrow and for an authorized caller, a percentage of 0 or
/// above 100 is refused with `InvalidPercentage`.
pub proof fn lemma_percentage_bounds(e: Escrow, percentage: u8, caller: Pubkey)
    requires
        e.status == EscrowStatus::Funded,
        authorized(e, caller),
        percentage == 0 || percentage > 100,
    ensures
        release_error(e, percentage, caller) == Some(EscrowError::InvalidPercentage),
{
}

/// The record after releases of `percentages`, in turn, starting from `e`.
pub open spec fn after_releases(e: Escrow, percentages: Seq<u8>) -> Escrow
    decreases percentages.len(),
{
    if percentages.len() == 0 {
        e
    } else {
        after_releases(after_release(e, gross_of(e, percentages[0])), percentages.drop_first())
    }
}

/// The sum of the gross amounts of releases of `percentages`, in turn.
pub open spec fn gross_total(e: Escrow, percentages: Seq<u8>) -> int
    decreases percentages.len(),
{
    if percentages.len() == 0 {
        0
    } else {
        let g = gross_of(e, percentages[0]);
        g + gross_total(after_release(e, g), percentages.drop_first())
    }
}

proof fn lemma_after_releases(e: Escrow, percentages: Seq<u8>)
    requires
        e.released_amount <= e.amount,
        forall|i: int| 0 <= i < percentages.len() ==> #[trigger] percentages[i] <= 100,
    ensures
        after_releases(e, percentages).released_amount == e.released_amount + gross_total(
            e,
            percentages,
        ),
        after_releases(e, percentages).released_amount <= e.amount,
        after_releases(e, percentages).amount == e.amount,
        percentages.len() > 0 ==> (after_releases(e, percentages).status == EscrowStatus::Released
            <==> after_releases(e, percentages).released_amount >= e.amount),
    decreases percentages.len(),
{
    if percentages.len() > 0 {
        let g = gross_of(e, percentages[0]);
        lemma_gross_within_remaining(e, percentages[0]);
        let next = after_release(e, g);
        let rest = percentages.drop_first();
        assert forall|i: int| 0 <= i < rest.len() implies #[trigger] rest[i] <= 100 by {
            assert(rest[i] == percentages[i + 1]);
        }
        lemma_after_releases(next, rest);
    }
}

/// Releases whose gross amounts add up to exactly what remained leave the
/// escrow with everything released and `Released`.
pub proof fn lemma_exhausting_releases(e: Escrow, percentages: Seq<u8>)
    requires
        e.released_amount <= e.amount,
        percentages.len() > 0,
        forall|i: int| 0 <= i < percentages.len() ==> #[trigger] percentages[i] <= 100,
        gross_total(e, percentages) == remaining_spec(e),
    ensures
        after_releases(e, percentages).released_amount == e.amount,
        after_releases(e, percentages).status == EscrowStatus::Released,
{
    lemma_after_releases(e, percentages);
}

} // verus!
