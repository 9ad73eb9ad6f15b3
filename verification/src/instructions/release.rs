//! Validation of completion and authority, followed by release of the pooled
//! funds to the receiver and the reset that opens a new contribution cycle.

use crate::errors::SplitError;
use crate::states::Pubkey;
use crate::states::Split;
use crate::states::has_duplicate;
use crate::states::has_zero_percent;
use crate::states::lemma_cleared_total_all_unset;
use crate::states::lemma_total_percent_pointwise;
use vstd::prelude::*;

verus! {

/// The event a successful release emits for off-chain observers.
#[derive(Clone, Copy, Debug, PartialEq, Eq, Structural)]
pub struct ReleasePaymentEvent {
    pub receiver: Pubkey,
    pub amount: u64,
    pub released_at: i64,
}

/// The error `release` reports for the given record, caller, receiver
/// account and pool balance, in the canonical validation order; `None` when
/// the release goes through. The pool must cover the released amount plus
/// the reserve that keeps the record's storage alive.
pub open spec fn release_error(
    s: Split,
    caller: Pubkey,
    receiver_account: Pubkey,
    pool_balance: u64,
    rent_exempt_minimum: u64,
) -> Option<SplitError> {
    if caller != s.authority {
        Some(SplitError::Unauthorized)
    } else if receiver_account != s.receiver {
        Some(SplitError::InvalidReceiver)
    } else if s.received_amount < s.target_amount {
        Some(SplitError::TargetNotReached)
    } else if s.is_released {
        Some(SplitError::AlreadyCleared)
    } else if pool_balance < s.target_amount + rent_exempt_minimum {
        Some(SplitError::InsufficientFunds)
    } else {
        None
    }
}

/// How a successful release changes the record and what the returned event
/// reports: exactly the target amount leaves the pool for the receiver, and
/// the record is reset for a new cycle — nothing received, no contributor
/// marked cleared. The settlement timestamps stay for auditability.
pub open spec fn release_post(pre: Split, post: Split, now: i64, ev: ReleasePaymentEvent) -> bool {
    &&& post.authority == pre.authority
    &&& post.receiver == pre.receiver
    &&& post.name@ == pre.name@
    &&& post.target_amount == pre.target_amount
    &&& post.received_amount == 0
    &&& !post.is_released
    &&& post.released_at == now
    &&& post.created_at == pre.created_at
    &&& post.contributors@.len() == pre.contributors@.len()
    &&& forall|i: int|
        0 <= i < pre.contributors@.len() ==> {
            &&& (#[trigger] post.contributors@[i]).contributor == pre.contributors@[i].contributor
            &&& post.contributors@[i].percent == pre.contributors@[i].percent
            &&& !post.contributors@[i].has_cleared
            &&& post.contributors@[i].cleared_at == pre.contributors@[i].cleared_at
        }
    &&& ev == (ReleasePaymentEvent { receiver: pre.receiver, amount: pre.target_amount, released_at: now })
}

/// Releases the pooled funds: the caller has verified the calling identity,
/// names the account to pay, and reports the pooled record's balance and the
/// minimum reserve its storage requires.
///
/// On success the environment must move exactly the returned event's
/// `amount` from the pooled record to the receiver, atomically with
/// committing the reset record; the checked pool balance keeps the record's
/// storage reserve intact after the movement.
pub fn release(
    split: &mut Split,
    caller: Pubkey,
    receiver_account: Pubkey,
    pool_balance: u64,
    rent_exempt_minimum: u64,
    now: i64,
) -> (r: Result<ReleasePaymentEvent, SplitError>)
    requires
        old(split).wf(),
    ensures
        final(split).wf(),
        match release_error(*old(split), caller, receiver_account, pool_balance, rent_exempt_minimum) {
            Some(e) => r == Err::<ReleasePaymentEvent, SplitError>(e) && *final(split) == *old(split),
            None => r is Ok && release_post(*old(split), *final(split), now, r->Ok_0),
        },
{
    if !(caller == split.authority) {
        return Err(SplitError::Unauthorized);
    }
    if !(receiver_account == split.receiver) {
        return Err(SplitError::InvalidReceiver);
    }
    if split.received_amount < split.target_amount {
        return Err(SplitError::TargetNotReached);
    }
    if split.is_released {
        return Err(SplitError::AlreadyCleared);
    }
    if pool_balance < rent_exempt_minimum || pool_balance - rent_exempt_minimum < split.target_amount {
        return Err(SplitError::InsufficientFunds);
    }

    let releasable_amount: u64 = split.target_amount;

    let n: usize = split.contributors.len();
    let mut i: usize = 0;
    while i < n
        invariant
            n == split.contributors@.len(),
            i <= n,
            split.authority == old(split).authority,
            split.receiver == old(split).receiver,
            split.name@ == old(split).name@,
            split.target_amount == old(split).target_amount,
            split.received_amount == old(split).received_amount,
            split.is_released == old(split).is_released,
            split.released_at == old(split).released_at,
            split.created_at == old(split).created_at,
            forall|k: int|
                0 <= k < i ==> {
                    &&& (#[trigger] split.contributors@[k]).contributor == old(
                        split,
                    ).contributors@[k].contributor
                    &&& split.contributors@[k].percent == old(split).contributors@[k].percent
                    &&& !split.contributors@[k].has_cleared
                    &&& split.contributors@[k].cleared_at == old(split).contributors@[k].cleared_at
                },
            forall|k: int|
                i <= k < n ==> (#[trigger] split.contributors@[k]) == old(split).contributors@[k],
        decreases n - i,
    {
        let mut e = split.contributors[i];
        e.has_cleared = false;
        split.contributors[i] = e;
        i = i + 1;
    }

    split.received_amount = 0;
    split.is_released = false;
    split.released_at = now;

    proof {
        lemma_total_percent_pointwise(split.contributors@, old(split).contributors@);
        lemma_cleared_total_all_unset(split.contributors@, split.target_amount);
        assert(!has_duplicate(split.contributors@)) by {
            if has_duplicate(split.contributors@) {
                let (p, q) = choose|p: int, q: int|
                    0 <= p < q < split.contributors@.len() && split.contributors@[p].contributor
                        == split.contributors@[q].contributor;
                assert(old(split).contributors@[p].contributor == old(
                    split,
                ).contributors@[q].contributor);
            }
        }
        assert(!has_zero_percent(split.contributors@)) by {
            if has_zero_percent(split.contributors@) {
                let k = choose|k: int|
                    0 <= k < split.contributors@.len() && split.contributors@[k].percent == 0;
                assert(old(split).contributors@[k].percent == 0);
            }
        }
    }

    Ok(
        ReleasePaymentEvent {
            receiver: receiver_account,
            amount: releasable_amount,
            released_at: now,
        },
    )
}

} // verus!
