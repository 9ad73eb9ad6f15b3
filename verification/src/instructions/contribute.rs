//! Settlement of one contributor's obligation against an existing split
//! record.

use crate::errors::SplitError;
use crate::states::Pubkey;
use crate::states::Split;
use crate::states::Spliter;
use crate::states::has_duplicate;
use crate::states::has_zero_percent;
use crate::states::index_of;
use crate::states::lemma_cleared_total_le_target;
use crate::states::lemma_cleared_total_update;
use crate::states::lemma_element_percent_le_total;
use crate::states::lemma_owed_le_target;
use crate::states::lemma_total_percent_pointwise;
use crate::states::lists_contributor;
use crate::states::owed_amount;
use vstd::prelude::*;

verus! {

/// The event a successful contribution emits for off-chain observers.
#[derive(Clone, Copy, Debug, PartialEq, Eq, Structural)]
pub struct ContributeEvent {
    pub contributor: Pubkey,
    pub amount: u64,
    pub total_received: u64,
    pub has_cleared: bool,
    pub cleared_at: i64,
}

/// The error `contribute` reports for the given record, identity and
/// available balance, in the canonical validation order; `None` when the
/// contribution settles. A well-formed record never reports
/// `ArithmeticOverflow`: the received total stays bounded by the target.
pub open spec fn contribute_error(s: Split, contributor: Pubkey, available_balance: u64) -> Option<
    SplitError,
> {
    let i = index_of(s.contributors@, contributor);
    if !lists_contributor(s.contributors@, contributor) {
        Some(SplitError::NotAContributor)
    } else if s.contributors@[i].has_cleared {
        Some(SplitError::AlreadyCleared)
    } else if available_balance < owed_amount(s.target_amount, s.contributors@[i].percent) {
        Some(SplitError::InsufficientFunds)
    } else {
        None
    }
}

/// How a successful contribution changes the record and what the returned
/// event reports: the contributor's entry is marked cleared at the given
/// time, the received total grows by exactly the entry's owed amount, and
/// everything else is untouched.
pub open spec fn contribute_post(
    pre: Split,
    post: Split,
    contributor: Pubkey,
    now: i64,
    ev: ContributeEvent,
) -> bool {
    let i = index_of(pre.contributors@, contributor);
    let owed = owed_amount(pre.target_amount, pre.contributors@[i].percent);
    &&& post.contributors@ == pre.contributors@.update(
        i,
        Spliter {
            contributor: pre.contributors@[i].contributor,
            percent: pre.contributors@[i].percent,
            has_cleared: true,
            cleared_at: now,
        },
    )
    &&& post.received_amount == pre.received_amount + owed
    &&& post.authority == pre.authority
    &&& post.receiver == pre.receiver
    &&& post.name@ == pre.name@
    &&& post.target_amount == pre.target_amount
    &&& post.is_released == pre.is_released
    &&& post.released_at == pre.released_at
    &&& post.created_at == pre.created_at
    &&& ev == (ContributeEvent {
        contributor,
        amount: owed as u64,
        total_received: post.received_amount,
        has_cleared: true,
        cleared_at: now,
    })
}

/// The position of the entry for the given identity, in the list's own
/// order; `None` when the identity is not listed.
fn find_contributor(contributors: &Vec<Spliter>, who: Pubkey) -> (r: Option<usize>)
    ensures
        match r {
            Some(i) => i < contributors@.len() && contributors@[i as int].contributor == who,
            None => !lists_contributor(contributors@, who),
        },
{
    let n: usize = contributors.len();
    let mut i: usize = 0;
    while i < n
        invariant
            n == contributors@.len(),
            i <= n,
            forall|k: int| 0 <= k < i ==> (#[trigger] contributors@[k]).contributor != who,
        decreases n - i,
    {
        if contributors[i].contributor == who {
            return Some(i);
        }
        i = i + 1;
    }
    None
}

/// Settles the obligation of the given contributor against the record: the
/// caller has verified the contributor's identity and reports its available
/// balance in the pool's native currency.
///
/// On success the environment must move exactly the returned event's
/// `amount` from the contributor to the pooled record, atomically with
/// committing the updated record; the checked balance makes the movement
/// possible, and any movement failure aborts the whole transaction.
pub fn contribute(split: &mut Split, contributor: Pubkey, available_balance: u64, now: i64) -> (r:
    Result<ContributeEvent, SplitError>)
    requires
        old(split).wf(),
    ensures
        final(split).wf(),
        match contribute_error(*old(split), contributor, available_balance) {
            Some(e) => r == Err::<ContributeEvent, SplitError>(e) && *final(split) == *old(split),
            None => r is Ok && contribute_post(*old(split), *final(split), contributor, now, r->Ok_0),
        },
{
    let maybe_index = find_contributor(&split.contributors, contributor);
    let index: usize;
    match maybe_index {
        None => {
            return Err(SplitError::NotAContributor);
        },
        Some(i) => {
            index = i;
        },
    }
    proof {
        assert(lists_contributor(split.contributors@, contributor));
        let j = index_of(split.contributors@, contributor);
        if j != index as int {
            let lo = if j < index as int { j } else { index as int };
            let hi = if j < index as int { index as int } else { j };
            assert(split.contributors@[lo].contributor == split.contributors@[hi].contributor);
            assert(has_duplicate(split.contributors@));
        }
    }

    let entry = split.contributors[index];
    if entry.has_cleared {
        return Err(SplitError::AlreadyCleared);
    }

    proof {
        lemma_element_percent_le_total(split.contributors@, index as int);
        lemma_owed_le_target(split.target_amount, entry.percent);
    }
    let owed: u64 = ((split.target_amount as u128) * (entry.percent as u128) / 100) as u64;

    if available_balance < owed {
        return Err(SplitError::InsufficientFunds);
    }

    let mut updated = entry;
    updated.has_cleared = true;
    updated.cleared_at = now;
    let ghost pre_contributors = split.contributors@;
    split.contributors[index] = updated;

    proof {
        lemma_cleared_total_update(pre_contributors, index as int, updated, split.target_amount);
        lemma_total_percent_pointwise(split.contributors@, pre_contributors);
        lemma_cleared_total_le_target(split.contributors@, split.target_amount);
        assert(!has_duplicate(split.contributors@)) by {
            if has_duplicate(split.contributors@) {
                let (p, q) = choose|p: int, q: int|
                    0 <= p < q < split.contributors@.len() && split.contributors@[p].contributor
                        == split.contributors@[q].contributor;
                assert(pre_contributors[p].contributor == pre_contributors[q].contributor);
            }
        }
        assert(!has_zero_percent(split.contributors@)) by {
            if has_zero_percent(split.contributors@) {
                let k = choose|k: int|
                    0 <= k < split.contributors@.len() && split.contributors@[k].percent == 0;
                assert(pre_contributors[k].percent == 0);
            }
        }
    }

    match split.received_amount.checked_add(owed) {
        Some(new_total) => {
            split.received_amount = new_total;
        },
        None => {
            return Err(SplitError::ArithmeticOverflow);
        },
    }

    Ok(
        ContributeEvent {
            contributor,
            amount: owed,
            total_received: split.received_amount,
            has_cleared: true,
            cleared_at: now,
        },
    )
}

} // verus!
