//! Validation and construction of a new split record from a contributor
//! list.

use crate::errors::SplitError;
use crate::states::CONTRIBUTOR_LIMIT;
use crate::states::MAX_NAME_LEN;
use crate::states::Pubkey;
use crate::states::Split;
use crate::states::Spliter;
use crate::states::contains_duplicate;
use crate::states::has_duplicate;
use crate::states::has_zero_percent;
use crate::states::percent_total;
use crate::states::lemma_cleared_total_all_unset;
use crate::states::lemma_total_percent_pointwise;
use crate::states::total_percent;
use vstd::prelude::*;

verus! {

/// The event a successful creation emits for off-chain observers.
#[derive(Clone, Copy, Debug, PartialEq, Eq, Structural)]
pub struct CreateSplitEvent {
    pub authority: Pubkey,
    pub receiver: Pubkey,
    pub total_amount: u64,
    pub contributor_count: u8,
}

/// The error `create_split` reports for the given inputs, in the canonical
/// validation order; `None` when creation succeeds.
pub open spec fn create_error(name: Seq<char>, contributors: Seq<Spliter>) -> Option<
    SplitError,
> {
    if contributors.len() == 0 {
        Some(SplitError::NoContributors)
    } else if contributors.len() >= CONTRIBUTOR_LIMIT {
        Some(SplitError::TooManyContributors)
    } else if name.len() == 0 {
        Some(SplitError::InvalidName)
    } else if name.len() > MAX_NAME_LEN {
        Some(SplitError::NameTooLong)
    } else if total_percent(contributors) != 100 {
        Some(SplitError::InvalidTotalPercentage)
    } else if has_duplicate(contributors) {
        Some(SplitError::DuplicateContributor)
    } else if has_zero_percent(contributors) {
        Some(SplitError::ZeroPercentage)
    } else {
        None
    }
}

/// What a freshly created record looks like: the given bindings, nothing
/// received, not released, and the given contributor list normalized so that
/// every entry starts the first cycle unsettled.
pub open spec fn fresh_split(
    authority: Pubkey,
    receiver: Pubkey,
    name: Seq<char>,
    target_amount: u64,
    contributors: Seq<Spliter>,
    now: i64,
    s: Split,
) -> bool {
    &&& s.authority == authority
    &&& s.receiver == receiver
    &&& s.name@ == name
    &&& s.target_amount == target_amount
    &&& s.received_amount == 0
    &&& !s.is_released
    &&& s.released_at == 0
    &&& s.created_at == now
    &&& s.contributors@.len() == contributors.len()
    &&& forall|i: int|
        0 <= i < contributors.len() ==> {
            &&& (#[trigger] s.contributors@[i]).contributor == contributors[i].contributor
            &&& s.contributors@[i].percent == contributors[i].percent
            &&& !s.contributors@[i].has_cleared
            &&& s.contributors@[i].cleared_at == 0
        }
}

/// Validates a contributor list and constructs the split record bound to the
/// given authority and receiver, together with the creation event.
///
/// The record's identifier and backing storage are the storage substrate's
/// business: the caller allocates `space_required(contributors.len())` bytes
/// for the record and assigns its identity before persisting what this
/// returns.
pub fn create_split(
    authority: Pubkey,
    receiver: Pubkey,
    name: String,
    target_amount: u64,
    contributors: Vec<Spliter>,
    now: i64,
) -> (r: Result<(Split, CreateSplitEvent), SplitError>)
    ensures
        match create_error(name@, contributors@) {
            Some(e) => r == Err::<(Split, CreateSplitEvent), SplitError>(e),
            None => {
                &&& r is Ok
                &&& fresh_split(
                    authority,
                    receiver,
                    name@,
                    target_amount,
                    contributors@,
                    now,
                    r->Ok_0.0,
                )
                &&& r->Ok_0.0.wf()
                &&& r->Ok_0.1 == (CreateSplitEvent {
                    authority,
                    receiver,
                    total_amount: target_amount,
                    contributor_count: contributors@.len() as u8,
                })
            },
        },
{
    let n: usize = contributors.len();
    if n == 0 {
        return Err(SplitError::NoContributors);
    }
    if n >= CONTRIBUTOR_LIMIT {
        return Err(SplitError::TooManyContributors);
    }
    let name_len: usize = name.as_str().unicode_len();
    if name_len == 0 {
        return Err(SplitError::InvalidName);
    }
    if name_len > MAX_NAME_LEN {
        return Err(SplitError::NameTooLong);
    }

    if percent_total(&contributors) != 100 {
        return Err(SplitError::InvalidTotalPercentage);
    }
    if contains_duplicate(&contributors) {
        return Err(SplitError::DuplicateContributor);
    }

    let mut normalized: Vec<Spliter> = Vec::new();
    let mut i: usize = 0;
    while i < n
        invariant
            n == contributors@.len(),
            0 < n < CONTRIBUTOR_LIMIT,
            1 <= name@.len() <= MAX_NAME_LEN,
            total_percent(contributors@) == 100,
            !has_duplicate(contributors@),
            i <= n,
            normalized@.len() == i,
            forall|k: int|
                0 <= k < i ==> {
                    &&& (#[trigger] normalized@[k]).contributor == contributors@[k].contributor
                    &&& normalized@[k].percent == contributors@[k].percent
                    &&& !normalized@[k].has_cleared
                    &&& normalized@[k].cleared_at == 0
                },
            forall|k: int| 0 <= k < i ==> (#[trigger] contributors@[k]).percent > 0,
        decreases n - i,
    {
        let c = contributors[i];
        if c.percent == 0 {
            proof {
                assert(contributors@[i as int].percent == 0);
                assert(has_zero_percent(contributors@));
            }
            return Err(SplitError::ZeroPercentage);
        }
        normalized.push(
            Spliter { contributor: c.contributor, percent: c.percent, has_cleared: false, cleared_at: 0 },
        );
        i = i + 1;
    }

    proof {
        lemma_total_percent_pointwise(normalized@, contributors@);
        lemma_cleared_total_all_unset(normalized@, target_amount);
        assert(!has_duplicate(normalized@)) by {
            if has_duplicate(normalized@) {
                let (p, q) = choose|p: int, q: int|
                    0 <= p < q < normalized@.len() && normalized@[p].contributor
                        == normalized@[q].contributor;
                assert(contributors@[p].contributor == contributors@[q].contributor);
            }
        }
    }

    let split = Split {
        authority,
        receiver,
        name,
        target_amount,
        contributors: normalized,
        received_amount: 0,
        is_released: false,
        released_at: 0,
        created_at: now,
    };
    let event = CreateSplitEvent {
        authority,
        receiver,
        total_amount: target_amount,
        contributor_count: n as u8,
    };
    Ok((split, event))
}

} // verus!
