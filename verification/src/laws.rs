//! The guarantees of the split state machine, stated across its operations
//! and proved from the contracts in `instructions` and the record invariant
//! in `states`.

use crate::errors::SplitError;
use crate::instructions::contribute::contribute_error;
use crate::instructions::create_split::create_error;
use crate::instructions::release::release_error;
use crate::instructions::release::release_post;
use crate::instructions::release::ReleasePaymentEvent;
use crate::states::CONTRIBUTOR_LIMIT;
use crate::states::MAX_NAME_LEN;
use crate::states::Pubkey;
use crate::states::Split;
use crate::states::Spliter;
use crate::states::has_duplicate;
use crate::states::has_zero_percent;
use crate::states::index_of;
use crate::states::lemma_cleared_total_le_target;
use crate::states::lists_contributor;
use crate::states::owed_amount;
use crate::states::total_percent;
use vstd::prelude::*;

verus! {

/// For a contributor list that is admissible in every other respect —
/// non-empty, below the size limit, free of duplicates and of zero shares,
/// under an admissible name — a share total of exactly 100 is necessary and
/// sufficient for creation to succeed.
pub proof fn lemma_creation_needs_full_total(name: Seq<char>, contributors: Seq<Spliter>)
    requires
        0 < contributors.len() < CONTRIBUTOR_LIMIT,
        1 <= name.len() <= MAX_NAME_LEN,
        !has_duplicate(contributors),
        !has_zero_percent(contributors),
    ensures
        create_error(name, contributors) is None <==> total_percent(contributors) == 100,
{
}

/// An identity not on the contributor list can never pay into the record,
/// whatever the record's state or the offered balance.
pub proof fn lemma_outsider_never_contributes(s: Split, who: Pubkey, available_balance: u64)
    requires
        !lists_contributor(s.contributors@, who),
    ensures
        contribute_error(s, who, available_balance) == Some(SplitError::NotAContributor),
{
}

/// A well-formed record never holds more than its target: the received total
/// is what the cleared contributors have paid, and their combined shares
/// never owe more than the whole.
pub proof fn lemma_received_never_exceeds_target(s: Split)
    requires
        s.wf(),
    ensures
        s.received_amount <= s.target_amount,
{
    lemma_cleared_total_le_target(s.contributors@, s.target_amount);
}

/// Before the received total reaches the target, release fails with
/// `TargetNotReached` even for the bound authority and receiver.
pub proof fn lemma_release_needs_target(
    s: Split,
    pool_balance: u64,
    rent_exempt_minimum: u64,
)
    requires
        s.received_amount < s.target_amount,
    ensures
        release_error(s, s.authority, s.receiver, pool_balance, rent_exempt_minimum) == Some(
            SplitError::TargetNotReached,
        ),
{
}

/// Once the received total has reached the target — which, under the record
/// invariant, means it equals the target exactly — the bound authority
/// releasing to the bound receiver succeeds whenever the pool covers the
/// target plus the storage reserve, and the amount released is exactly the
/// target.
pub proof fn lemma_release_at_target(s: Split, pool_balance: u64, rent_exempt_minimum: u64)
    requires
        s.wf(),
        s.received_amount >= s.target_amount,
        !s.is_released,
        pool_balance >= s.target_amount + rent_exempt_minimum,
    ensures
        s.received_amount == s.target_amount,
        release_error(s, s.authority, s.receiver, pool_balance, rent_exempt_minimum) is None,
{
    lemma_received_never_exceeds_target(s);
}

/// A caller other than the stored authority can never release, even when the
/// target is reached.
pub proof fn lemma_release_needs_authority(
    s: Split,
    caller: Pubkey,
    receiver_account: Pubkey,
    pool_balance: u64,
    rent_exempt_minimum: u64,
)
    requires
        caller != s.authority,
    ensures
        release_error(s, caller, receiver_account, pool_balance, rent_exempt_minimum) == Some(
            SplitError::Unauthorized,
        ),
{
}

/// A successful release opens a fresh cycle: nothing is recorded as
/// received, no contributor is marked cleared, and any listed contributor
/// whose balance covers its share may contribute again without the record
/// being recreated.
pub proof fn lemma_release_resets_cycle(
    pre: Split,
    post: Split,
    now: i64,
    ev: ReleasePaymentEvent,
    who: Pubkey,
    available_balance: u64,
)
    requires
        release_post(pre, post, now, ev),
        lists_contributor(post.contributors@, who),
        available_balance >= owed_amount(
            post.target_amount,
            post.contributors@[index_of(post.contributors@, who)].percent,
        ),
    ensures
        post.received_amount == 0,
        forall|i: int| 0 <= i < post.contributors@.len() ==> !(#[trigger] post.contributors@[i]).has_cleared,
        contribute_error(post, who, available_balance) is None,
{
}

} // verus!
