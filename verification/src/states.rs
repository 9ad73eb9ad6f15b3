//! The persisted split record, its well-formedness invariant, and the
//! storage-space formula derived from the contributor count.

use vstd::arithmetic::div_mod::lemma_div_is_ordered;
use vstd::arithmetic::div_mod::lemma_fundamental_div_mod;
use vstd::arithmetic::div_mod::lemma_mod_division_less_than_divisor;
use vstd::arithmetic::mul::lemma_mul_inequality;
use vstd::arithmetic::mul::lemma_mul_is_distributive_add;
use vstd::prelude::*;

verus! {

/// A split may hold at most this many contributors (the count must stay
/// strictly below the limit).
pub const CONTRIBUTOR_LIMIT: usize = 255;

/// A split's name may hold at most this many characters.
pub const MAX_NAME_LEN: usize = 50;

/// Storage space of the fixed part of a record: an 8-byte discriminator, two
/// 32-byte identities, the name (4-byte length prefix plus its maximum
/// length), the target and received amounts, the released flag, two
/// timestamps, and the contributor list's 4-byte length prefix.
pub const RECORD_HEADER_SPACE: usize = 8 + 32 + 32 + 4 + 50 + 8 + 8 + 1 + 8 + 8 + 4;

/// Storage space of one contributor entry: a 32-byte identity, the percentage
/// share, the cleared flag, and the settlement timestamp.
pub const CONTRIBUTOR_ENTRY_SPACE: usize = 32 + 1 + 1 + 8;

/// A party's identity: a 32-byte public key, held as four 64-bit words.
#[derive(Clone, Copy, Debug, Hash, PartialEq, Eq, Structural)]
pub struct Pubkey {
    pub w0: u64,
    pub w1: u64,
    pub w2: u64,
    pub w3: u64,
}

/// One contributor's obligation within a split: the party's identity, its
/// integer percentage share of the target amount, and whether (and when) the
/// obligation was settled for the current cycle.
#[derive(Clone, Copy, Debug, PartialEq, Eq, Structural)]
pub struct Spliter {
    pub contributor: Pubkey,
    pub percent: u8,
    pub has_cleared: bool,
    pub cleared_at: i64,
}

/// The pooled-fund ledger record. Created once, then mutated only by
/// `contribute` (settles one obligation) and `release` (moves the pooled
/// funds out and resets the cycle). The contributor list is fixed at
/// creation; insertion order is the canonical index.
pub struct Split {
    pub authority: Pubkey,
    pub receiver: Pubkey,
    pub name: String,
    pub target_amount: u64,
    pub contributors: Vec<Spliter>,
    pub received_amount: u64,
    pub is_released: bool,
    pub released_at: i64,
    pub created_at: i64,
}

/// The sum of all percentage shares in a contributor list.
pub open spec fn total_percent(s: Seq<Spliter>) -> int
    decreases s.len(),
{
    if s.len() == 0 {
        0
    } else {
        total_percent(s.drop_last()) + s.last().percent
    }
}

/// Whether two entries of the list share one identity.
pub open spec fn has_duplicate(s: Seq<Spliter>) -> bool {
    exists|i: int, j: int|
        0 <= i < j < s.len() && s[i].contributor == s[j].contributor
}

/// Whether some entry carries a zero percentage share.
pub open spec fn has_zero_percent(s: Seq<Spliter>) -> bool {
    exists|i: int| 0 <= i < s.len() && s[i].percent == 0
}

/// Whether the list holds an entry for the given identity.
pub open spec fn lists_contributor(s: Seq<Spliter>, who: Pubkey) -> bool {
    exists|i: int| 0 <= i < s.len() && s[i].contributor == who
}

/// The index of the entry for the given identity. Meaningful only when
/// `lists_contributor(s, who)` holds; unique when the list is free of
/// duplicates.
pub open spec fn index_of(s: Seq<Spliter>, who: Pubkey) -> int {
    choose|i: int| 0 <= i < s.len() && s[i].contributor == who
}

/// The amount a contributor owes: its percentage share of the target amount,
/// rounded down.
pub open spec fn owed_amount(target: u64, percent: u8) -> int {
    target * percent / 100
}

/// The total owed by the entries already marked cleared: what the pooled
/// record has actually been paid this cycle.
pub open spec fn cleared_total(s: Seq<Spliter>, target: u64) -> int
    decreases s.len(),
{
    if s.len() == 0 {
        0
    } else {
        cleared_total(s.drop_last(), target) + if s.last().has_cleared {
            owed_amount(target, s.last().percent)
        } else {
            0
        }
    }
}

/// A contributor list a split record may be created from: non-empty, below
/// the size limit, shares summing to exactly 100, no identity listed twice,
/// and no zero share.
pub open spec fn valid_contributors(s: Seq<Spliter>) -> bool {
    &&& 0 < s.len() < CONTRIBUTOR_LIMIT
    &&& total_percent(s) == 100
    &&& !has_duplicate(s)
    &&& !has_zero_percent(s)
}

impl Split {
    /// The record invariant: the contributor list is valid, the name is a
    /// non-empty bounded label, and the received total is exactly the sum
    /// owed by the contributors marked cleared. Creation establishes it and
    /// every operation preserves it.
    pub open spec fn wf(self) -> bool {
        &&& valid_contributors(self.contributors@)
        &&& 1 <= self.name@.len() <= MAX_NAME_LEN
        &&& self.received_amount == cleared_total(self.contributors@, self.target_amount)
    }
}

/// The percentage sum of a list is never negative.
pub proof fn lemma_total_percent_nonneg(s: Seq<Spliter>)
    ensures
        total_percent(s) >= 0,
    decreases s.len(),
{
    if s.len() > 0 {
        lemma_total_percent_nonneg(s.drop_last());
    }
}

/// Each entry's share is bounded by the sum of all shares.
pub proof fn lemma_element_percent_le_total(s: Seq<Spliter>, i: int)
    requires
        0 <= i < s.len(),
    ensures
        s[i].percent <= total_percent(s),
    decreases s.len(),
{
    if i == s.len() - 1 {
        lemma_total_percent_nonneg(s.drop_last());
    } else {
        lemma_element_percent_le_total(s.drop_last(), i);
    }
}

/// The percentage sum depends only on the shares, entry by entry.
pub proof fn lemma_total_percent_pointwise(s1: Seq<Spliter>, s2: Seq<Spliter>)
    requires
        s1.len() == s2.len(),
        forall|i: int| 0 <= i < s1.len() ==> s1[i].percent == s2[i].percent,
    ensures
        total_percent(s1) == total_percent(s2),
    decreases s1.len(),
{
    if s1.len() > 0 {
        lemma_total_percent_pointwise(s1.drop_last(), s2.drop_last());
    }
}

/// A share of at most 100 percent owes at most the whole target.
pub proof fn lemma_owed_le_target(target: u64, percent: u8)
    requires
        percent <= 100,
    ensures
        0 <= owed_amount(target, percent) <= target,
{
    lemma_mul_inequality(percent as int, 100, target as int);
    lemma_div_is_ordered(target * percent, target * 100, 100);
    lemma_div_is_ordered(0, target * percent, 100);
    assert(target * 100 == 100 * target);
    vstd::arithmetic::div_mod::lemma_div_multiples_vanish(target as int, 100);
}

/// Rounding down loses no more through a sum than it loses term by term.
proof fn lemma_div100_sum(a: int, b: int)
    requires
        a >= 0,
        b >= 0,
    ensures
        a / 100 + b / 100 <= (a + b) / 100,
{
    lemma_fundamental_div_mod(a, 100);
    lemma_fundamental_div_mod(b, 100);
    lemma_mod_division_less_than_divisor(a, 100);
    lemma_mod_division_less_than_divisor(b, 100);
    let q = a / 100 + b / 100;
    assert(a + b == 100 * q + (a % 100 + b % 100)) by {
        lemma_mul_is_distributive_add(100, a / 100, b / 100);
    }
    vstd::arithmetic::div_mod::lemma_div_multiples_vanish(q, 100);
    lemma_div_is_ordered(100 * q, a + b, 100);
}

/// What the cleared entries owe is bounded by their combined share of the
/// target, rounded down.
pub proof fn lemma_cleared_total_le(s: Seq<Spliter>, target: u64)
    ensures
        0 <= cleared_total(s, target) <= target * total_percent(s) / 100,
    decreases s.len(),
{
    if s.len() == 0 {
    } else {
        let rest = s.drop_last();
        lemma_cleared_total_le(rest, target);
        lemma_total_percent_nonneg(rest);
        let a = target * total_percent(rest);
        let b = target * s.last().percent;
        lemma_mul_inequality(0, total_percent(rest), target as int);
        lemma_mul_inequality(0, s.last().percent as int, target as int);
        assert(total_percent(rest) * target == target * total_percent(rest))
            by (nonlinear_arith);
        assert(s.last().percent * target == target * s.last().percent)
            by (nonlinear_arith);
        assert(target * total_percent(s) == a + b) by {
            lemma_mul_is_distributive_add(
                target as int,
                total_percent(rest),
                s.last().percent as int,
            );
        }
        if s.last().has_cleared {
            lemma_div100_sum(a, b);
        } else {
            lemma_div_is_ordered(a, a + b, 100);
        }
    }
}

/// Under a share total of at most 100 percent, the cleared total never
/// exceeds the target amount.
pub proof fn lemma_cleared_total_le_target(s: Seq<Spliter>, target: u64)
    requires
        total_percent(s) <= 100,
    ensures
        0 <= cleared_total(s, target) <= target,
{
    lemma_cleared_total_le(s, target);
    lemma_total_percent_nonneg(s);
    lemma_mul_inequality(total_percent(s), 100, target as int);
    assert(total_percent(s) * target == target * total_percent(s)) by (nonlinear_arith);
    assert(100 * target == target * 100) by (nonlinear_arith);
    lemma_div_is_ordered(target * total_percent(s), target * 100, 100);
    vstd::arithmetic::div_mod::lemma_div_multiples_vanish(target as int, 100);
    assert(100 * target / 100 == target * 100 / 100) by (nonlinear_arith);
}

/// A list with no entry marked cleared owes nothing yet.
pub proof fn lemma_cleared_total_all_unset(s: Seq<Spliter>, target: u64)
    requires
        forall|i: int| 0 <= i < s.len() ==> !s[i].has_cleared,
    ensures
        cleared_total(s, target) == 0,
    decreases s.len(),
{
    if s.len() > 0 {
        lemma_cleared_total_all_unset(s.drop_last(), target);
    }
}

/// Marking one uncleared entry cleared raises the cleared total by exactly
/// that entry's owed amount.
pub proof fn lemma_cleared_total_update(s: Seq<Spliter>, i: int, e: Spliter, target: u64)
    requires
        0 <= i < s.len(),
        !s[i].has_cleared,
        e.has_cleared,
        e.percent == s[i].percent,
    ensures
        cleared_total(s.update(i, e), target) == cleared_total(s, target) + owed_amount(
            target,
            s[i].percent,
        ),
    decreases s.len(),
{
    let updated = s.update(i, e);
    if i == s.len() - 1 {
        assert(updated.drop_last() =~= s.drop_last());
    } else {
        assert(updated.drop_last() =~= s.drop_last().update(i, e));
        lemma_cleared_total_update(s.drop_last(), i, e, target);
    }
}

/// Computes the sum of all percentage shares in a contributor list. The
/// size limit keeps the accumulation far from overflow.
pub fn percent_total(contributors: &Vec<Spliter>) -> (total: u32)
    requires
        contributors@.len() < CONTRIBUTOR_LIMIT,
    ensures
        total == total_percent(contributors@),
{
    let n: usize = contributors.len();
    let mut total: u32 = 0;
    let mut i: usize = 0;
    while i < n
        invariant
            n == contributors@.len() < CONTRIBUTOR_LIMIT,
            i <= n,
            total == total_percent(contributors@.subrange(0, i as int)),
            total <= 255 * i,
        decreases n - i,
    {
        proof {
            assert(contributors@.subrange(0, i + 1 as int).drop_last() =~= contributors@.subrange(
                0,
                i as int,
            ));
        }
        total = total + contributors[i].percent as u32;
        i = i + 1;
    }
    proof {
        assert(contributors@.subrange(0, n as int) =~= contributors@);
    }
    total
}

/// Reports whether two entries of the list share one identity, by pairwise
/// comparison across the full list.
pub fn contains_duplicate(contributors: &Vec<Spliter>) -> (dup: bool)
    ensures
        dup == has_duplicate(contributors@),
{
    let n: usize = contributors.len();
    let mut i: usize = 0;
    while i < n
        invariant
            n == contributors@.len(),
            i <= n,
            forall|p: int, q: int|
                0 <= p < i && p < q < n ==> (#[trigger] contributors@[p]).contributor
                    != (#[trigger] contributors@[q]).contributor,
        decreases n - i,
    {
        let mut j: usize = i + 1;
        while j < n
            invariant
                n == contributors@.len(),
                i < n,
                i + 1 <= j <= n,
                forall|q: int|
                    i < q < j ==> contributors@[i as int].contributor
                        != (#[trigger] contributors@[q]).contributor,
            decreases n - j,
        {
            if contributors[i].contributor == contributors[j].contributor {
                proof {
                    assert(0 <= (i as int) < (j as int) < contributors@.len()
                        && contributors@[i as int].contributor
                        == contributors@[j as int].contributor);
                }
                return true;
            }
            j = j + 1;
        }
        i = i + 1;
    }
    false
}

/// Reports whether some entry of the list carries a zero percentage share.
pub fn contains_zero_percent(contributors: &Vec<Spliter>) -> (zero: bool)
    ensures
        zero == has_zero_percent(contributors@),
{
    let n: usize = contributors.len();
    let mut i: usize = 0;
    while i < n
        invariant
            n == contributors@.len(),
            i <= n,
            forall|k: int| 0 <= k < i ==> (#[trigger] contributors@[k]).percent > 0,
        decreases n - i,
    {
        if contributors[i].percent == 0 {
            proof {
                assert(contributors@[i as int].percent == 0);
            }
            return true;
        }
        i = i + 1;
    }
    false
}

impl Split {
    /// Checks the record invariant at run time, so an unverified caller that
    /// took the record from storage can reject a corrupted one before
    /// operating on it.
    pub fn check_invariant(&self) -> (b: bool)
        ensures
            b == self.wf(),
    {
        let n: usize = self.contributors.len();
        if n == 0 || n >= CONTRIBUTOR_LIMIT {
            return false;
        }
        let name_len: usize = self.name.as_str().unicode_len();
        if name_len == 0 || name_len > MAX_NAME_LEN {
            return false;
        }
        if percent_total(&self.contributors) != 100 {
            return false;
        }
        if contains_duplicate(&self.contributors) {
            return false;
        }
        if contains_zero_percent(&self.contributors) {
            return false;
        }

        let mut acc: u128 = 0;
        let mut i: usize = 0;
        while i < n
            invariant
                n == self.contributors@.len() < CONTRIBUTOR_LIMIT,
                total_percent(self.contributors@) == 100,
                i <= n,
                acc == cleared_total(self.contributors@.subrange(0, i as int), self.target_amount),
                acc <= i * (u64::MAX as int),
            decreases n - i,
        {
            proof {
                assert(self.contributors@.subrange(0, i + 1 as int).drop_last()
                    =~= self.contributors@.subrange(0, i as int));
                lemma_element_percent_le_total(self.contributors@, i as int);
                lemma_owed_le_target(self.target_amount, self.contributors@[i as int].percent);
            }
            let e = self.contributors[i];
            if e.has_cleared {
                acc = acc + (self.target_amount as u128) * (e.percent as u128) / 100;
            }
            i = i + 1;
        }
        proof {
            assert(self.contributors@.subrange(0, n as int) =~= self.contributors@);
            lemma_cleared_total_le_target(self.contributors@, self.target_amount);
        }
        acc == self.received_amount as u128
    }
}

/// The storage space a record with the given contributor count needs, so the
/// backing storage can be pre-allocated exactly; the list cannot grow after
/// creation.
pub fn space_required(contributor_count: usize) -> (space: usize)
    requires
        contributor_count < CONTRIBUTOR_LIMIT,
    ensures
        space == RECORD_HEADER_SPACE + CONTRIBUTOR_ENTRY_SPACE * contributor_count,
{
    proof {
        assert(CONTRIBUTOR_ENTRY_SPACE * contributor_count <= 42 * 254) by (nonlinear_arith)
            requires
                contributor_count <= 254,
                CONTRIBUTOR_ENTRY_SPACE == 42,
        ;
    }
    RECORD_HEADER_SPACE + CONTRIBUTOR_ENTRY_SPACE * contributor_count
}

} // verus!
