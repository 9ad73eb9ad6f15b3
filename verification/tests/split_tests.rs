use spliter::create_split;
use spliter::contribute;
use spliter::release;
use spliter::errors::SplitError;
use spliter::states::Pubkey;
use spliter::states::Split;
use spliter::states::Spliter;
use spliter::states::space_required;

fn pk(n: u64) -> Pubkey {
    Pubkey { w0: n, w1: 0, w2: 0, w3: 0 }
}

fn entry(who: Pubkey, percent: u8) -> Spliter {
    Spliter { contributor: who, percent, has_cleared: false, cleared_at: 0 }
}

fn authority() -> Pubkey {
    pk(1000)
}

fn receiver() -> Pubkey {
    pk(2000)
}

fn make(target: u64, contributors: Vec<Spliter>) -> Split {
    let (split, _event) = create_split(
        authority(),
        receiver(),
        "team".to_string(),
        target,
        contributors,
        7,
    )
    .unwrap();
    split
}

#[test]
fn create_valid_succeeds() {
    let a = pk(1);
    let b = pk(2);
    let (split, event) = create_split(
        authority(),
        receiver(),
        "team".to_string(),
        1000,
        vec![entry(a, 60), entry(b, 40)],
        7,
    )
    .unwrap();
    assert_eq!(split.authority, authority());
    assert_eq!(split.receiver, receiver());
    assert_eq!(split.name, "team");
    assert_eq!(split.target_amount, 1000);
    assert_eq!(split.received_amount, 0);
    assert!(!split.is_released);
    assert_eq!(split.released_at, 0);
    assert_eq!(split.created_at, 7);
    assert_eq!(split.contributors.len(), 2);
    assert_eq!(split.contributors[0].contributor, a);
    assert_eq!(split.contributors[0].percent, 60);
    assert!(!split.contributors[0].has_cleared);
    assert_eq!(split.contributors[0].cleared_at, 0);
    assert_eq!(split.contributors[1].contributor, b);
    assert_eq!(split.contributors[1].percent, 40);
    assert_eq!(event.authority, authority());
    assert_eq!(event.receiver, receiver());
    assert_eq!(event.total_amount, 1000);
    assert_eq!(event.contributor_count, 2);
}

#[test]
fn create_normalizes_entries() {
    let a = pk(1);
    let dirty = Spliter { contributor: a, percent: 100, has_cleared: true, cleared_at: 99 };
    let split = make(500, vec![dirty]);
    assert!(!split.contributors[0].has_cleared);
    assert_eq!(split.contributors[0].cleared_at, 0);
    assert_eq!(split.received_amount, 0);
}

#[test]
fn create_unbalanced_total_rejected() {
    let r = create_split(
        authority(),
        receiver(),
        "team".to_string(),
        1000,
        vec![entry(pk(1), 60), entry(pk(2), 41)],
        7,
    );
    assert_eq!(r.err().unwrap(), SplitError::InvalidTotalPercentage);
}

#[test]
fn create_duplicate_rejected() {
    let r = create_split(
        authority(),
        receiver(),
        "team".to_string(),
        1000,
        vec![entry(pk(1), 50), entry(pk(1), 50)],
        7,
    );
    assert_eq!(r.err().unwrap(), SplitError::DuplicateContributor);
}

#[test]
fn create_zero_percent_rejected() {
    let r = create_split(
        authority(),
        receiver(),
        "team".to_string(),
        1000,
        vec![entry(pk(1), 0), entry(pk(2), 100)],
        7,
    );
    assert_eq!(r.err().unwrap(), SplitError::ZeroPercentage);
}

#[test]
fn create_empty_list_rejected() {
    let r = create_split(authority(), receiver(), "team".to_string(), 1000, vec![], 7);
    assert_eq!(r.err().unwrap(), SplitError::NoContributors);
}

#[test]
fn create_too_many_rejected() {
    let mut contributors = Vec::new();
    for i in 0..255u64 {
        contributors.push(entry(pk(i + 1), 1));
    }
    let r = create_split(authority(), receiver(), "team".to_string(), 1000, contributors, 7);
    assert_eq!(r.err().unwrap(), SplitError::TooManyContributors);
}

#[test]
fn create_empty_name_rejected() {
    let r = create_split(
        authority(),
        receiver(),
        String::new(),
        1000,
        vec![entry(pk(1), 100)],
        7,
    );
    assert_eq!(r.err().unwrap(), SplitError::InvalidName);
}

#[test]
fn create_long_name_rejected() {
    let name: String = "x".repeat(51);
    let r = create_split(authority(), receiver(), name, 1000, vec![entry(pk(1), 100)], 7);
    assert_eq!(r.err().unwrap(), SplitError::NameTooLong);
}

#[test]
fn create_name_at_limit_accepted() {
    let name: String = "x".repeat(50);
    let r = create_split(authority(), receiver(), name, 1000, vec![entry(pk(1), 100)], 7);
    assert!(r.is_ok());
}

#[test]
fn contribute_thirty_percent_transfers_exactly_300() {
    let a = pk(1);
    let b = pk(2);
    let mut split = make(1000, vec![entry(a, 30), entry(b, 70)]);

    let event = contribute(&mut split, a, 300, 11).unwrap();
    assert_eq!(event.contributor, a);
    assert_eq!(event.amount, 300);
    assert_eq!(event.total_received, 300);
    assert!(event.has_cleared);
    assert_eq!(event.cleared_at, 11);
    assert_eq!(split.received_amount, 300);
    assert!(split.contributors[0].has_cleared);
    assert_eq!(split.contributors[0].cleared_at, 11);
    assert!(!split.contributors[1].has_cleared);

    let again = contribute(&mut split, a, 300, 12);
    assert_eq!(again.err().unwrap(), SplitError::AlreadyCleared);
    assert_eq!(split.received_amount, 300);
    assert_eq!(split.contributors[0].cleared_at, 11);
}

#[test]
fn contribute_outsider_rejected() {
    let mut split = make(1000, vec![entry(pk(1), 30), entry(pk(2), 70)]);
    let r = contribute(&mut split, pk(3), u64::MAX, 11);
    assert_eq!(r.err().unwrap(), SplitError::NotAContributor);
    assert_eq!(split.received_amount, 0);
}

#[test]
fn contribute_insufficient_balance_rejected() {
    let a = pk(1);
    let mut split = make(1000, vec![entry(a, 30), entry(pk(2), 70)]);
    let r = contribute(&mut split, a, 299, 11);
    assert_eq!(r.err().unwrap(), SplitError::InsufficientFunds);
    assert!(!split.contributors[0].has_cleared);
    assert_eq!(split.received_amount, 0);
}

#[test]
fn release_before_target_rejected() {
    let a = pk(1);
    let mut split = make(1000, vec![entry(a, 30), entry(pk(2), 70)]);
    contribute(&mut split, a, 300, 11).unwrap();
    let r = release(&mut split, authority(), receiver(), u64::MAX, 5000, 20);
    assert_eq!(r.err().unwrap(), SplitError::TargetNotReached);
    assert_eq!(split.received_amount, 300);
}

#[test]
fn release_after_full_cycle_transfers_target() {
    let a = pk(1);
    let b = pk(2);
    let mut split = make(1000, vec![entry(a, 30), entry(b, 70)]);
    contribute(&mut split, a, 300, 11).unwrap();
    contribute(&mut split, b, 700, 12).unwrap();
    assert_eq!(split.received_amount, 1000);

    let rent = 5000;
    let event = release(&mut split, authority(), receiver(), 1000 + rent, rent, 20).unwrap();
    assert_eq!(event.receiver, receiver());
    assert_eq!(event.amount, 1000);
    assert_eq!(event.released_at, 20);
    assert_eq!(split.released_at, 20);
}

#[test]
fn release_wrong_authority_rejected() {
    let a = pk(1);
    let mut split = make(1000, vec![entry(a, 100)]);
    contribute(&mut split, a, 1000, 11).unwrap();
    let r = release(&mut split, pk(999), receiver(), u64::MAX, 0, 20);
    assert_eq!(r.err().unwrap(), SplitError::Unauthorized);
    assert_eq!(split.received_amount, 1000);
}

#[test]
fn release_wrong_receiver_rejected() {
    let a = pk(1);
    let mut split = make(1000, vec![entry(a, 100)]);
    contribute(&mut split, a, 1000, 11).unwrap();
    let r = release(&mut split, authority(), pk(999), u64::MAX, 0, 20);
    assert_eq!(r.err().unwrap(), SplitError::InvalidReceiver);
}

#[test]
fn release_insufficient_pool_rejected() {
    let a = pk(1);
    let mut split = make(1000, vec![entry(a, 100)]);
    contribute(&mut split, a, 1000, 11).unwrap();
    let rent = 5000;
    let r = release(&mut split, authority(), receiver(), 1000 + rent - 1, rent, 20);
    assert_eq!(r.err().unwrap(), SplitError::InsufficientFunds);
    assert_eq!(split.received_amount, 1000);
}

#[test]
fn release_resets_record_for_new_cycle() {
    let a = pk(1);
    let b = pk(2);
    let mut split = make(1000, vec![entry(a, 30), entry(b, 70)]);
    contribute(&mut split, a, 300, 11).unwrap();
    contribute(&mut split, b, 700, 12).unwrap();
    release(&mut split, authority(), receiver(), 6000, 5000, 20).unwrap();

    assert_eq!(split.received_amount, 0);
    assert!(!split.is_released);
    for e in &split.contributors {
        assert!(!e.has_cleared);
    }

    let event = contribute(&mut split, a, 300, 30).unwrap();
    assert_eq!(event.amount, 300);
    assert_eq!(split.received_amount, 300);
}

#[test]
fn owed_amounts_round_down() {
    let a = pk(1);
    let b = pk(2);
    let mut split = make(999, vec![entry(a, 50), entry(b, 50)]);
    let first = contribute(&mut split, a, 499, 11).unwrap();
    assert_eq!(first.amount, 499);
    let second = contribute(&mut split, b, 499, 12).unwrap();
    assert_eq!(second.amount, 499);
    assert_eq!(split.received_amount, 998);

    let r = release(&mut split, authority(), receiver(), u64::MAX, 0, 20);
    assert_eq!(r.err().unwrap(), SplitError::TargetNotReached);
}

#[test]
fn huge_target_does_not_overflow() {
    let a = pk(1);
    let b = pk(2);
    let mut split = make(u64::MAX, vec![entry(a, 99), entry(b, 1)]);

    let first = contribute(&mut split, a, u64::MAX, 11).unwrap();
    assert_eq!(first.amount, 18262276632972456098);
    let second = contribute(&mut split, b, u64::MAX, 12).unwrap();
    assert_eq!(second.amount, 184467440737095516);
    assert_eq!(split.received_amount, 18446744073709551614);
}

#[test]
fn space_formula_scales_with_contributor_count() {
    assert_eq!(space_required(0), 163);
    assert_eq!(space_required(3), 163 + 3 * 42);
    assert_eq!(space_required(254), 163 + 254 * 42);
}

#[test]
fn check_invariant_accepts_fresh_and_rejects_corrupted() {
    let a = pk(1);
    let mut split = make(1000, vec![entry(a, 30), entry(pk(2), 70)]);
    assert!(split.check_invariant());
    contribute(&mut split, a, 300, 11).unwrap();
    assert!(split.check_invariant());

    split.received_amount = 999;
    assert!(!split.check_invariant());
}
