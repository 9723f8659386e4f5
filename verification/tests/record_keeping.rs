use soldojo::addr::{derive_completion_address, derive_profile_address};
use soldojo::{
    init_profile, record_completion, CourseCompletion, InitProfile, Ledger, LearnerProfile,
    RecordCompletion, SolDojoError,
};

const PROGRAM_ID: [u8; 32] = [7u8; 32];

fn learner(tag: u8) -> [u8; 32] {
    let mut id = [0u8; 32];
    id[0] = tag;
    id
}

fn init_ctx(authority: [u8; 32]) -> InitProfile {
    InitProfile { authority, program_id: PROGRAM_ID }
}

fn completion_ctx(authority: [u8; 32], now: i64) -> RecordCompletion {
    RecordCompletion { authority, program_id: PROGRAM_ID, now }
}

fn profile_of(ledger: &Ledger, authority: [u8; 32]) -> Option<LearnerProfile> {
    let (addr, _bump) = derive_profile_address(&authority, &PROGRAM_ID).unwrap();
    ledger.profile_at(&addr)
}

fn completion_of(ledger: &Ledger, authority: [u8; 32], slug: &[u8]) -> Option<CourseCompletion> {
    let (addr, _bump) =
        derive_completion_address(&authority, &slug.to_vec(), &PROGRAM_ID).unwrap();
    ledger.completion_at(&addr)
}

#[test]
fn init_profile_creates_zeroed_profile() {
    let mut ledger = Ledger::new();
    let a = learner(1);
    assert_eq!(init_profile(&mut ledger, &init_ctx(a)), Ok(()));
    let p = profile_of(&ledger, a).unwrap();
    assert_eq!(p.authority, a);
    assert_eq!(p.courses_completed, 0);
    assert_eq!(p.total_xp, 0);
}

#[test]
fn second_init_profile_fails_and_keeps_first_record() {
    let mut ledger = Ledger::new();
    let a = learner(2);
    assert_eq!(init_profile(&mut ledger, &init_ctx(a)), Ok(()));
    let ctx = completion_ctx(a, 10);
    assert_eq!(record_completion(&mut ledger, &ctx, b"rust-101".to_vec(), 500), Ok(()));
    assert_eq!(
        init_profile(&mut ledger, &init_ctx(a)),
        Err(SolDojoError::DuplicateAddress)
    );
    let p = profile_of(&ledger, a).unwrap();
    assert_eq!(p.authority, a);
    assert_eq!(p.courses_completed, 1);
    assert_eq!(p.total_xp, 500);
}

#[test]
fn slug_longer_than_32_bytes_is_rejected() {
    let mut ledger = Ledger::new();
    let a = learner(3);
    assert_eq!(init_profile(&mut ledger, &init_ctx(a)), Ok(()));
    let slug = vec![b'x'; 33];
    assert_eq!(
        record_completion(&mut ledger, &completion_ctx(a, 10), slug, 100),
        Err(SolDojoError::SlugTooLong)
    );
    let p = profile_of(&ledger, a).unwrap();
    assert_eq!(p.courses_completed, 0);
    assert_eq!(p.total_xp, 0);
}

#[test]
fn slug_of_exactly_32_bytes_is_accepted() {
    let mut ledger = Ledger::new();
    let a = learner(4);
    assert_eq!(init_profile(&mut ledger, &init_ctx(a)), Ok(()));
    let slug = vec![b'y'; 32];
    assert_eq!(record_completion(&mut ledger, &completion_ctx(a, 10), slug, 100), Ok(()));
    let p = profile_of(&ledger, a).unwrap();
    assert_eq!(p.courses_completed, 1);
    assert_eq!(p.total_xp, 100);
}

#[test]
fn xp_above_10000_is_rejected() {
    let mut ledger = Ledger::new();
    let a = learner(5);
    assert_eq!(init_profile(&mut ledger, &init_ctx(a)), Ok(()));
    assert_eq!(
        record_completion(&mut ledger, &completion_ctx(a, 10), b"rust-101".to_vec(), 10_001),
        Err(SolDojoError::XPTooHigh)
    );
    assert!(completion_of(&ledger, a, b"rust-101").is_none());
    let p = profile_of(&ledger, a).unwrap();
    assert_eq!(p.courses_completed, 0);
    assert_eq!(p.total_xp, 0);
}

#[test]
fn xp_of_exactly_10000_is_accepted() {
    let mut ledger = Ledger::new();
    let a = learner(6);
    assert_eq!(init_profile(&mut ledger, &init_ctx(a)), Ok(()));
    assert_eq!(
        record_completion(&mut ledger, &completion_ctx(a, 10), b"rust-101".to_vec(), 10_000),
        Ok(())
    );
    assert_eq!(profile_of(&ledger, a).unwrap().total_xp, 10_000);
}

#[test]
fn completion_updates_both_counters_and_files_receipt() {
    let mut ledger = Ledger::new();
    let a = learner(7);
    assert_eq!(init_profile(&mut ledger, &init_ctx(a)), Ok(()));
    assert_eq!(
        record_completion(&mut ledger, &completion_ctx(a, 1_700_000_000), b"rust-101".to_vec(), 500),
        Ok(())
    );
    let p = profile_of(&ledger, a).unwrap();
    assert_eq!(p.authority, a);
    assert_eq!(p.courses_completed, 1);
    assert_eq!(p.total_xp, 500);
    let c = completion_of(&ledger, a, b"rust-101").unwrap();
    assert_eq!(c.authority, a);
    assert_eq!(c.course_slug, b"rust-101".to_vec());
    assert_eq!(c.xp_earned, 500);
    assert_eq!(c.completed_at, 1_700_000_000);
}

#[test]
fn duplicate_completion_fails_and_keeps_counters() {
    let mut ledger = Ledger::new();
    let a = learner(8);
    assert_eq!(init_profile(&mut ledger, &init_ctx(a)), Ok(()));
    assert_eq!(
        record_completion(&mut ledger, &completion_ctx(a, 10), b"rust-101".to_vec(), 500),
        Ok(())
    );
    assert_eq!(
        record_completion(&mut ledger, &completion_ctx(a, 20), b"rust-101".to_vec(), 500),
        Err(SolDojoError::DuplicateAddress)
    );
    let p = profile_of(&ledger, a).unwrap();
    assert_eq!(p.courses_completed, 1);
    assert_eq!(p.total_xp, 500);
    // the receipt still carries the first call's timestamp
    assert_eq!(completion_of(&ledger, a, b"rust-101").unwrap().completed_at, 10);
}

#[test]
fn record_completion_without_profile_fails() {
    let mut ledger = Ledger::new();
    let a = learner(9);
    assert_eq!(
        record_completion(&mut ledger, &completion_ctx(a, 10), b"rust-101".to_vec(), 500),
        Err(SolDojoError::ProfileMissing)
    );
    assert!(completion_of(&ledger, a, b"rust-101").is_none());
}

#[test]
fn record_completion_for_foreign_profile_fails() {
    let mut ledger = Ledger::new();
    let a = learner(10);
    let other = learner(11);
    // a profile record that sits at a's derived address but is owned by
    // someone else must not be credited
    let (paddr, bump) = derive_profile_address(&a, &PROGRAM_ID).unwrap();
    let foreign = LearnerProfile { authority: other, courses_completed: 0, total_xp: 0, bump };
    assert_eq!(ledger.create_profile(&paddr, foreign), Ok(()));
    assert_eq!(
        record_completion(&mut ledger, &completion_ctx(a, 10), b"rust-101".to_vec(), 500),
        Err(SolDojoError::OwnerMismatch)
    );
    assert!(completion_of(&ledger, a, b"rust-101").is_none());
}

#[test]
fn xp_at_maximum_aborts_without_any_effect() {
    let mut ledger = Ledger::new();
    let a = learner(12);
    let (paddr, bump) = derive_profile_address(&a, &PROGRAM_ID).unwrap();
    let saturated = LearnerProfile {
        authority: a,
        courses_completed: 3,
        total_xp: u64::MAX,
        bump,
    };
    assert_eq!(ledger.create_profile(&paddr, saturated), Ok(()));
    assert_eq!(
        record_completion(&mut ledger, &completion_ctx(a, 10), b"rust-101".to_vec(), 1),
        Err(SolDojoError::Overflow)
    );
    assert!(completion_of(&ledger, a, b"rust-101").is_none());
    let p = profile_of(&ledger, a).unwrap();
    assert_eq!(p.courses_completed, 3);
    assert_eq!(p.total_xp, u64::MAX);
}

#[test]
fn courses_counter_at_maximum_aborts_without_any_effect() {
    let mut ledger = Ledger::new();
    let a = learner(13);
    let (paddr, bump) = derive_profile_address(&a, &PROGRAM_ID).unwrap();
    let saturated = LearnerProfile {
        authority: a,
        courses_completed: u32::MAX,
        total_xp: 9,
        bump,
    };
    assert_eq!(ledger.create_profile(&paddr, saturated), Ok(()));
    assert_eq!(
        record_completion(&mut ledger, &completion_ctx(a, 10), b"rust-101".to_vec(), 1),
        Err(SolDojoError::Overflow)
    );
    assert!(completion_of(&ledger, a, b"rust-101").is_none());
    assert_eq!(profile_of(&ledger, a).unwrap().courses_completed, u32::MAX);
}

#[test]
fn scenario_two_courses() {
    let mut ledger = Ledger::new();
    let a = learner(14);
    assert_eq!(init_profile(&mut ledger, &init_ctx(a)), Ok(()));
    let p = profile_of(&ledger, a).unwrap();
    assert_eq!((p.courses_completed, p.total_xp), (0, 0));

    assert_eq!(
        record_completion(&mut ledger, &completion_ctx(a, 100), b"rust-101".to_vec(), 500),
        Ok(())
    );
    assert_eq!(completion_of(&ledger, a, b"rust-101").unwrap().xp_earned, 500);
    let p = profile_of(&ledger, a).unwrap();
    assert_eq!((p.courses_completed, p.total_xp), (1, 500));

    assert_eq!(
        record_completion(&mut ledger, &completion_ctx(a, 200), b"rust-101".to_vec(), 500),
        Err(SolDojoError::DuplicateAddress)
    );
    let p = profile_of(&ledger, a).unwrap();
    assert_eq!((p.courses_completed, p.total_xp), (1, 500));

    assert_eq!(
        record_completion(&mut ledger, &completion_ctx(a, 300), b"go-201".to_vec(), 9_999),
        Ok(())
    );
    let p = profile_of(&ledger, a).unwrap();
    assert_eq!((p.courses_completed, p.total_xp), (2, 10_499));
}

#[test]
fn occupancy_checks_track_creation() {
    let mut ledger = Ledger::new();
    let a = learner(17);
    let (paddr, _bump) = derive_profile_address(&a, &PROGRAM_ID).unwrap();
    let (caddr, _cbump) =
        derive_completion_address(&a, &b"rust-101".to_vec(), &PROGRAM_ID).unwrap();
    assert!(!ledger.has_profile_at(&paddr));
    assert!(!ledger.has_completion_at(&caddr));
    assert_eq!(init_profile(&mut ledger, &init_ctx(a)), Ok(()));
    assert!(ledger.has_profile_at(&paddr));
    assert!(!ledger.has_completion_at(&caddr));
    assert_eq!(
        record_completion(&mut ledger, &completion_ctx(a, 10), b"rust-101".to_vec(), 500),
        Ok(())
    );
    assert!(ledger.has_completion_at(&caddr));
}

#[test]
fn profiles_of_distinct_learners_are_independent() {
    let mut ledger = Ledger::new();
    let a = learner(15);
    let b = learner(16);
    assert_eq!(init_profile(&mut ledger, &init_ctx(a)), Ok(()));
    assert_eq!(init_profile(&mut ledger, &init_ctx(b)), Ok(()));
    assert_eq!(
        record_completion(&mut ledger, &completion_ctx(a, 10), b"rust-101".to_vec(), 500),
        Ok(())
    );
    assert_eq!(profile_of(&ledger, a).unwrap().total_xp, 500);
    assert_eq!(profile_of(&ledger, b).unwrap().total_xp, 0);
    // the same course can be completed by a different learner
    assert_eq!(
        record_completion(&mut ledger, &completion_ctx(b, 20), b"rust-101".to_vec(), 700),
        Ok(())
    );
    assert_eq!(profile_of(&ledger, b).unwrap().total_xp, 700);
}
