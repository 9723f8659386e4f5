use vstd::prelude::*;

verus! {

use crate::addr::{
    completion_seeds, derive_completion_address, derive_profile_address, pda_of, profile_seeds,
};
use crate::error::SolDojoError;
use crate::state::{
    CompletionView, CourseCompletion, LearnerProfile, ProfileView, MAX_SLUG_LEN, MAX_XP_PER_COURSE,
};
use crate::store::{addr_eq, Ledger, LedgerView};

/// The inputs an InitProfile invocation declares: the signer whose profile
/// is created, and the deriving program under which its address is found.
pub struct InitProfile {
    /// The signer; becomes the owner of the new profile record.
    pub authority: [u8; 32],
    /// Identity of the deriving program; part of every derived address.
    pub program_id: [u8; 32],
}

/// The inputs a RecordCompletion invocation declares beyond the
/// caller-supplied course identifier and XP award: the signer, the deriving
/// program, and the runtime clock reading for the receipt.
pub struct RecordCompletion {
    /// The signer; must own the profile record being credited.
    pub authority: [u8; 32],
    /// Identity of the deriving program; part of every derived address.
    pub program_id: [u8; 32],
    /// Clock reading (seconds since epoch) stamped onto the receipt.
    pub now: i64,
}

/// The state transition of InitProfile, given the derived profile address
/// and its proof: create the profile with zeroed counters, or fail without
/// effect when the address is occupied.
pub open spec fn init_profile_spec(
    s: LedgerView,
    authority: Seq<u8>,
    addr: Seq<u8>,
    bump: u8,
) -> (LedgerView, Result<(), SolDojoError>) {
    if s.profiles.contains_key(addr) {
        (s, Err(SolDojoError::DuplicateAddress))
    } else {
        (
            LedgerView {
                profiles: s.profiles.insert(
                    addr,
                    ProfileView { authority, courses_completed: 0, total_xp: 0, bump },
                ),
                completions: s.completions,
            },
            Ok(()),
        )
    }
}

/// The state transition of RecordCompletion, given the derived completion
/// address with its proof and the derived profile address.  Preconditions
/// are checked in order — identifier length, award bound, receipt
/// uniqueness, profile existence, ownership, counter overflow — and the
/// first violated one decides the error; each failure leaves the store
/// untouched.  On success the receipt is created and both profile counters
/// are incremented, atomically.
pub open spec fn record_completion_spec(
    s: LedgerView,
    authority: Seq<u8>,
    course_slug: Seq<u8>,
    xp_earned: u32,
    now: i64,
    caddr: Seq<u8>,
    cbump: u8,
    paddr: Seq<u8>,
) -> (LedgerView, Result<(), SolDojoError>) {
    if course_slug.len() > MAX_SLUG_LEN {
        (s, Err(SolDojoError::SlugTooLong))
    } else if xp_earned > MAX_XP_PER_COURSE {
        (s, Err(SolDojoError::XPTooHigh))
    } else if s.completions.contains_key(caddr) {
        (s, Err(SolDojoError::DuplicateAddress))
    } else if !s.profiles.contains_key(paddr) {
        (s, Err(SolDojoError::ProfileMissing))
    } else if s.profiles[paddr].authority != authority {
        (s, Err(SolDojoError::OwnerMismatch))
    } else if s.profiles[paddr].courses_completed == u32::MAX || s.profiles[paddr].total_xp as int
        + xp_earned as int > u64::MAX as int {
        (s, Err(SolDojoError::Overflow))
    } else {
        let p = s.profiles[paddr];
        (
            LedgerView {
                profiles: s.profiles.insert(
                    paddr,
                    ProfileView {
                        authority: p.authority,
                        courses_completed: (p.courses_completed + 1) as u32,
                        total_xp: (p.total_xp + xp_earned) as u64,
                        bump: p.bump,
                    },
                ),
                completions: s.completions.insert(
                    caddr,
                    CompletionView {
                        authority,
                        course_slug,
                        xp_earned,
                        completed_at: now,
                        bump: cbump,
                    },
                ),
            },
            Ok(()),
        )
    }
}

/// Create the signer's profile record at its derived address, with both
/// counters at zero and the derivation proof stored on the record.  Fails
/// with a duplicate-address error, and without effect, when the profile
/// already exists.
pub fn init_profile(ledger: &mut Ledger, ctx: &InitProfile) -> (r: Result<(), SolDojoError>)
    requires
        old(ledger).wf(),
    ensures
        final(ledger).wf(),
        (match pda_of(profile_seeds(ctx.authority@), ctx.program_id@) {
            Some(pda) => (final(ledger)@, r) == init_profile_spec(
                old(ledger)@,
                ctx.authority@,
                pda.0,
                pda.1,
            ),
            None => r == Err::<(), SolDojoError>(SolDojoError::AddressUnavailable)
                && final(ledger)@ == old(ledger)@,
        }),
{
    match derive_profile_address(&ctx.authority, &ctx.program_id) {
        None => Err(SolDojoError::AddressUnavailable),
        Some((addr, bump)) => {
            let record = LearnerProfile {
                authority: ctx.authority,
                courses_completed: 0,
                total_xp: 0,
                bump,
            };
            ledger.create_profile(&addr, record)
        },
    }
}

/// Record a completed course for the signer: create the immutable receipt
/// at its derived address and credit the signer's profile counters, all or
/// nothing.  The identifier may be at most 32 bytes and the award at most
/// 10,000 XP; the receipt must not exist yet; the profile must exist and be
/// owned by the signer; the counter increments must not overflow.  The
/// first violated condition decides the error and nothing is written.
pub fn record_completion(
    ledger: &mut Ledger,
    ctx: &RecordCompletion,
    course_slug: Vec<u8>,
    xp_earned: u32,
) -> (r: Result<(), SolDojoError>)
    requires
        old(ledger).wf(),
    ensures
        final(ledger).wf(),
        course_slug@.len() > MAX_SLUG_LEN ==> r == Err::<(), SolDojoError>(
            SolDojoError::SlugTooLong,
        ) && final(ledger)@ == old(ledger)@,
        course_slug@.len() <= MAX_SLUG_LEN && xp_earned > MAX_XP_PER_COURSE ==> r == Err::<
            (),
            SolDojoError,
        >(SolDojoError::XPTooHigh) && final(ledger)@ == old(ledger)@,
        course_slug@.len() <= MAX_SLUG_LEN && xp_earned <= MAX_XP_PER_COURSE ==> (match (
            pda_of(completion_seeds(ctx.authority@, course_slug@), ctx.program_id@),
            pda_of(profile_seeds(ctx.authority@), ctx.program_id@),
        ) {
            (Some(cpda), Some(ppda)) => (final(ledger)@, r) == record_completion_spec(
                old(ledger)@,
                ctx.authority@,
                course_slug@,
                xp_earned,
                ctx.now,
                cpda.0,
                cpda.1,
                ppda.0,
            ),
            _ => r == Err::<(), SolDojoError>(SolDojoError::AddressUnavailable) && final(ledger)@
                == old(ledger)@,
        }),
{
    // the identifier bound is checked before any address is derived: an
    // over-long identifier is a caller error, never a probing failure (a
    // seed may be at most 32 bytes, so the prober would refuse it too)
    if course_slug.len() > MAX_SLUG_LEN {
        return Err(SolDojoError::SlugTooLong);
    }
    if xp_earned > MAX_XP_PER_COURSE {
        return Err(SolDojoError::XPTooHigh);
    }
    let cderived = derive_completion_address(&ctx.authority, &course_slug, &ctx.program_id);
    let (caddr, cbump) = match cderived {
        Some(p) => p,
        None => {
            return Err(SolDojoError::AddressUnavailable);
        },
    };
    let pderived = derive_profile_address(&ctx.authority, &ctx.program_id);
    let (paddr, _pbump) = match pderived {
        Some(p) => p,
        None => {
            return Err(SolDojoError::AddressUnavailable);
        },
    };
    if ledger.has_completion_at(&caddr) {
        return Err(SolDojoError::DuplicateAddress);
    }
    let profile = match ledger.profile_at(&paddr) {
        Some(p) => p,
        None => {
            return Err(SolDojoError::ProfileMissing);
        },
    };
    if !addr_eq(&profile.authority, &ctx.authority) {
        return Err(SolDojoError::OwnerMismatch);
    }
    let new_courses = match profile.courses_completed.checked_add(1) {
        Some(v) => v,
        None => {
            return Err(SolDojoError::Overflow);
        },
    };
    let new_xp = match profile.total_xp.checked_add(xp_earned as u64) {
        Some(v) => v,
        None => {
            return Err(SolDojoError::Overflow);
        },
    };
    let receipt = CourseCompletion {
        authority: ctx.authority,
        course_slug,
        xp_earned,
        completed_at: ctx.now,
        bump: cbump,
    };
    let created = ledger.create_completion(&caddr, receipt);
    proof {
        assert(created is Ok);
    }
    let updated = LearnerProfile {
        authority: profile.authority,
        courses_completed: new_courses,
        total_xp: new_xp,
        bump: profile.bump,
    };
    ledger.set_profile(&paddr, updated);
    Ok(())
}

/// At most one profile per learner: once InitProfile has succeeded for an
/// identity, a second InitProfile at the same derived address fails with a
/// duplicate-address error, changes nothing, and the first call's record —
/// owner set to the signer, both counters zero — is still in place.
pub proof fn lemma_init_profile_at_most_once(
    s: LedgerView,
    authority: Seq<u8>,
    addr: Seq<u8>,
    bump: u8,
    bump2: u8,
)
    requires
        init_profile_spec(s, authority, addr, bump).1 is Ok,
    ensures
        ({
            let s1 = init_profile_spec(s, authority, addr, bump).0;
            &&& init_profile_spec(s1, authority, addr, bump2) == (
                s1,
                Err::<(), SolDojoError>(SolDojoError::DuplicateAddress),
            )
            &&& s1.profiles[addr] == (ProfileView {
                authority,
                courses_completed: 0,
                total_xp: 0,
                bump,
            })
        }),
{
}

/// A course identifier longer than 32 bytes makes RecordCompletion fail
/// with `SlugTooLong` and create no records.
pub proof fn lemma_slug_too_long(
    s: LedgerView,
    authority: Seq<u8>,
    course_slug: Seq<u8>,
    xp_earned: u32,
    now: i64,
    caddr: Seq<u8>,
    cbump: u8,
    paddr: Seq<u8>,
)
    requires
        course_slug.len() > MAX_SLUG_LEN,
    ensures
        record_completion_spec(s, authority, course_slug, xp_earned, now, caddr, cbump, paddr) == (
            s,
            Err::<(), SolDojoError>(SolDojoError::SlugTooLong),
        ),
{
}

/// An XP award above 10,000 makes RecordCompletion fail with `XPTooHigh`
/// and create no records (given an identifier within bounds, which is
/// checked first).
pub proof fn lemma_xp_too_high(
    s: LedgerView,
    authority: Seq<u8>,
    course_slug: Seq<u8>,
    xp_earned: u32,
    now: i64,
    caddr: Seq<u8>,
    cbump: u8,
    paddr: Seq<u8>,
)
    requires
        course_slug.len() <= MAX_SLUG_LEN,
        xp_earned > MAX_XP_PER_COURSE,
    ensures
        record_completion_spec(s, authority, course_slug, xp_earned, now, caddr, cbump, paddr) == (
            s,
            Err::<(), SolDojoError>(SolDojoError::XPTooHigh),
        ),
{
}

/// A successful RecordCompletion increments `courses_completed` by exactly
/// one and `total_xp` by exactly the award, changes no other field of the
/// profile record and no other record of the store, and files the receipt
/// under the completion address.
pub proof fn lemma_completion_increments_exactly(
    s: LedgerView,
    authority: Seq<u8>,
    course_slug: Seq<u8>,
    xp_earned: u32,
    now: i64,
    caddr: Seq<u8>,
    cbump: u8,
    paddr: Seq<u8>,
)
    requires
        record_completion_spec(s, authority, course_slug, xp_earned, now, caddr, cbump, paddr).1
            is Ok,
    ensures
        ({
            let s1 = record_completion_spec(
                s,
                authority,
                course_slug,
                xp_earned,
                now,
                caddr,
                cbump,
                paddr,
            ).0;
            let p0 = s.profiles[paddr];
            let p1 = s1.profiles[paddr];
            &&& s.profiles.contains_key(paddr)
            &&& s1.profiles.contains_key(paddr)
            &&& p1.courses_completed == p0.courses_completed + 1
            &&& p1.total_xp == p0.total_xp + xp_earned
            &&& p1.authority == p0.authority
            &&& p1.bump == p0.bump
            &&& s1.profiles == s.profiles.insert(paddr, p1)
            &&& s1.completions == s.completions.insert(
                caddr,
                (CompletionView { authority, course_slug, xp_earned, completed_at: now, bump: cbump
                }),
            )
        }),
{
}

/// Recording the same (learner, course) pair twice succeeds at most once:
/// the receipt address is a function of the pair, so the second call fails
/// with a duplicate-address error and leaves the counters as the first call
/// set them — whatever award, clock reading or proof it is given.
pub proof fn lemma_duplicate_completion_fails(
    s: LedgerView,
    authority: Seq<u8>,
    course_slug: Seq<u8>,
    xp_earned: u32,
    now: i64,
    caddr: Seq<u8>,
    cbump: u8,
    paddr: Seq<u8>,
    xp2: u32,
    now2: i64,
    cbump2: u8,
)
    requires
        record_completion_spec(s, authority, course_slug, xp_earned, now, caddr, cbump, paddr).1
            is Ok,
        xp2 <= MAX_XP_PER_COURSE,
    ensures
        ({
            let s1 = record_completion_spec(
                s,
                authority,
                course_slug,
                xp_earned,
                now,
                caddr,
                cbump,
                paddr,
            ).0;
            record_completion_spec(s1, authority, course_slug, xp2, now2, caddr, cbump2, paddr)
                == (s1, Err::<(), SolDojoError>(SolDojoError::DuplicateAddress))
        }),
{
}

/// When `total_xp` already sits at its maximum, the next RecordCompletion
/// that would award any XP fails with an overflow error before anything is
/// written: no receipt appears and no counter moves.
pub proof fn lemma_xp_overflow_aborts(
    s: LedgerView,
    authority: Seq<u8>,
    course_slug: Seq<u8>,
    xp_earned: u32,
    now: i64,
    caddr: Seq<u8>,
    cbump: u8,
    paddr: Seq<u8>,
)
    requires
        course_slug.len() <= MAX_SLUG_LEN,
        0 < xp_earned <= MAX_XP_PER_COURSE,
        !s.completions.contains_key(caddr),
        s.profiles.contains_key(paddr),
        s.profiles[paddr].authority == authority,
        s.profiles[paddr].total_xp == u64::MAX,
    ensures
        record_completion_spec(s, authority, course_slug, xp_earned, now, caddr, cbump, paddr) == (
            s,
            Err::<(), SolDojoError>(SolDojoError::Overflow),
        ),
{
}

/// Profile counters are monotonic: neither transition removes a profile
/// record, lowers one of its counters, or touches its owner or proof —
/// a successful RecordCompletion raises the counters of the credited
/// profile and every other profile is left exactly as it was.
pub proof fn lemma_counters_monotonic(
    s: LedgerView,
    authority: Seq<u8>,
    course_slug: Seq<u8>,
    xp_earned: u32,
    now: i64,
    caddr: Seq<u8>,
    cbump: u8,
    paddr: Seq<u8>,
    a: Seq<u8>,
)
    requires
        s.profiles.contains_key(a),
    ensures
        ({
            let s1 = record_completion_spec(
                s,
                authority,
                course_slug,
                xp_earned,
                now,
                caddr,
                cbump,
                paddr,
            ).0;
            &&& s1.profiles.contains_key(a)
            &&& s1.profiles[a].courses_completed >= s.profiles[a].courses_completed
            &&& s1.profiles[a].total_xp >= s.profiles[a].total_xp
            &&& s1.profiles[a].authority == s.profiles[a].authority
            &&& s1.profiles[a].bump == s.profiles[a].bump
        }),
{
}

/// Receipts are immutable: no transition rewrites an existing completion
/// record — a receipt, once filed, keeps its identifier, award, timestamp
/// and owner forever.
pub proof fn lemma_receipts_immutable(
    s: LedgerView,
    authority: Seq<u8>,
    course_slug: Seq<u8>,
    xp_earned: u32,
    now: i64,
    caddr: Seq<u8>,
    cbump: u8,
    paddr: Seq<u8>,
    a: Seq<u8>,
)
    requires
        s.completions.contains_key(a),
    ensures
        ({
            let s1 = record_completion_spec(
                s,
                authority,
                course_slug,
                xp_earned,
                now,
                caddr,
                cbump,
                paddr,
            ).0;
            &&& s1.completions.contains_key(a)
            &&& s1.completions[a] == s.completions[a]
        }),
{
}

/// InitProfile never touches an existing record: every profile present
/// before the transition is present and unchanged after it, whether the
/// transition succeeds or fails.
pub proof fn lemma_init_preserves_profiles(
    s: LedgerView,
    authority: Seq<u8>,
    addr: Seq<u8>,
    bump: u8,
    a: Seq<u8>,
)
    requires
        s.profiles.contains_key(a),
    ensures
        ({
            let s1 = init_profile_spec(s, authority, addr, bump).0;
            &&& s1.profiles.contains_key(a)
            &&& s1.profiles[a] == s.profiles[a]
        }),
{
}

} // verus!
