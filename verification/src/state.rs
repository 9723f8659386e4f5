use vstd::prelude::*;

verus! {

/// The per-course XP award may not exceed this value.
pub const MAX_XP_PER_COURSE: u32 = 10_000;

/// The course identifier may not be longer than this many bytes.
pub const MAX_SLUG_LEN: usize = 32;

/// Cumulative per-learner counters.  Created once per learner and then only
/// ever incremented; the owner and the derivation proof are fixed at
/// creation.
#[derive(Clone, Copy)]
pub struct LearnerProfile {
    /// Identity of the learner that owns this profile (set once).
    pub authority: [u8; 32],
    /// How many distinct courses this learner has completed.
    pub courses_completed: u32,
    /// Total experience points awarded across all completions.
    pub total_xp: u64,
    /// Derivation proof of this record's storage address.
    pub bump: u8,
}

/// Mathematical image of a [`LearnerProfile`].
#[verifier::ext_equal]
pub struct ProfileView {
    pub authority: Seq<u8>,
    pub courses_completed: u32,
    pub total_xp: u64,
    pub bump: u8,
}

impl View for LearnerProfile {
    type V = ProfileView;

    open spec fn view(&self) -> ProfileView {
        ProfileView {
            authority: self.authority@,
            courses_completed: self.courses_completed,
            total_xp: self.total_xp,
            bump: self.bump,
        }
    }
}

impl LearnerProfile {
    /// Fixed byte size of a persisted profile record: an 8-byte
    /// discriminator tag, the owner, the two counters and the proof byte.
    pub const SIZE: usize = 8 + 32 + 4 + 8 + 1;
}

/// Immutable receipt for one (learner, course) pair.  Written exactly once;
/// never mutated or deleted afterwards.
pub struct CourseCompletion {
    /// Identity of the learner the receipt belongs to.
    pub authority: [u8; 32],
    /// Course identifier, at most 32 bytes.
    pub course_slug: Vec<u8>,
    /// XP awarded for this completion, at most 10,000.
    pub xp_earned: u32,
    /// Runtime clock reading (seconds since epoch) at write time.
    pub completed_at: i64,
    /// Derivation proof of this record's storage address.
    pub bump: u8,
}

/// Mathematical image of a [`CourseCompletion`].
#[verifier::ext_equal]
pub struct CompletionView {
    pub authority: Seq<u8>,
    pub course_slug: Seq<u8>,
    pub xp_earned: u32,
    pub completed_at: i64,
    pub bump: u8,
}

impl View for CourseCompletion {
    type V = CompletionView;

    open spec fn view(&self) -> CompletionView {
        CompletionView {
            authority: self.authority@,
            course_slug: self.course_slug@,
            xp_earned: self.xp_earned,
            completed_at: self.completed_at,
            bump: self.bump,
        }
    }
}

impl CourseCompletion {
    /// Byte size of a persisted completion record for the given course
    /// identifier: an 8-byte discriminator tag, the owner, a 4-byte length
    /// prefix plus the identifier's bytes, the award, the timestamp and the
    /// proof byte.
    pub fn size(slug: &Vec<u8>) -> (r: usize)
        requires
            slug@.len() + 57 <= usize::MAX,
        ensures
            r == 8 + 32 + (4 + slug@.len()) + 4 + 8 + 1,
    {
        8 + 32 + (4 + slug.len()) + 4 + 8 + 1
    }
}

} // verus!
