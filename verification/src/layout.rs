use vstd::prelude::*;

verus! {

use vstd::bytes::{
    lemma_auto_spec_u32_to_from_le_bytes, lemma_auto_spec_u64_to_from_le_bytes,
    spec_u32_to_le_bytes, spec_u64_to_le_bytes, u32_to_le_bytes, u64_to_le_bytes,
};

use crate::state::{CompletionView, CourseCompletion, LearnerProfile, ProfileView};

/// The persisted byte image of a profile record: the store's 8-byte
/// discriminator tag, then the owner, the course counter (unsigned LE),
/// the XP counter (unsigned LE) and the derivation proof, in this order.
pub open spec fn profile_record_bytes(tag: Seq<u8>, p: ProfileView) -> Seq<u8> {
    tag + p.authority + spec_u32_to_le_bytes(p.courses_completed) + spec_u64_to_le_bytes(
        p.total_xp,
    ) + seq![p.bump]
}

/// The persisted byte image of a completion record: the store's 8-byte
/// discriminator tag, then the owner, the course identifier behind a
/// 4-byte length prefix, the award (unsigned LE), the timestamp (signed
/// LE, two's complement) and the derivation proof, in this order.
pub open spec fn completion_record_bytes(tag: Seq<u8>, c: CompletionView) -> Seq<u8> {
    tag + c.authority + spec_u32_to_le_bytes(c.course_slug.len() as u32) + c.course_slug
        + spec_u32_to_le_bytes(c.xp_earned) + spec_u64_to_le_bytes(c.completed_at as u64)
        + seq![c.bump]
}

/// Append a byte slice to a buffer.
fn push_bytes(out: &mut Vec<u8>, src: &[u8])
    requires
        old(out)@.len() + src@.len() <= usize::MAX,
    ensures
        final(out)@ == old(out)@ + src@,
{
    let n = src.len();
    let mut i: usize = 0;
    while i < n
        invariant
            0 <= i <= n,
            n == src@.len(),
            out@ =~= old(out)@ + src@.subrange(0, i as int),
        decreases n - i,
    {
        out.push(src[i]);
        proof {
            assert(src@.subrange(0, i + 1) =~= src@.subrange(0, i as int).push(src@[i as int]));
        }
        i += 1;
    }
    proof {
        assert(src@.subrange(0, n as int) =~= src@);
    }
}

impl LearnerProfile {
    /// Serialize the record into the persisted layout behind the given
    /// discriminator tag.  The image always occupies exactly
    /// [`LearnerProfile::SIZE`] bytes.
    pub fn encoded(&self, tag: &[u8; 8]) -> (r: Vec<u8>)
        ensures
            r@ == profile_record_bytes(tag@, self@),
            r@.len() == LearnerProfile::SIZE,
    {
        proof {
            lemma_auto_spec_u32_to_from_le_bytes();
            lemma_auto_spec_u64_to_from_le_bytes();
        }
        let mut out: Vec<u8> = Vec::new();
        push_bytes(&mut out, tag.as_slice());
        push_bytes(&mut out, self.authority.as_slice());
        let counter = u32_to_le_bytes(self.courses_completed);
        push_bytes(&mut out, counter.as_slice());
        let xp = u64_to_le_bytes(self.total_xp);
        push_bytes(&mut out, xp.as_slice());
        out.push(self.bump);
        proof {
            assert(out@ =~= profile_record_bytes(tag@, self@));
        }
        out
    }
}

impl CourseCompletion {
    /// Serialize the record into the persisted layout behind the given
    /// discriminator tag.  The image occupies exactly
    /// [`CourseCompletion::size`] bytes for this record's identifier.
    pub fn encoded(&self, tag: &[u8; 8]) -> (r: Vec<u8>)
        requires
            self.course_slug@.len() + 57 <= usize::MAX,
            self.course_slug@.len() <= u32::MAX,
        ensures
            r@ == completion_record_bytes(tag@, self@),
            r@.len() == 8 + 32 + (4 + self.course_slug@.len()) + 4 + 8 + 1,
    {
        proof {
            lemma_auto_spec_u32_to_from_le_bytes();
            lemma_auto_spec_u64_to_from_le_bytes();
        }
        let mut out: Vec<u8> = Vec::new();
        push_bytes(&mut out, tag.as_slice());
        push_bytes(&mut out, self.authority.as_slice());
        let len_prefix = u32_to_le_bytes(self.course_slug.len() as u32);
        push_bytes(&mut out, len_prefix.as_slice());
        push_bytes(&mut out, self.course_slug.as_slice());
        let xp = u32_to_le_bytes(self.xp_earned);
        push_bytes(&mut out, xp.as_slice());
        let at = u64_to_le_bytes(self.completed_at as u64);
        push_bytes(&mut out, at.as_slice());
        out.push(self.bump);
        proof {
            assert(out@ =~= completion_record_bytes(tag@, self@));
        }
        out
    }
}

} // verus!
