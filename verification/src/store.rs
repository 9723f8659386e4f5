use vstd::prelude::*;

verus! {

use crate::error::SolDojoError;
use crate::state::{CompletionView, CourseCompletion, LearnerProfile, ProfileView};

/// The finite map that a sequence of (address, record) entries denotes.
/// A later entry shadows an earlier one with the same address; the store
/// below never produces such a pair.
spec fn entries_map<V>(s: Seq<(Seq<u8>, V)>) -> Map<Seq<u8>, V>
    decreases s.len(),
{
    if s.len() == 0 {
        Map::empty()
    } else {
        entries_map(s.drop_last()).insert(s.last().0, s.last().1)
    }
}

/// No two entries share an address.
spec fn keys_unique<V>(s: Seq<(Seq<u8>, V)>) -> bool {
    forall|i: int, j: int| #![trigger s[i], s[j]] 0 <= i < j < s.len() ==> s[i].0 != s[j].0
}

/// An address is in the denoted map exactly when some entry carries it.
proof fn lemma_entries_map_contains<V>(s: Seq<(Seq<u8>, V)>, k: Seq<u8>)
    ensures
        entries_map(s).contains_key(k) <==> exists|i: int| 0 <= i < s.len() && s[i].0 == k,
    decreases s.len(),
{
    if s.len() > 0 {
        lemma_entries_map_contains(s.drop_last(), k);
        if s.last().0 == k {
            assert(s[s.len() - 1].0 == k);
        } else {
            if exists|i: int| 0 <= i < s.len() && s[i].0 == k {
                let i = choose|i: int| 0 <= i < s.len() && s[i].0 == k;
                assert(s.drop_last()[i] == s[i]);
            }
            if exists|i: int| 0 <= i < s.drop_last().len() && s.drop_last()[i].0 == k {
                let i = choose|i: int| 0 <= i < s.drop_last().len() && s.drop_last()[i].0 == k;
                assert(s[i].0 == k);
            }
        }
    }
}

/// Under unique addresses, the denoted map sends each entry's address to
/// that entry's record.
proof fn lemma_entries_map_index<V>(s: Seq<(Seq<u8>, V)>, i: int)
    requires
        keys_unique(s),
        0 <= i < s.len(),
    ensures
        entries_map(s).contains_key(s[i].0),
        entries_map(s)[s[i].0] == s[i].1,
    decreases s.len(),
{
    if i < s.len() - 1 {
        assert(keys_unique(s.drop_last())) by {
            assert(forall|p: int, q: int|
                0 <= p < q < s.drop_last().len() ==> s.drop_last()[p] == s[p] && s.drop_last()[q]
                    == s[q]);
        }
        assert(s.drop_last()[i] == s[i]);
        lemma_entries_map_index(s.drop_last(), i);
        assert(s[s.len() - 1].0 != s[i].0);
    }
}

/// Appending a fresh entry inserts it into the denoted map.
proof fn lemma_entries_map_push<V>(s: Seq<(Seq<u8>, V)>, k: Seq<u8>, v: V)
    ensures
        entries_map(s.push((k, v))) == entries_map(s).insert(k, v),
{
    assert(s.push((k, v)).drop_last() =~= s);
    assert(s.push((k, v)).last() == (k, v));
}

/// Overwriting the one entry that carries an address updates the denoted
/// map at that address alone.
proof fn lemma_entries_map_update<V>(s: Seq<(Seq<u8>, V)>, i: int, v: V)
    requires
        keys_unique(s),
        0 <= i < s.len(),
    ensures
        entries_map(s.update(i, (s[i].0, v))) =~= entries_map(s).insert(s[i].0, v),
    decreases s.len(),
{
    let k = s[i].0;
    let t = s.update(i, (k, v));
    if i == s.len() - 1 {
        assert(t.drop_last() =~= s.drop_last());
        assert(t.last() == (k, v));
        assert(entries_map(s.drop_last()).insert(k, v) =~= entries_map(s.drop_last()).insert(
            k,
            s.last().1,
        ).insert(k, v));
    } else {
        assert(keys_unique(s.drop_last())) by {
            assert(forall|p: int, q: int|
                0 <= p < q < s.drop_last().len() ==> s.drop_last()[p] == s[p] && s.drop_last()[q]
                    == s[q]);
        }
        assert(s.drop_last()[i] == s[i]);
        lemma_entries_map_update(s.drop_last(), i, v);
        assert(t.drop_last() =~= s.drop_last().update(i, (k, v)));
        assert(t.last() == s.last());
        assert(s.last().0 != k);
        assert(entries_map(s.drop_last()).insert(k, v).insert(s.last().0, s.last().1)
            =~= entries_map(s.drop_last()).insert(s.last().0, s.last().1).insert(k, v));
    }
}

/// The images of a sequence of profile entries.
spec fn profile_entries(s: Seq<([u8; 32], LearnerProfile)>) -> Seq<(Seq<u8>, ProfileView)> {
    Seq::new(s.len(), |i: int| (s[i].0@, s[i].1@))
}

/// The images of a sequence of completion entries.
spec fn completion_entries(s: Seq<([u8; 32], CourseCompletion)>) -> Seq<(
    Seq<u8>,
    CompletionView,
)> {
    Seq::new(s.len(), |i: int| (s[i].0@, s[i].1@))
}

/// The profile map holds an address exactly when some profile entry
/// carries it.
proof fn lemma_profile_contains(s: Seq<([u8; 32], LearnerProfile)>, k: Seq<u8>)
    ensures
        entries_map(profile_entries(s)).contains_key(k) <==> exists|i: int|
            0 <= i < s.len() && s[i].0@ == k,
{
    lemma_entries_map_contains(profile_entries(s), k);
    if exists|i: int| 0 <= i < s.len() && s[i].0@ == k {
        let i = choose|i: int| 0 <= i < s.len() && s[i].0@ == k;
        assert(profile_entries(s)[i].0 == k);
    }
    if exists|i: int| 0 <= i < profile_entries(s).len() && profile_entries(s)[i].0 == k {
        let i = choose|i: int|
            0 <= i < profile_entries(s).len() && profile_entries(s)[i].0 == k;
        assert(s[i].0@ == k);
    }
}

/// The completion map holds an address exactly when some completion entry
/// carries it.
proof fn lemma_completion_contains(s: Seq<([u8; 32], CourseCompletion)>, k: Seq<u8>)
    ensures
        entries_map(completion_entries(s)).contains_key(k) <==> exists|i: int|
            0 <= i < s.len() && s[i].0@ == k,
{
    lemma_entries_map_contains(completion_entries(s), k);
    if exists|i: int| 0 <= i < s.len() && s[i].0@ == k {
        let i = choose|i: int| 0 <= i < s.len() && s[i].0@ == k;
        assert(completion_entries(s)[i].0 == k);
    }
    if exists|i: int| 0 <= i < completion_entries(s).len() && completion_entries(s)[i].0 == k {
        let i = choose|i: int|
            0 <= i < completion_entries(s).len() && completion_entries(s)[i].0 == k;
        assert(s[i].0@ == k);
    }
}

/// An in-memory realization of the key-addressed account store the two
/// operations run against.  Each record sits at a derived address; creation
/// is create-if-absent, so an occupied address can never be overwritten.
pub struct Ledger {
    profiles: Vec<([u8; 32], LearnerProfile)>,
    completions: Vec<([u8; 32], CourseCompletion)>,
}

/// Mathematical image of a [`Ledger`]: two finite maps from address bytes
/// to record images.
#[verifier::ext_equal]
pub struct LedgerView {
    pub profiles: Map<Seq<u8>, ProfileView>,
    pub completions: Map<Seq<u8>, CompletionView>,
}

impl View for Ledger {
    type V = LedgerView;

    closed spec fn view(&self) -> LedgerView {
        LedgerView {
            profiles: entries_map(profile_entries(self.profiles@)),
            completions: entries_map(completion_entries(self.completions@)),
        }
    }
}

/// Bytewise equality of two 32-byte identities.
pub fn addr_eq(a: &[u8; 32], b: &[u8; 32]) -> (r: bool)
    ensures
        r == (a@ == b@),
{
    let mut i: usize = 0;
    while i < 32
        invariant
            0 <= i <= 32,
            forall|j: int| 0 <= j < i ==> a@[j] == b@[j],
        decreases 32 - i,
    {
        if a[i] != b[i] {
            return false;
        }
        i += 1;
    }
    proof {
        assert(a@ =~= b@);
    }
    true
}

impl Ledger {
    /// The store keeps at most one record per address.
    pub closed spec fn wf(&self) -> bool {
        keys_unique(profile_entries(self.profiles@)) && keys_unique(
            completion_entries(self.completions@),
        )
    }

    /// An empty store.
    pub fn new() -> (r: Ledger)
        ensures
            r.wf(),
            r@.profiles == Map::<Seq<u8>, ProfileView>::empty(),
            r@.completions == Map::<Seq<u8>, CompletionView>::empty(),
    {
        Ledger { profiles: Vec::new(), completions: Vec::new() }
    }

    /// Index of the profile entry at `addr`, if one exists.
    fn find_profile(&self, addr: &[u8; 32]) -> (r: Option<usize>)
        ensures
            (match r {
                Some(i) => i < self.profiles@.len() && self.profiles@[i as int].0@ == addr@,
                None => forall|i: int|
                    0 <= i < self.profiles@.len() ==> self.profiles@[i].0@ != addr@,
            }),
    {
        let n = self.profiles.len();
        let mut i: usize = 0;
        while i < n
            invariant
                0 <= i <= n,
                n == self.profiles@.len(),
                forall|j: int| 0 <= j < i ==> self.profiles@[j].0@ != addr@,
            decreases n - i,
    {
            if addr_eq(&self.profiles[i].0, addr) {
                return Some(i);
            }
            i += 1;
        }
        None
    }

    /// Index of the completion entry at `addr`, if one exists.
    fn find_completion(&self, addr: &[u8; 32]) -> (r: Option<usize>)
        ensures
            (match r {
                Some(i) => i < self.completions@.len() && self.completions@[i as int].0@ == addr@,
                None => forall|i: int|
                    0 <= i < self.completions@.len() ==> self.completions@[i].0@ != addr@,
            }),
    {
        let n = self.completions.len();
        let mut i: usize = 0;
        while i < n
            invariant
                0 <= i <= n,
                n == self.completions@.len(),
                forall|j: int| 0 <= j < i ==> self.completions@[j].0@ != addr@,
            decreases n - i,
    {
            if addr_eq(&self.completions[i].0, addr) {
                return Some(i);
            }
            i += 1;
        }
        None
    }

    /// Does a profile record exist at `addr`?
    pub fn has_profile_at(&self, addr: &[u8; 32]) -> (r: bool)
        ensures
            r == self@.profiles.contains_key(addr@),
    {
        let found = self.find_profile(addr);
        proof {
            lemma_profile_contains(self.profiles@, addr@);
        }
        found.is_some()
    }

    /// Does a completion record exist at `addr`?
    pub fn has_completion_at(&self, addr: &[u8; 32]) -> (r: bool)
        ensures
            r == self@.completions.contains_key(addr@),
    {
        let found = self.find_completion(addr);
        proof {
            lemma_completion_contains(self.completions@, addr@);
        }
        found.is_some()
    }

    /// The profile record at `addr`, if one exists.
    pub fn profile_at(&self, addr: &[u8; 32]) -> (r: Option<LearnerProfile>)
        requires
            self.wf(),
        ensures
            (match r {
                Some(p) => self@.profiles.contains_key(addr@) && p@ == self@.profiles[addr@],
                None => !self@.profiles.contains_key(addr@),
            }),
    {
        proof {
            lemma_profile_contains(self.profiles@, addr@);
        }
        match self.find_profile(addr) {
            Some(i) => {
                proof {
                    lemma_entries_map_index(profile_entries(self.profiles@), i as int);
                }
                Some(self.profiles[i].1)
            },
            None => None,
        }
    }

    /// The completion record at `addr`, if one exists.
    pub fn completion_at(&self, addr: &[u8; 32]) -> (r: Option<CourseCompletion>)
        requires
            self.wf(),
        ensures
            (match r {
                Some(c) => self@.completions.contains_key(addr@) && c@ == self@.completions[addr@],
                None => !self@.completions.contains_key(addr@),
            }),
    {
        proof {
            lemma_completion_contains(self.completions@, addr@);
        }
        match self.find_completion(addr) {
            Some(i) => {
                proof {
                    lemma_entries_map_index(
                        completion_entries(self.completions@),
                        i as int,
                    );
                }
                let e = &self.completions[i];
                Some(
                    CourseCompletion {
                        authority: e.1.authority,
                        course_slug: vstd::slice::slice_to_vec(e.1.course_slug.as_slice()),
                        xp_earned: e.1.xp_earned,
                        completed_at: e.1.completed_at,
                        bump: e.1.bump,
                    },
                )
            },
            None => None,
        }
    }

    /// Create a profile record at `addr` unless the address is occupied.
    pub fn create_profile(&mut self, addr: &[u8; 32], record: LearnerProfile) -> (r: Result<
        (),
        SolDojoError,
    >)
        requires
            old(self).wf(),
        ensures
            final(self).wf(),
            old(self)@.profiles.contains_key(addr@) ==> r == Err::<(), SolDojoError>(
                SolDojoError::DuplicateAddress,
            ) && final(self)@ == old(self)@,
            !old(self)@.profiles.contains_key(addr@) ==> r == Ok::<(), SolDojoError>(())
                && final(self)@.profiles == old(self)@.profiles.insert(addr@, record@)
                && final(self)@.completions == old(self)@.completions,
    {
        proof {
            lemma_profile_contains(self.profiles@, addr@);
        }
        match self.find_profile(addr) {
            Some(_) => Err(SolDojoError::DuplicateAddress),
            None => {
                let ghost old_entries = profile_entries(self.profiles@);
                self.profiles.push((*addr, record));
                proof {
                    assert(profile_entries(self.profiles@) =~= old_entries.push(
                        (addr@, record@),
                    ));
                    lemma_entries_map_push(old_entries, addr@, record@);
                }
                Ok(())
            },
        }
    }

    /// Create a completion record at `addr` unless the address is occupied.
    pub fn create_completion(&mut self, addr: &[u8; 32], record: CourseCompletion) -> (r: Result<
        (),
        SolDojoError,
    >)
        requires
            old(self).wf(),
        ensures
            final(self).wf(),
            old(self)@.completions.contains_key(addr@) ==> r == Err::<(), SolDojoError>(
                SolDojoError::DuplicateAddress,
            ) && final(self)@ == old(self)@,
            !old(self)@.completions.contains_key(addr@) ==> r == Ok::<(), SolDojoError>(())
                && final(self)@.completions == old(self)@.completions.insert(addr@, record@)
                && final(self)@.profiles == old(self)@.profiles,
    {
        proof {
            lemma_completion_contains(self.completions@, addr@);
        }
        match self.find_completion(addr) {
            Some(_) => Err(SolDojoError::DuplicateAddress),
            None => {
                let ghost old_entries = completion_entries(self.completions@);
                let ghost rv = record@;
                self.completions.push((*addr, record));
                proof {
                    assert(completion_entries(self.completions@) =~= old_entries.push(
                        (addr@, rv),
                    ));
                    lemma_entries_map_push(old_entries, addr@, rv);
                }
                Ok(())
            },
        }
    }

    /// Overwrite the existing profile record at `addr`.
    pub(crate) fn set_profile(&mut self, addr: &[u8; 32], record: LearnerProfile)
        requires
            old(self).wf(),
            old(self)@.profiles.contains_key(addr@),
        ensures
            final(self).wf(),
            final(self)@.profiles == old(self)@.profiles.insert(addr@, record@),
            final(self)@.completions == old(self)@.completions,
    {
        proof {
            lemma_profile_contains(self.profiles@, addr@);
        }
        match self.find_profile(addr) {
            Some(i) => {
                let ghost old_entries = profile_entries(self.profiles@);
                let e = &mut self.profiles[i];
                *e = (*addr, record);
                proof {
                    assert(profile_entries(self.profiles@) =~= old_entries.update(
                        i as int,
                        (addr@, record@),
                    ));
                    lemma_entries_map_update(old_entries, i as int, record@);
                    assert(keys_unique(profile_entries(self.profiles@)));
                }
            },
            None => {
                proof {
                    assert(false);
                }
            },
        }
    }
}

} // verus!
