//! The registry of outstanding challenges.
//!
//! A registry hands out nonces and takes each of them back at most once. It
//! is an ordinary value: whoever serves requests owns it and passes it by
//! exclusive reference, which is what makes the test-and-remove of
//! [`NonceRegistry::consume`] one indivisible step.

use vstd::hash_set::StringHashSet;
use vstd::prelude::*;
use vstd::string::StringExecFns;

verus! {

/// The length of the text of a random identifier.
pub open spec fn identifier_len() -> nat {
    36
}

/// Draws a random identifier: `uuid::Uuid::new_v4`, printed with `to_string`.
///
/// Trusted: the text is the hyphenated form, which is 36 characters long.
/// Nothing is claimed of which identifier comes back. The call ends the
/// process if the system has no random bytes to give.
#[verifier::external_body]
fn random_identifier() -> (text: String)
    ensures
        text@.len() == identifier_len(),
{
    uuid::Uuid::new_v4().to_string()
}

/// Whether a consumption of `candidate` succeeds on the outstanding set.
pub open spec fn consumable(outstanding: Set<Seq<char>>, candidate: Seq<char>) -> bool {
    outstanding.contains(candidate)
}

/// The outstanding set after a consumption of `candidate` was tried.
pub open spec fn after_consume(outstanding: Set<Seq<char>>, candidate: Seq<char>) -> Set<Seq<char>> {
    outstanding.remove(candidate)
}

/// The set of outstanding nonces, with the record of what was ever issued.
pub struct NonceRegistry {
    outstanding: StringHashSet,
    issued: Ghost<Set<Seq<char>>>,
    longest: Ghost<nat>,
}

impl View for NonceRegistry {
    type V = Set<Seq<char>>;

    /// The outstanding nonces.
    closed spec fn view(&self) -> Set<Seq<char>> {
        self.outstanding@
    }
}

impl NonceRegistry {
    /// Every nonce that this registry ever took in, consumed or not.
    pub closed spec fn issued(&self) -> Set<Seq<char>> {
        self.issued@
    }

    /// The registry holds finitely many nonces; every outstanding nonce was
    /// issued, and none is longer than the longest that the registry has
    /// seen.
    pub closed spec fn wf(&self) -> bool {
        &&& self.issued@.finite()
        &&& self.outstanding@.finite()
        &&& self.outstanding@.subset_of(self.issued@)
        &&& forall|nonce: Seq<char>| #[trigger] self.issued@.contains(nonce) ==> nonce.len() <= self.longest@
    }

    /// A registry with nothing outstanding and nothing issued.
    pub fn new() -> (registry: NonceRegistry)
        ensures
            registry.wf(),
            registry@ == Set::<Seq<char>>::empty(),
            registry.issued() == Set::<Seq<char>>::empty(),
    {
        NonceRegistry {
            outstanding: StringHashSet::new(),
            issued: Ghost(Set::empty()),
            longest: Ghost(0),
        }
    }

    /// A registry holds finitely many nonces, and every outstanding one was
    /// issued.
    pub proof fn outstanding_is_finite(&self)
        requires
            self.wf(),
        ensures
            self@.finite(),
            self.issued().finite(),
            self@.subset_of(self.issued()),
            self@.len() <= self.issued().len(),
    {
        vstd::set_lib::lemma_len_subset(self@, self.issued());
    }

    /// How many nonces are outstanding.
    pub fn len(&self) -> (count: usize)
        ensures
            count == self@.len(),
    {
        self.outstanding.len()
    }

    /// Whether no nonce is outstanding.
    pub fn is_empty(&self) -> (empty: bool)
        ensures
            empty == self@.is_empty(),
    {
        self.outstanding.is_empty()
    }

    /// Whether `candidate` is outstanding.
    pub fn is_outstanding(&self, candidate: &str) -> (found: bool)
        ensures
            found == self@.contains(candidate@),
    {
        self.outstanding.contains(candidate)
    }

    /// Takes `candidate` in as an outstanding nonce, unless it is outstanding
    /// already. Says whether it was taken in.
    pub fn register(&mut self, candidate: String) -> (fresh: bool)
        requires
            old(self).wf(),
        ensures
            final(self).wf(),
            fresh == !old(self)@.contains(candidate@),
            final(self)@ == old(self)@.insert(candidate@),
            final(self).issued() == old(self).issued().insert(candidate@),
            final(self)@.len() == old(self)@.len() + if fresh {
                1nat
            } else {
                0nat
            },
    {
        let ghost text = candidate@;
        proof {
            let longest = if text.len() > self.longest@ {
                text.len()
            } else {
                self.longest@
            };
            self.longest = Ghost(longest);
            self.issued = Ghost(self.issued@.insert(text));
        }
        self.outstanding.insert(candidate)
    }

    /// Issues `candidate` as a nonce if it is not outstanding, and a longer
    /// text that starts with it if it is: random identifiers are appended
    /// until the text is new. The nonce is outstanding from now on.
    pub fn issue_from(&mut self, candidate: String) -> (nonce: String)
        requires
            old(self).wf(),
        ensures
            final(self).wf(),
            !old(self)@.contains(nonce@),
            final(self)@ == old(self)@.insert(nonce@),
            final(self).issued() == old(self).issued().insert(nonce@),
            final(self)@.len() == old(self)@.len() + 1,
            candidate@.is_prefix_of(nonce@),
            !old(self)@.contains(candidate@) ==> nonce@ == candidate@,
    {
        let ghost start = candidate@;
        let mut candidate = candidate;
        while self.outstanding.contains(candidate.as_str())
            invariant
                self.wf(),
                *self == *old(self),
                start.is_prefix_of(candidate@),
                !self@.contains(start) ==> candidate@ == start,
            decreases self.longest@ + identifier_len() - candidate@.len(),
        {
            let more = random_identifier();
            candidate.append(more.as_str());
        }
        let nonce = candidate.clone();
        self.register(candidate);
        nonce
    }

    /// Issues a fresh nonce: a random identifier, which is outstanding from
    /// now on. The nonce was not outstanding before.
    pub fn issue(&mut self) -> (nonce: String)
        requires
            old(self).wf(),
        ensures
            final(self).wf(),
            !old(self)@.contains(nonce@),
            final(self)@ == old(self)@.insert(nonce@),
            final(self).issued() == old(self).issued().insert(nonce@),
            final(self)@.len() == old(self)@.len() + 1,
            nonce@.len() >= identifier_len(),
    {
        self.issue_from(random_identifier())
    }

    /// Consumes `candidate`: removes it if it is outstanding, and says
    /// whether it was.
    pub fn consume(&mut self, candidate: &str) -> (accepted: bool)
        requires
            old(self).wf(),
        ensures
            final(self).wf(),
            accepted == consumable(old(self)@, candidate@),
            final(self)@ == after_consume(old(self)@, candidate@),
            final(self).issued() == old(self).issued(),
            !old(self).issued().contains(candidate@) ==> !accepted,
            final(self)@.len() + if accepted {
                1nat
            } else {
                0nat
            } == old(self)@.len(),
    {
        self.outstanding.remove(candidate)
    }
}

/// A nonce is consumed at most once: after a consumption of a value was
/// tried, a further consumption of that value fails.
pub proof fn consume_at_most_once(outstanding: Set<Seq<char>>, nonce: Seq<char>)
    ensures
        !consumable(after_consume(outstanding, nonce), nonce),
{
}

/// Of two consumptions of one outstanding nonce, whichever comes first
/// succeeds and the other fails: exactly one of them succeeds.
pub proof fn exactly_one_of_two_consumes(outstanding: Set<Seq<char>>, nonce: Seq<char>)
    requires
        outstanding.contains(nonce),
    ensures
        consumable(outstanding, nonce),
        !consumable(after_consume(outstanding, nonce), nonce),
{
}

/// A value that a registry never issued is not outstanding in it, so its
/// consumption fails.
pub proof fn never_issued_not_consumable(registry: &NonceRegistry, candidate: Seq<char>)
    requires
        registry.wf(),
        !registry.issued().contains(candidate),
    ensures
        !consumable(registry@, candidate),
{
}

/// Issuing a nonce raises the count of outstanding nonces by one, and
/// consuming it lowers the count by one again.
pub proof fn issue_and_consume_count(outstanding: Set<Seq<char>>, nonce: Seq<char>)
    requires
        outstanding.finite(),
        !outstanding.contains(nonce),
    ensures
        outstanding.insert(nonce).len() == outstanding.len() + 1,
        consumable(outstanding.insert(nonce), nonce),
        after_consume(outstanding.insert(nonce), nonce) == outstanding,
{
    assert(outstanding.insert(nonce).remove(nonce) =~= outstanding);
}

/// Consuming one nonce leaves every other nonce as it was.
pub proof fn consume_leaves_others(outstanding: Set<Seq<char>>, nonce: Seq<char>, other: Seq<char>)
    requires
        other != nonce,
    ensures
        consumable(after_consume(outstanding, nonce), other) == consumable(outstanding, other),
{
}

} // verus!
