use vstd::prelude::*;

use crate::identity::Identity;
use crate::tweet::Reaction;
use crate::tweet::Tweet;
use crate::tweet::counter;
use crate::tweet::spec_add_reaction;
use crate::tweet::spec_remove_reaction;

verus! {

/// Failures of the reaction registry, the storage layer that stands in for
/// the runtime's derived addressing.
#[derive(Clone, Copy, PartialEq, Eq, Structural, Debug)]
pub enum RegistryError {
    /// A reaction record for this (author, parent) slot already exists: a
    /// second add for the same pair is rejected here, not by the handler.
    SlotOccupied,
}

/// Does `rec` occupy the storage slot derived from `(author, parent)`?
pub open spec fn pair_matches(rec: Reaction, author: Identity, parent: Identity) -> bool {
    rec.reaction_author == author && rec.parent_tweet == parent
}

/// Some record in `s` occupies the slot derived from `(author, parent)`.
pub open spec fn seq_has_pair(s: Seq<Reaction>, author: Identity, parent: Identity) -> bool {
    exists|i: int| 0 <= i < s.len() && pair_matches(#[trigger] s[i], author, parent)
}

/// No two records in `s` occupy the same slot: the single-insert semantics
/// that the runtime's unique address derivation would enforce.
pub open spec fn unique_pairs(s: Seq<Reaction>) -> bool {
    forall|i: int, j: int|
        #![trigger s[i], s[j]]
        0 <= i < j < s.len() ==> !pair_matches(s[i], s[j].reaction_author, s[j].parent_tweet)
}

/// A mapping from derived (author, parent) slots to reaction records, with
/// single-insert / single-remove semantics. It replaces the external
/// runtime's account storage: at most one record per slot may exist, a
/// second insert for an occupied slot fails, and removal frees the slot.
pub struct ReactionRegistry {
    entries: Vec<Reaction>,
}

impl View for ReactionRegistry {
    type V = Seq<Reaction>;

    closed spec fn view(&self) -> Seq<Reaction> {
        self.entries@
    }
}

impl ReactionRegistry {
    /// An empty registry: every slot is free.
    pub fn new() -> (r: ReactionRegistry)
        ensures
            r@ == Seq::<Reaction>::empty(),
            unique_pairs(r@),
    {
        ReactionRegistry { entries: Vec::new() }
    }

    /// How many reaction records exist.
    pub fn len(&self) -> (n: usize)
        ensures
            n == self@.len(),
    {
        self.entries.len()
    }

    /// The index of the record in the slot of `(author, parent)`, if the
    /// slot is occupied.
    fn find_index(&self, author: Identity, parent: Identity) -> (r: Option<usize>)
        ensures
            match r {
                Some(i) => i < self@.len() && pair_matches(self@[i as int], author, parent),
                None => !seq_has_pair(self@, author, parent),
            },
    {
        let mut i: usize = 0;
        while i < self.entries.len()
            invariant
                i <= self@.len(),
                forall|j: int| 0 <= j < i ==> !pair_matches(#[trigger] self@[j], author, parent),
            decreases self@.len() - i,
        {
            let rec = self.entries[i];
            if rec.reaction_author.key == author.key && rec.parent_tweet.key == parent.key {
                return Some(i);
            }
            i = i + 1;
        }
        None
    }

    /// Is the slot of `(author, parent)` occupied?
    pub fn contains(&self, author: Identity, parent: Identity) -> (b: bool)
        ensures
            b == seq_has_pair(self@, author, parent),
    {
        self.find_index(author, parent).is_some()
    }

    /// The record in the slot of `(author, parent)`, if the slot is
    /// occupied.
    pub fn get(&self, author: Identity, parent: Identity) -> (r: Option<Reaction>)
        ensures
            match r {
                Some(rec) => pair_matches(rec, author, parent) && self@.contains(rec)
                    && seq_has_pair(self@, author, parent),
                None => !seq_has_pair(self@, author, parent),
            },
    {
        match self.find_index(author, parent) {
            Some(i) => {
                let rec = self.entries[i];
                proof {
                    assert(self@[i as int] == rec);
                    assert(self@.contains(rec));
                }
                Some(rec)
            },
            None => None,
        }
    }

    /// Store `rec` in the slot derived from its author and parent. Fails,
    /// mutating nothing, when that slot is already occupied — the
    /// idempotence boundary that rejects a second add for the same pair.
    pub fn insert(&mut self, rec: Reaction) -> (r: Result<(), RegistryError>)
        requires
            unique_pairs(old(self)@),
        ensures
            unique_pairs(final(self)@),
            seq_has_pair(old(self)@, rec.reaction_author, rec.parent_tweet) ==> r == Err::<
                (),
                RegistryError,
            >(RegistryError::SlotOccupied) && final(self)@ == old(self)@,
            !seq_has_pair(old(self)@, rec.reaction_author, rec.parent_tweet) ==> r == Ok::<
                (),
                RegistryError,
            >(()) && final(self)@ == old(self)@.push(rec),
            seq_has_pair(final(self)@, rec.reaction_author, rec.parent_tweet),
    {
        if self.contains(rec.reaction_author, rec.parent_tweet) {
            return Err(RegistryError::SlotOccupied);
        }
        self.entries.push(rec);
        proof {
            let s = self@;
            let n = s.len() - 1;
            assert(s[n] == rec);
            assert(seq_has_pair(s, rec.reaction_author, rec.parent_tweet));
            assert forall|i: int, j: int|
                #![trigger s[i], s[j]]
                0 <= i < j < s.len() implies !pair_matches(
                s[i],
                s[j].reaction_author,
                s[j].parent_tweet,
            ) by {
                if j == n {
                    assert(s[i] == old(self)@[i]);
                    if pair_matches(s[i], rec.reaction_author, rec.parent_tweet) {
                        assert(pair_matches(old(self)@[i], rec.reaction_author, rec.parent_tweet));
                        assert(seq_has_pair(old(self)@, rec.reaction_author, rec.parent_tweet));
                    }
                } else {
                    assert(s[i] == old(self)@[i]);
                    assert(s[j] == old(self)@[j]);
                }
            }
        }
        Ok(())
    }

    /// Free the slot of `(author, parent)` and hand back the record that
    /// occupied it, so that its allocation cost can be refunded to the
    /// author. Returns `None`, mutating nothing, when the slot is free.
    pub fn remove(&mut self, author: Identity, parent: Identity) -> (r: Option<Reaction>)
        requires
            unique_pairs(old(self)@),
        ensures
            unique_pairs(final(self)@),
            !seq_has_pair(final(self)@, author, parent),
            match r {
                Some(rec) => {
                    &&& seq_has_pair(old(self)@, author, parent)
                    &&& pair_matches(rec, author, parent)
                    &&& old(self)@.contains(rec)
                    &&& exists|i: int|
                        0 <= i < old(self)@.len() && pair_matches(
                            #[trigger] old(self)@[i],
                            author,
                            parent,
                        ) && final(self)@ == old(self)@.remove(i)
                },
                None => !seq_has_pair(old(self)@, author, parent) && final(self)@ == old(self)@,
            },
            forall|a2: Identity, p2: Identity|
                !(a2 == author && p2 == parent) ==> #[trigger] seq_has_pair(final(self)@, a2, p2)
                    == seq_has_pair(old(self)@, a2, p2),
    {
        match self.find_index(author, parent) {
            Some(i) => {
                let ghost old_seq = self@;
                let ghost ii = i as int;
                let rec = self.entries.remove(i);
                proof {
                    assert(pair_matches(old_seq[ii], author, parent));
                    assert(seq_has_pair(old_seq, author, parent));
                    assert(rec == old_seq[ii]);
                    assert(old_seq.contains(rec));
                    lemma_remove_keeps_other_pairs(old_seq, ii, author, parent);
                }
                Some(rec)
            },
            None => None,
        }
    }
}

/// Removing the one record of a slot from a registry with unique slots
/// frees exactly that slot: every other slot keeps its occupancy, and the
/// remaining records still occupy distinct slots.
proof fn lemma_remove_keeps_other_pairs(
    s: Seq<Reaction>,
    i: int,
    author: Identity,
    parent: Identity,
)
    requires
        unique_pairs(s),
        0 <= i < s.len(),
        pair_matches(s[i], author, parent),
    ensures
        unique_pairs(s.remove(i)),
        !seq_has_pair(s.remove(i), author, parent),
        forall|a2: Identity, p2: Identity|
            !(a2 == author && p2 == parent) ==> #[trigger] seq_has_pair(s.remove(i), a2, p2)
                == seq_has_pair(s, a2, p2),
{
    s.remove_ensures(i);
    let t = s.remove(i);
    assert forall|k: int| 0 <= k < t.len() implies #[trigger] t[k] == s[orig_index(i, k)] by {
        if k < i {
            assert(t[k] == s[k]);
        } else {
            assert(t[k] == s[k + 1]);
        }
    }
    assert forall|i2: int, j2: int|
        #![trigger t[i2], t[j2]]
        0 <= i2 < j2 < t.len() implies !pair_matches(t[i2], t[j2].reaction_author, t[j2].parent_tweet) by {
        let a = orig_index(i, i2);
        let b = orig_index(i, j2);
        assert(t[i2] == s[a]);
        assert(t[j2] == s[b]);
        assert(0 <= a < b < s.len());
        assert(!pair_matches(s[a], s[b].reaction_author, s[b].parent_tweet));
    }
    assert forall|k: int| 0 <= k < t.len() implies !pair_matches(#[trigger] t[k], author, parent) by {
        let a = orig_index(i, k);
        assert(t[k] == s[a]);
        assert(a != i);
        if a < i {
            assert(!pair_matches(s[a], s[i].reaction_author, s[i].parent_tweet));
        } else {
            assert(!pair_matches(s[i], s[a].reaction_author, s[a].parent_tweet));
            assert(s[i].reaction_author == author && s[i].parent_tweet == parent);
        }
    }
    assert forall|a2: Identity, p2: Identity|
        !(a2 == author && p2 == parent) implies #[trigger] seq_has_pair(t, a2, p2) == seq_has_pair(
        s,
        a2,
        p2,
    ) by {
        if seq_has_pair(t, a2, p2) {
            let k = choose|k: int| 0 <= k < t.len() && pair_matches(#[trigger] t[k], a2, p2);
            let a = orig_index(i, k);
            assert(t[k] == s[a]);
            assert(pair_matches(s[a], a2, p2));
        }
        if seq_has_pair(s, a2, p2) {
            let k = choose|k: int| 0 <= k < s.len() && pair_matches(#[trigger] s[k], a2, p2);
            assert(k != i);
            if k < i {
                assert(t[k] == s[k]);
                assert(pair_matches(t[k], a2, p2));
            } else {
                assert(t[k - 1] == s[k]);
                assert(pair_matches(t[k - 1], a2, p2));
            }
        }
    }
}

/// The index in the original sequence that position `k` of `s.remove(i)`
/// came from.
spec fn orig_index(i: int, k: int) -> int {
    if k < i {
        k
    } else {
        k + 1
    }
}

/// Law: adding a reaction to a free (author, parent) slot and then removing
/// that same slot is the identity, on the parent record and on the registry
/// alike. The counter that the reaction's kind selects nets to zero, and
/// the reaction record no longer exists afterward.
pub proof fn lemma_add_remove_round_trip(s: Seq<Reaction>, t: Tweet, rec: Reaction)
    requires
        unique_pairs(s),
        !seq_has_pair(s, rec.reaction_author, rec.parent_tweet),
        counter(t, rec.reaction) < u64::MAX,
    ensures
        spec_remove_reaction(spec_add_reaction(t, rec.reaction), rec.reaction) == t,
        counter(spec_add_reaction(t, rec.reaction), rec.reaction) > 0,
        seq_has_pair(s.push(rec), rec.reaction_author, rec.parent_tweet),
        s.push(rec).remove(s.len() as int) == s,
        !seq_has_pair(s.push(rec).remove(s.len() as int), rec.reaction_author, rec.parent_tweet),
{
    let p = s.push(rec);
    let n = s.len() as int;
    assert(p[n] == rec);
    assert(pair_matches(p[n], rec.reaction_author, rec.parent_tweet));
    p.remove_ensures(n);
    assert forall|k: int| 0 <= k < s.len() implies #[trigger] p.remove(n)[k] == s[k] by {
        assert(p.remove(n)[k] == p[k]);
        assert(p[k] == s[k]);
    }
    assert(p.remove(n) =~= s);
}

} // verus!
