//! The shared mutable state of the handshake: the pending-request registry
//! (request id to ephemeral keypair) and the cancellation set.
//!
//! Rather than hiding this state in process-wide globals, it lives in an
//! explicit [`Session`] owned by the surrounding application and passed into
//! each operation, so independent handshake sessions never contaminate each
//! other.  Both structures are association lists with unique keys; their
//! contracts speak of the abstract `Map` and `Set` they denote.

use crate::keys::EphemeralKeyPair;
use vstd::prelude::*;

verus! {

/// The byte views of the two halves of a registered keypair: secret first,
/// public second.
pub type KeyPairView = (Seq<u8>, Seq<u8>);

/// The map denoted by a registry association list; later entries win.
pub open spec fn reg_map_of(entries: Seq<(String, EphemeralKeyPair)>) -> Map<
    Seq<char>,
    KeyPairView,
>
    decreases entries.len(),
{
    if entries.len() == 0 {
        Map::empty()
    } else {
        reg_map_of(entries.drop_last()).insert(
            entries.last().0@,
            (entries.last().1.private_key@, entries.last().1.public_key@),
        )
    }
}

/// The set denoted by a cancellation list.
pub open spec fn cancel_set_of(ids: Seq<String>) -> Set<Seq<char>>
    decreases ids.len(),
{
    if ids.len() == 0 {
        Set::empty()
    } else {
        cancel_set_of(ids.drop_last()).insert(ids.last()@)
    }
}

/// In-memory state of one group of login attempts: which request ids have a
/// live ephemeral keypair, and which have been marked for cancellation.
/// Memory-only on purpose: a process restart forgets every pending attempt,
/// and later polls for them fail fast with a distinct error.
pub struct Session {
    registry: Vec<(String, EphemeralKeyPair)>,
    cancels: Vec<String>,
}

impl Session {
    /// The pending-request registry, as a map from request id to key bytes.
    pub closed spec fn registry_map(&self) -> Map<Seq<char>, KeyPairView> {
        reg_map_of(self.registry@)
    }

    /// The cancellation set, as a set of request ids.
    pub closed spec fn cancel_set(&self) -> Set<Seq<char>> {
        cancel_set_of(self.cancels@)
    }

    /// Keys are unique in both lists, and every registered keypair is two
    /// 32-byte halves.
    pub closed spec fn wf(&self) -> bool {
        &&& forall|i: int, j: int|
            0 <= i < j < self.registry@.len() ==> self.registry@[i].0@ != self.registry@[j].0@
        &&& forall|i: int| 0 <= i < self.registry@.len() ==> (#[trigger] self.registry@[i]).1.wf()
        &&& forall|i: int, j: int|
            0 <= i < j < self.cancels@.len() ==> self.cancels@[i]@ != self.cancels@[j]@
    }

    /// A fresh session: nothing pending, nothing cancelled.
    pub fn new() -> (s: Session)
        ensures
            s.wf(),
            s.registry_map() == Map::<Seq<char>, KeyPairView>::empty(),
            s.cancel_set() == Set::<Seq<char>>::empty(),
    {
        Session { registry: Vec::new(), cancels: Vec::new() }
    }

    fn find_index(&self, request_id: &String) -> (r: Option<usize>)
        ensures
            match r {
                Some(i) => i < self.registry@.len() && self.registry@[i as int].0@ == request_id@,
                None => forall|i: int|
                    0 <= i < self.registry@.len() ==> self.registry@[i].0@ != request_id@,
            },
    {
        let mut i: usize = 0;
        while i < self.registry.len()
            invariant
                i <= self.registry@.len(),
                forall|j: int| 0 <= j < i ==> self.registry@[j].0@ != request_id@,
            decreases self.registry@.len() - i,
        {
            if self.registry[i].0 == *request_id {
                return Some(i);
            }
            i = i + 1;
        }
        None
    }

    /// Inserts a keypair for `request_id`, overwriting any entry that already
    /// exists for it.
    pub fn register(&mut self, request_id: String, kp: EphemeralKeyPair)
        requires
            old(self).wf(),
            kp.wf(),
        ensures
            final(self).wf(),
            final(self).registry_map() == old(self).registry_map().insert(
                request_id@,
                (kp.private_key@, kp.public_key@),
            ),
            final(self).cancel_set() == old(self).cancel_set(),
    {
        self.remove(&request_id);
        let ghost pre = self.registry@;
        self.registry.push((request_id, kp));
        proof {
            assert(self.registry@.drop_last() =~= pre);
            lemma_reg_contains(pre, self.registry@.last().0@);
            assert forall|i: int, j: int|
                0 <= i < j < self.registry@.len() implies self.registry@[i].0@
                != self.registry@[j].0@ by {
                if j == self.registry@.len() - 1 {
                    assert(pre[i] == self.registry@[i]);
                }
            }
            assert(final(self).registry_map() =~= old(self).registry_map().insert(
                self.registry@.last().0@,
                (self.registry@.last().1.private_key@, self.registry@.last().1.public_key@),
            ));
        }
    }

    /// Non-destructive read of the keypair registered for `request_id`; hands
    /// out a copy.
    pub fn lookup(&self, request_id: &String) -> (r: Option<EphemeralKeyPair>)
        requires
            self.wf(),
        ensures
            match r {
                Some(kp) => {
                    &&& self.registry_map().contains_key(request_id@)
                    &&& (kp.private_key@, kp.public_key@) == self.registry_map()[request_id@]
                    &&& kp.wf()
                },
                None => !self.registry_map().contains_key(request_id@),
            },
    {
        proof {
            lemma_reg_contains(self.registry@, request_id@);
        }
        match self.find_index(request_id) {
            Some(i) => {
                proof {
                    lemma_reg_index(self.registry@, i as int);
                }
                Some(self.registry[i].1.duplicate())
            },
            None => None,
        }
    }

    /// Deletes the entry for `request_id`; idempotent.
    pub fn remove(&mut self, request_id: &String)
        requires
            old(self).wf(),
        ensures
            final(self).wf(),
            final(self).registry_map() == old(self).registry_map().remove(request_id@),
            final(self).cancel_set() == old(self).cancel_set(),
    {
        proof {
            lemma_reg_contains(self.registry@, request_id@);
        }
        match self.find_index(request_id) {
            Some(i) => {
                let ghost pre = self.registry@;
                self.registry.remove(i);
                proof {
                    lemma_reg_remove(pre, i as int);
                    assert forall|p: int, q: int|
                        0 <= p < q < self.registry@.len() implies self.registry@[p].0@
                        != self.registry@[q].0@ by {
                        assert(self.registry@[p] == if p < i { pre[p] } else { pre[p + 1] });
                        assert(self.registry@[q] == if q < i { pre[q] } else { pre[q + 1] });
                    }
                    assert forall|p: int|
                        0 <= p < self.registry@.len() implies (#[trigger] self.registry@[p]).1.wf() by {
                        assert(self.registry@[p] == if p < i { pre[p] } else { pre[p + 1] });
                    }
                }
            },
            None => {
                proof {
                    assert(final(self).registry_map() =~= old(self).registry_map().remove(
                        request_id@,
                    ));
                }
            },
        }
    }

    fn find_cancel_index(&self, request_id: &String) -> (r: Option<usize>)
        ensures
            match r {
                Some(i) => i < self.cancels@.len() && self.cancels@[i as int]@ == request_id@,
                None => forall|i: int|
                    0 <= i < self.cancels@.len() ==> self.cancels@[i]@ != request_id@,
            },
    {
        let mut i: usize = 0;
        while i < self.cancels.len()
            invariant
                i <= self.cancels@.len(),
                forall|j: int| 0 <= j < i ==> self.cancels@[j]@ != request_id@,
            decreases self.cancels@.len() - i,
        {
            if self.cancels[i] == *request_id {
                return Some(i);
            }
            i = i + 1;
        }
        None
    }

    /// Marks `request_id` for cancellation; idempotent.
    pub fn mark(&mut self, request_id: String)
        requires
            old(self).wf(),
        ensures
            final(self).wf(),
            final(self).cancel_set() == old(self).cancel_set().insert(request_id@),
            final(self).registry_map() == old(self).registry_map(),
    {
        proof {
            lemma_cancel_contains(self.cancels@, request_id@);
        }
        match self.find_cancel_index(&request_id) {
            Some(_) => {
                proof {
                    assert(final(self).cancel_set() =~= old(self).cancel_set().insert(
                        request_id@,
                    ));
                }
            },
            None => {
                let ghost pre = self.cancels@;
                self.cancels.push(request_id);
                proof {
                    assert(self.cancels@.drop_last() =~= pre);
                    assert forall|i: int, j: int|
                        0 <= i < j < self.cancels@.len() implies self.cancels@[i]@
                        != self.cancels@[j]@ by {
                        if j == self.cancels@.len() - 1 {
                            assert(pre[i] == self.cancels@[i]);
                        }
                    }
                }
            },
        }
    }

    /// Whether `request_id` is marked for cancellation.
    pub fn is_marked(&self, request_id: &String) -> (r: bool)
        ensures
            r == self.cancel_set().contains(request_id@),
    {
        proof {
            lemma_cancel_contains(self.cancels@, request_id@);
        }
        self.find_cancel_index(request_id).is_some()
    }

    /// Clears the cancellation mark for `request_id`; idempotent.
    pub fn clear(&mut self, request_id: &String)
        requires
            old(self).wf(),
        ensures
            final(self).wf(),
            final(self).cancel_set() == old(self).cancel_set().remove(request_id@),
            final(self).registry_map() == old(self).registry_map(),
    {
        proof {
            lemma_cancel_contains(self.cancels@, request_id@);
        }
        match self.find_cancel_index(request_id) {
            Some(i) => {
                let ghost pre = self.cancels@;
                self.cancels.remove(i);
                proof {
                    lemma_cancel_remove(pre, i as int);
                    assert forall|p: int, q: int|
                        0 <= p < q < self.cancels@.len() implies self.cancels@[p]@
                        != self.cancels@[q]@ by {
                        assert(self.cancels@[p] == if p < i { pre[p] } else { pre[p + 1] });
                        assert(self.cancels@[q] == if q < i { pre[q] } else { pre[q + 1] });
                    }
                }
            },
            None => {
                proof {
                    assert(final(self).cancel_set() =~= old(self).cancel_set().remove(
                        request_id@,
                    ));
                }
            },
        }
    }
}

/// A registry list denotes a map containing exactly the listed keys.
proof fn lemma_reg_contains(entries: Seq<(String, EphemeralKeyPair)>, k: Seq<char>)
    ensures
        reg_map_of(entries).contains_key(k) <==> (exists|i: int|
            0 <= i < entries.len() && entries[i].0@ == k),
    decreases entries.len(),
{
    if entries.len() > 0 {
        lemma_reg_contains(entries.drop_last(), k);
        if entries.last().0@ == k {
            assert(entries[entries.len() - 1].0@ == k);
        } else {
            if exists|i: int| 0 <= i < entries.len() && entries[i].0@ == k {
                let i = choose|i: int| 0 <= i < entries.len() && entries[i].0@ == k;
                assert(entries.drop_last()[i].0@ == k);
            }
            if reg_map_of(entries.drop_last()).contains_key(k) {
                let i = choose|i: int|
                    0 <= i < entries.drop_last().len() && entries.drop_last()[i].0@ == k;
                assert(entries[i].0@ == k);
            }
        }
    }
}

/// With unique keys, the denoted map sends each listed key to its listed
/// keypair.
proof fn lemma_reg_index(entries: Seq<(String, EphemeralKeyPair)>, i: int)
    requires
        0 <= i < entries.len(),
        forall|p: int, q: int| 0 <= p < q < entries.len() ==> entries[p].0@ != entries[q].0@,
    ensures
        reg_map_of(entries).contains_key(entries[i].0@),
        reg_map_of(entries)[entries[i].0@] == (entries[i].1.private_key@, entries[i].1.public_key@),
    decreases entries.len(),
{
    if i < entries.len() - 1 {
        assert forall|p: int, q: int|
            0 <= p < q < entries.drop_last().len() implies entries.drop_last()[p].0@
            != entries.drop_last()[q].0@ by {
            assert(entries.drop_last()[p] == entries[p]);
            assert(entries.drop_last()[q] == entries[q]);
        }
        lemma_reg_index(entries.drop_last(), i);
        assert(entries.drop_last()[i] == entries[i]);
        assert(entries[i].0@ != entries.last().0@);
    }
}

/// With unique keys, removing the entry at index `i` removes exactly its key
/// from the denoted map.
proof fn lemma_reg_remove(entries: Seq<(String, EphemeralKeyPair)>, i: int)
    requires
        0 <= i < entries.len(),
        forall|p: int, q: int| 0 <= p < q < entries.len() ==> entries[p].0@ != entries[q].0@,
    ensures
        reg_map_of(entries.remove(i)) == reg_map_of(entries).remove(entries[i].0@),
    decreases entries.len(),
{
    let k = entries[i].0@;
    if i == entries.len() - 1 {
        assert(entries.remove(i) =~= entries.drop_last());
        lemma_reg_contains(entries.drop_last(), k);
        assert forall|j: int| 0 <= j < entries.drop_last().len() implies entries.drop_last()[j].0@
            != k by {
            assert(entries.drop_last()[j] == entries[j]);
        }
        assert(reg_map_of(entries.remove(i)) =~= reg_map_of(entries).remove(k));
    } else {
        assert forall|p: int, q: int|
            0 <= p < q < entries.drop_last().len() implies entries.drop_last()[p].0@
            != entries.drop_last()[q].0@ by {
            assert(entries.drop_last()[p] == entries[p]);
            assert(entries.drop_last()[q] == entries[q]);
        }
        lemma_reg_remove(entries.drop_last(), i);
        assert(entries.remove(i).drop_last() =~= entries.drop_last().remove(i));
        assert(entries.remove(i).last() == entries.last());
        assert(entries[i].0@ != entries.last().0@);
        assert(reg_map_of(entries.remove(i)) =~= reg_map_of(entries).remove(k));
    }
}

/// A cancellation list denotes the set of exactly the listed ids.
proof fn lemma_cancel_contains(ids: Seq<String>, k: Seq<char>)
    ensures
        cancel_set_of(ids).contains(k) <==> (exists|i: int| 0 <= i < ids.len() && ids[i]@ == k),
    decreases ids.len(),
{
    if ids.len() > 0 {
        lemma_cancel_contains(ids.drop_last(), k);
        if ids.last()@ == k {
            assert(ids[ids.len() - 1]@ == k);
        } else {
            if exists|i: int| 0 <= i < ids.len() && ids[i]@ == k {
                let i = choose|i: int| 0 <= i < ids.len() && ids[i]@ == k;
                assert(ids.drop_last()[i]@ == k);
            }
            if cancel_set_of(ids.drop_last()).contains(k) {
                let i = choose|i: int| 0 <= i < ids.drop_last().len() && ids.drop_last()[i]@ == k;
                assert(ids[i]@ == k);
            }
        }
    }
}

/// With unique ids, removing the entry at index `i` removes exactly its id
/// from the denoted set.
proof fn lemma_cancel_remove(ids: Seq<String>, i: int)
    requires
        0 <= i < ids.len(),
        forall|p: int, q: int| 0 <= p < q < ids.len() ==> ids[p]@ != ids[q]@,
    ensures
        cancel_set_of(ids.remove(i)) == cancel_set_of(ids).remove(ids[i]@),
    decreases ids.len(),
{
    let k = ids[i]@;
    if i == ids.len() - 1 {
        assert(ids.remove(i) =~= ids.drop_last());
        lemma_cancel_contains(ids.drop_last(), k);
        assert forall|j: int| 0 <= j < ids.drop_last().len() implies ids.drop_last()[j]@ != k by {
            assert(ids.drop_last()[j] == ids[j]);
        }
        assert(cancel_set_of(ids.remove(i)) =~= cancel_set_of(ids).remove(k));
    } else {
        assert forall|p: int, q: int|
            0 <= p < q < ids.drop_last().len() implies ids.drop_last()[p]@
            != ids.drop_last()[q]@ by {
            assert(ids.drop_last()[p] == ids[p]);
            assert(ids.drop_last()[q] == ids[q]);
        }
        lemma_cancel_remove(ids.drop_last(), i);
        assert(ids.remove(i).drop_last() =~= ids.drop_last().remove(i));
        assert(ids.remove(i).last() == ids.last());
        assert(ids[i]@ != ids.last()@);
        assert(cancel_set_of(ids.remove(i)) =~= cancel_set_of(ids).remove(k));
    }
}

} // verus!
