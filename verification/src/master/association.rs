//! The associations of a master: one per outstation address, in the order
//! in which they were added.
use vstd::prelude::*;

use crate::app::Sequence;
use crate::master::error::{AssociationError, TaskError};

verus! {

/// The master's associations: their addresses, each at most once, oldest
/// first, and the sequence number each one's next request takes.
pub struct AssociationMap {
    addresses: Vec<u16>,
    seqs: Vec<Sequence>,
}

/// Where `address` stands in `s`.
pub open spec fn index_of(s: Seq<u16>, address: u16) -> int {
    choose|i: int| 0 <= i < s.len() && s[i] == address
}

/// In a sequence without duplicates, an address stands in one place.
pub proof fn lemma_index_of(s: Seq<u16>, address: u16, i: int)
    requires
        s.no_duplicates(),
        0 <= i < s.len(),
        s[i] == address,
    ensures
        index_of(s, address) == i,
{
    let j = index_of(s, address);
    assert(0 <= j < s.len() && s[j] == address);
}

/// `s` without the occurrences of `address`, in order.
pub open spec fn without(s: Seq<u16>, address: u16) -> Seq<u16> {
    s.filter(|x: u16| x != address)
}

/// Removing an address that does not occur changes nothing.
pub proof fn lemma_without_absent(s: Seq<u16>, address: u16)
    requires
        !s.contains(address),
    ensures
        without(s, address) == s,
    decreases s.len(),
{
    reveal(Seq::filter);
    if s.len() > 0 {
        assert(!s.drop_last().contains(address)) by {
            if s.drop_last().contains(address) {
                let k = choose|k: int| 0 <= k < s.drop_last().len() && s.drop_last()[k] == address;
                assert(s[k] == address);
            }
        }
        lemma_without_absent(s.drop_last(), address);
        assert(s.drop_last().push(s.last()) =~= s);
    }
}

/// Adding an association and then removing it leaves the associations as
/// they were.
pub proof fn lemma_register_then_remove(s: Seq<u16>, address: u16)
    requires
        !s.contains(address),
    ensures
        without(s.push(address), address) == s,
{
    reveal(Seq::filter);
    assert(s.push(address).drop_last() =~= s);
    lemma_without_absent(s, address);
}

impl View for AssociationMap {
    type V = Seq<u16>;

    closed spec fn view(&self) -> Seq<u16> {
        self.addresses@
    }
}

impl AssociationMap {
    #[verifier::type_invariant]
    spec fn well_formed(&self) -> bool {
        &&& self.addresses@.no_duplicates()
        &&& self.seqs@.len() == self.addresses@.len()
    }

    /// The sequence number that the next request to `address` takes.
    pub closed spec fn spec_seq(&self, address: u16) -> Sequence {
        self.seqs@[index_of(self.addresses@, address)]
    }

    pub fn new() -> (m: AssociationMap)
        ensures
            m@ == Seq::<u16>::empty(),
            m@.no_duplicates(),
    {
        AssociationMap { addresses: Vec::new(), seqs: Vec::new() }
    }

    /// Where `address` stands, if it does.
    fn find(&self, address: u16) -> (r: Option<usize>)
        ensures
            r is None <==> !self@.contains(address),
            r matches Some(i) ==> i < self@.len() && self@[i as int] == address,
    {
        let mut i: usize = 0;
        while i < self.addresses.len()
            invariant
                i <= self.addresses@.len(),
                forall|k: int| 0 <= k < i ==> self.addresses@[k] != address,
            decreases self.addresses.len() - i,
        {
            if self.addresses[i] == address {
                return Some(i);
            }
            i = i + 1;
        }
        None
    }

    pub fn contains(&self, address: u16) -> (b: bool)
        ensures
            b == self@.contains(address),
    {
        self.find(address).is_some()
    }

    /// Fails with `NoSuchAssociation` when no association has `address`.
    pub fn get(&self, address: u16) -> (r: Result<(), TaskError>)
        ensures
            r == if self@.contains(address) {
                Ok::<(), TaskError>(())
            } else {
                Err(TaskError::NoSuchAssociation(address))
            },
    {
        if self.contains(address) {
            Ok(())
        } else {
            Err(TaskError::NoSuchAssociation(address))
        }
    }

    /// The sequence number for the next request to `address`; the
    /// association's counter moves on by one. Fails with `NoSuchAssociation`
    /// when no association has `address`, and changes nothing then.
    pub fn increment_seq(&mut self, address: u16) -> (r: Result<Sequence, TaskError>)
        ensures
            final(self)@ == old(self)@,
            !old(self)@.contains(address) ==> r == Err::<Sequence, TaskError>(
                TaskError::NoSuchAssociation(address),
            ) && forall|a: u16| final(self).spec_seq(a) == old(self).spec_seq(a),
            old(self)@.contains(address) ==> r == Ok::<Sequence, TaskError>(
                old(self).spec_seq(address),
            ) && final(self).spec_seq(address) == old(self).spec_seq(address).spec_next(),
            forall|a: u16|
                a != address && old(self)@.contains(a) ==> final(self).spec_seq(a) == old(
                    self,
                ).spec_seq(a),
    {
        proof {
            use_type_invariant(&*self);
        }
        match self.find(address) {
            None => Err(TaskError::NoSuchAssociation(address)),
            Some(i) => {
                proof {
                    lemma_index_of(self.addresses@, address, i as int);
                }
                let current = self.seqs[i];
                let mut this = AssociationMap::new();
                std::mem::swap(&mut this, self);
                proof {
                    use_type_invariant(&this);
                }
                let AssociationMap { addresses, mut seqs } = this;
                seqs.set(i, current.next());
                *self = AssociationMap { addresses, seqs };
                proof {
                    assert forall|a: u16|
                        a != address && old(self)@.contains(a) implies self.spec_seq(a) == old(
                        self,
                    ).spec_seq(a) by {
                        let j = choose|j: int|
                            0 <= j < self.addresses@.len() && self.addresses@[j] == a;
                        lemma_index_of(self.addresses@, a, j);
                    }
                }
                Ok(current)
            },
        }
    }

    /// Adds an association, whose first request takes sequence number 0; an
    /// address that is present already is refused.
    pub fn register(&mut self, address: u16) -> (r: Result<(), AssociationError>)
        ensures
            old(self)@.contains(address) ==> r == Err::<(), AssociationError>(
                AssociationError::DuplicateAddress(address),
            ) && final(self)@ == old(self)@,
            !old(self)@.contains(address) ==> r is Ok && final(self)@ == old(self)@.push(address)
                && final(self).spec_seq(address).spec_value() == 0,
            forall|a: u16| old(self)@.contains(a) ==> final(self).spec_seq(a) == old(self).spec_seq(a),
            final(self)@.no_duplicates(),
    {
        proof {
            use_type_invariant(&*self);
        }
        if self.contains(address) {
            return Err(AssociationError::DuplicateAddress(address));
        }
        let mut this = AssociationMap::new();
        std::mem::swap(&mut this, self);
        proof {
            use_type_invariant(&this);
        }
        let AssociationMap { mut addresses, mut seqs } = this;
        let ghost old_addresses = addresses@;
        let ghost old_seqs = seqs@;
        addresses.push(address);
        seqs.push(Sequence::new(0));
        assert(addresses@.no_duplicates());
        *self = AssociationMap { addresses, seqs };
        proof {
            lemma_index_of(self.addresses@, address, old_addresses.len() as int);
            assert forall|a: u16| old_addresses.contains(a) implies self.spec_seq(a) == old(
                self,
            ).spec_seq(a) by {
                let j = choose|j: int| 0 <= j < old_addresses.len() && old_addresses[j] == a;
                lemma_index_of(old_addresses, a, j);
                lemma_index_of(self.addresses@, a, j);
            }
        }
        Ok(())
    }

    /// Removes the association with `address`, if there is one; the others
    /// keep their sequence numbers.
    pub fn remove(&mut self, address: u16)
        ensures
            final(self)@ == without(old(self)@, address),
            !final(self)@.contains(address),
            forall|a: u16| a != address ==> (final(self)@.contains(a) <==> old(self)@.contains(a)),
            forall|a: u16|
                a != address && old(self)@.contains(a) ==> final(self).spec_seq(a) == old(
                    self,
                ).spec_seq(a),
            final(self)@.no_duplicates(),
    {
        proof {
            use_type_invariant(&*self);
        }
        let ghost old_seq = self.addresses@;
        let ghost old_seqs = self.seqs@;
        let mut kept: Vec<u16> = Vec::new();
        let mut kept_seqs: Vec<Sequence> = Vec::new();
        let mut i: usize = 0;
        assert(old_seq.take(0) =~= Seq::<u16>::empty());
        proof {
            reveal(Seq::filter);
        }
        while i < self.addresses.len()
            invariant
                i <= old_seq.len(),
                self.addresses@ == old_seq,
                self.seqs@ == old_seqs,
                old_seqs.len() == old_seq.len(),
                old_seq.no_duplicates(),
                kept@ == without(old_seq.take(i as int), address),
                kept@.no_duplicates(),
                kept_seqs@.len() == kept@.len(),
                forall|k: int| 0 <= k < kept@.len() ==> kept@[k] != address,
                forall|k: int|
                    #![trigger kept@[k]]
                    0 <= k < kept@.len() ==> exists|j: int|
                        0 <= j < i && old_seq[j] == kept@[k] && old_seqs[j] == kept_seqs@[k],
                forall|j: int|
                    #![trigger old_seq[j]]
                    0 <= j < i && old_seq[j] != address ==> kept@.contains(old_seq[j]),
            decreases old_seq.len() - i,
        {
            let x = self.addresses[i];
            proof {
                reveal(Seq::filter);
                assert(old_seq.take(i + 1).drop_last() =~= old_seq.take(i as int));
                assert(old_seq.take(i + 1).last() == x);
            }
            if x != address {
                proof {
                    assert forall|k: int| 0 <= k < kept@.len() implies kept@[k] != x by {
                        let j = choose|j: int|
                            0 <= j < i && old_seq[j] == kept@[k] && old_seqs[j] == kept_seqs@[k];
                        assert(old_seq[j] != old_seq[i as int]);
                    }
                }
                let ghost old_kept = kept@;
                let ghost old_kept_seqs = kept_seqs@;
                kept.push(x);
                kept_seqs.push(self.seqs[i]);
                proof {
                    assert forall|j: int|
                        #![trigger old_seq[j]]
                        0 <= j < i + 1 && old_seq[j] != address implies kept@.contains(
                        old_seq[j],
                    ) by {
                        if j == i {
                            assert(kept@[kept@.len() - 1] == x);
                        } else {
                            assert(old_kept.contains(old_seq[j]));
                            let k = choose|k: int| 0 <= k < old_kept.len() && old_kept[k] == old_seq[j];
                            assert(kept@[k] == old_seq[j]);
                        }
                    }
                    assert forall|k: int|
                        #![trigger kept@[k]]
                        0 <= k < kept@.len() implies exists|j: int|
                        0 <= j < i + 1 && old_seq[j] == kept@[k] && old_seqs[j] == kept_seqs@[k] by {
                        if k == kept@.len() - 1 {
                            assert(old_seq[i as int] == kept@[k] && old_seqs[i as int] == kept_seqs@[k]);
                        } else {
                            assert(kept@[k] == old_kept[k] && kept_seqs@[k] == old_kept_seqs[k]);
                            let j = choose|j: int|
                                0 <= j < i && old_seq[j] == old_kept[k] && old_seqs[j] == old_kept_seqs[k];
                            assert(old_seq[j] == kept@[k] && old_seqs[j] == kept_seqs@[k]);
                        }
                    }
                }
            } else {
                proof {
                    assert forall|j: int|
                        #![trigger old_seq[j]]
                        0 <= j < i + 1 && old_seq[j] != address implies kept@.contains(
                        old_seq[j],
                    ) by {
                        assert(j < i);
                    }
                }
            }
            i = i + 1;
        }
        proof {
            assert(old_seq.take(old_seq.len() as int) =~= old_seq);
            assert forall|a: u16| a != address implies (kept@.contains(a) <==> old_seq.contains(
                a,
            )) by {
                if kept@.contains(a) {
                    let k = choose|k: int| 0 <= k < kept@.len() && kept@[k] == a;
                    let j = choose|j: int|
                        0 <= j < old_seq.len() && old_seq[j] == kept@[k] && old_seqs[j] == kept_seqs@[k];
                    assert(old_seq[j] == a);
                }
                if old_seq.contains(a) {
                    let j = choose|j: int| 0 <= j < old_seq.len() && old_seq[j] == a;
                    assert(kept@.contains(old_seq[j]));
                }
            }
        }
        *self = AssociationMap { addresses: kept, seqs: kept_seqs };
        proof {
            assert forall|a: u16|
                a != address && old_seq.contains(a) implies self.spec_seq(a) == old(self).spec_seq(
                a,
            ) by {
                assert(self.addresses@.contains(a));
                let k = choose|k: int| 0 <= k < self.addresses@.len() && self.addresses@[k] == a;
                let j = choose|j: int|
                    0 <= j < old_seq.len() && old_seq[j] == self.addresses@[k] && old_seqs[j]
                        == self.seqs@[k];
                lemma_index_of(self.addresses@, a, k);
                lemma_index_of(old_seq, a, j);
            }
        }
    }
}

} // verus!
