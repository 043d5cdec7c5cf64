//! The participant registry: a keyed store of compliance records with
//! last-writer-wins replacement, owned by the caller for the process lifetime.

use vstd::prelude::*;
use crate::moderation::{fresh_participant, is_fresh_participant, Participant};
use crate::text::str_eq;

verus! {

/// Keyed store of one compliance record per participant id.
pub struct Registry {
    records: Vec<Participant>,
}

impl Registry {
    /// The stored records, in insertion order.
    pub closed spec fn records_seq(self) -> Seq<Participant> {
        self.records@
    }

    /// No two records share an id.
    pub open spec fn wf(self) -> bool {
        forall|i: int, j: int|
            0 <= i < self.records_seq().len() && 0 <= j < self.records_seq().len() && i != j
                ==> self.records_seq()[i].id@ != self.records_seq()[j].id@
    }

    /// Some record carries this id.
    pub closed spec fn contains_id(self, id: Seq<char>) -> bool {
        exists|i: int| 0 <= i < self.records@.len() && self.records@[i].id@ == id
    }

    /// The record stored under this id.
    pub closed spec fn get_spec(self, id: Seq<char>) -> Participant {
        self.records@[choose|i: int|
            0 <= i < self.records@.len() && self.records@[i].id@ == id]
    }

    /// In a well-formed registry, any record that carries an id is the record
    /// stored under that id.
    proof fn lemma_witness_get(self, id: Seq<char>, i: int)
        requires
            self.wf(),
            0 <= i < self.records_seq().len(),
            self.records_seq()[i].id@ == id,
        ensures
            self.contains_id(id),
            self.get_spec(id) == self.records_seq()[i],
    {
        assert(self.contains_id(id));
        let k = choose|k: int| 0 <= k < self.records@.len() && self.records@[k].id@ == id;
        assert(k == i);
    }

    /// The record stored under an id carries that id.
    pub proof fn lemma_get_spec_id(self, id: Seq<char>)
        requires
            self.wf(),
            self.contains_id(id),
        ensures
            self.get_spec(id).id@ == id,
    {
        let i = choose|i: int| 0 <= i < self.records@.len() && self.records@[i].id@ == id;
        self.lemma_witness_get(id, i);
    }

    /// An empty registry.
    pub fn new() -> (r: Registry)
        ensures
            r.wf(),
            forall|x: Seq<char>| !r.contains_id(x),
            r.records_seq() == Seq::<Participant>::empty(),
    {
        let r = Registry { records: Vec::new() };
        proof {
            assert(r.records@ =~= Seq::<Participant>::empty());
        }
        r
    }

    /// Index of the record carrying this id, if any.
    fn find_index(&self, id: &str) -> (r: Option<usize>)
        ensures
            r matches Some(i) ==> i < self.records_seq().len() && self.records_seq()[i as int].id@
                == id@,
            r is None ==> !self.contains_id(id@),
    {
        let n = self.records.len();
        for i in 0..n
            invariant
                n == self.records@.len(),
                forall|j: int| 0 <= j < i ==> self.records@[j].id@ != id@,
        {
            if str_eq(self.records[i].id.as_str(), id) {
                return Some(i);
            }
        }
        None
    }

    /// Look a record up by id.
    pub fn get(&self, id: &str) -> (r: Option<&Participant>)
        requires
            self.wf(),
        ensures
            r is Some <==> self.contains_id(id@),
            r matches Some(p) ==> *p == self.get_spec(id@) && p.id@ == id@,
    {
        match self.find_index(id) {
            Some(i) => {
                proof {
                    self.lemma_witness_get(id@, i as int);
                }
                Some(&self.records[i])
            },
            None => None,
        }
    }

    /// Replace the record stored under the participant's id wholesale, or
    /// insert it; last writer wins. Every other record is untouched.
    pub fn upsert(&mut self, p: Participant)
        requires
            old(self).wf(),
        ensures
            final(self).wf(),
            final(self).contains_id(p.id@),
            final(self).get_spec(p.id@) == p,
            forall|x: Seq<char>|
                x != p.id@ ==> final(self).contains_id(x) == old(self).contains_id(x),
            forall|x: Seq<char>|
                x != p.id@ && old(self).contains_id(x) ==> final(self).get_spec(x) == old(
                    self,
                ).get_spec(x),
    {
        let ghost prev = *self;
        match self.find_index(&p.id.as_str()) {
            Some(i) => {
                let ghost pid = p.id@;
                self.records[i] = p;
                proof {
                    assert(self.records@ =~= prev.records@.update(i as int, p));
                    assert forall|k: int| 0 <= k < self.records@.len() implies self.records@[k].id@
                        == prev.records@[k].id@ by {}
                    self.lemma_witness_get(pid, i as int);
                    assert forall|x: Seq<char>| x != pid implies self.contains_id(x)
                        == prev.contains_id(x) && (prev.contains_id(x) ==> self.get_spec(x)
                        == prev.get_spec(x)) by {
                        if prev.contains_id(x) {
                            let j = choose|j: int|
                                0 <= j < prev.records@.len() && prev.records@[j].id@ == x;
                            assert(j != i);
                            self.lemma_witness_get(x, j);
                            prev.lemma_witness_get(x, j);
                        }
                        if self.contains_id(x) {
                            let j = choose|j: int|
                                0 <= j < self.records@.len() && self.records@[j].id@ == x;
                            assert(j != i);
                            assert(prev.contains_id(x));
                        }
                    }
                }
            },
            None => {
                let ghost pid = p.id@;
                let ghost n = self.records@.len() as int;
                self.records.push(p);
                proof {
                    assert forall|k: int| 0 <= k < n implies self.records@[k]
                        == prev.records@[k] by {}
                    assert(self.wf());
                    self.lemma_witness_get(pid, n);
                    assert forall|x: Seq<char>| x != pid implies self.contains_id(x)
                        == prev.contains_id(x) && (prev.contains_id(x) ==> self.get_spec(x)
                        == prev.get_spec(x)) by {
                        if prev.contains_id(x) {
                            let j = choose|j: int|
                                0 <= j < prev.records@.len() && prev.records@[j].id@ == x;
                            self.lemma_witness_get(x, j);
                            prev.lemma_witness_get(x, j);
                        }
                        if self.contains_id(x) {
                            let j = choose|j: int|
                                0 <= j < self.records@.len() && self.records@[j].id@ == x;
                            assert(j != n);
                            assert(prev.contains_id(x));
                        }
                    }
                }
            },
        }
    }

    /// Return the record stored under this id, inserting the default fresh
    /// record first if the id is unknown. Never fails.
    pub fn get_or_create(&mut self, id: &str) -> (p: Participant)
        requires
            old(self).wf(),
        ensures
            final(self).wf(),
            final(self).contains_id(id@),
            p == final(self).get_spec(id@),
            old(self).contains_id(id@) ==> *final(self) == *old(self),
            !old(self).contains_id(id@) ==> is_fresh_participant(p, id@) && (forall|x: Seq<char>|
                x != id@ ==> final(self).contains_id(x) == old(self).contains_id(x)) && (forall|
                x: Seq<char>,
            |
                x != id@ && old(self).contains_id(x) ==> final(self).get_spec(x) == old(
                    self,
                ).get_spec(x)),
    {
        match self.find_index(id) {
            Some(i) => {
                proof {
                    self.lemma_witness_get(id@, i as int);
                }
                self.records[i].clone()
            },
            None => {
                let p = fresh_participant(id);
                self.upsert(p.clone());
                p
            },
        }
    }

    /// The stored records, for bulk export.
    pub fn participants(&self) -> (r: &Vec<Participant>)
        ensures
            r@ == self.records_seq(),
    {
        &self.records
    }
}

} // verus!
