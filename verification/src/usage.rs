//! The fields that a template consumed.
//!
//! A trace belongs to one render pass. It is cleared before the pass, takes
//! the name of each optional field that the template reads during it, and is
//! read when the pass is over. It is a set: a name counts once however often
//! it is recorded, and the order of recording leaves no mark.

use vstd::prelude::*;
use vstd::string::*;
use crate::text::{same_text, texts};

verus! {

/// The set of field names that one render pass consumed.
#[derive(Debug)]
pub struct UsageTrace {
    fields: Vec<String>,
}

/// The set that recording `names` one after another into an empty trace gives.
pub open spec fn recorded(names: Seq<Seq<char>>) -> Set<Seq<char>>
    decreases names.len(),
{
    if names.len() == 0 {
        Set::empty()
    } else {
        recorded(names.drop_last()).insert(names.last())
    }
}

/// Recording gathers exactly the names that were recorded.
pub proof fn lemma_recorded_is_set(names: Seq<Seq<char>>)
    ensures
        recorded(names) == names.to_set(),
        recorded(names).finite(),
    decreases names.len(),
{
    if names.len() == 0 {
        assert(names.to_set() =~= Set::<Seq<char>>::empty());
    } else {
        lemma_recorded_is_set(names.drop_last());
        let front = names.drop_last();
        assert forall|name: Seq<char>| names.to_set().contains(name) <==> front.to_set().insert(
            names.last(),
        ).contains(name) by {
            if names.to_set().contains(name) {
                let k = choose|k: int| 0 <= k < names.len() && names[k] == name;
                if k < names.len() - 1 {
                    assert(front[k] == name);
                }
            }
            if front.to_set().contains(name) {
                let k = choose|k: int| 0 <= k < front.len() && front[k] == name;
                assert(names[k] == name);
            }
        }
        assert(names.to_set() =~= front.to_set().insert(names.last()));
    }
}

/// The order of recording, and how often a name is recorded, leave no mark:
/// two passes that read the same fields give the same trace.
pub proof fn lemma_recording_order_is_free(first: Seq<Seq<char>>, second: Seq<Seq<char>>)
    requires
        first.to_set() == second.to_set(),
    ensures
        recorded(first) == recorded(second),
{
    lemma_recorded_is_set(first);
    lemma_recorded_is_set(second);
}

impl View for UsageTrace {
    type V = Set<Seq<char>>;

    closed spec fn view(&self) -> Set<Seq<char>> {
        texts(self.fields@).to_set()
    }
}

impl UsageTrace {
    /// Returns an empty trace.
    pub fn new() -> (trace: UsageTrace)
        ensures
            trace@ == Set::<Seq<char>>::empty(),
    {
        let trace = UsageTrace { fields: Vec::new() };
        proof {
            assert(texts(trace.fields@).to_set() =~= Set::<Seq<char>>::empty());
        }
        trace
    }

    /// Forgets every name.
    pub fn clear(&mut self)
        ensures
            final(self)@ == Set::<Seq<char>>::empty(),
    {
        self.fields.clear();
        proof {
            assert(texts(self.fields@).to_set() =~= Set::<Seq<char>>::empty());
        }
    }

    /// Whether the trace holds `field`.
    pub fn contains(&self, field: &str) -> (held: bool)
        ensures
            held == self@.contains(field@),
    {
        holds(&self.fields, field)
    }

    /// Takes note that `field` was read.
    pub fn record(&mut self, field: &str)
        ensures
            final(self)@ == old(self)@.insert(field@),
    {
        if !self.contains(field) {
            let ghost before = texts(self.fields@);
            self.fields.push(String::from_str(field));
            proof {
                assert(texts(self.fields@) =~= before.push(field@));
                before.lemma_push_to_set_commute(field@);
            }
        } else {
            proof {
                assert(self@.insert(field@) =~= self@);
            }
        }
    }

    /// Takes note that each of `fields` was read.
    pub fn record_all(&mut self, fields: &Vec<String>)
        ensures
            final(self)@ == old(self)@.union(texts(fields@).to_set()),
    {
        let mut i: usize = 0;
        proof {
            assert(texts(fields@).take(0).to_set() =~= Set::<Seq<char>>::empty());
            assert(self@.union(Set::<Seq<char>>::empty()) =~= self@);
        }
        while i < fields.len()
            invariant
                i <= fields.len(),
                self@ == old(self)@.union(texts(fields@).take(i as int).to_set()),
            decreases fields.len() - i,
        {
            let ghost front = texts(fields@).take(i as int);
            self.record(fields[i].as_str());
            proof {
                assert(texts(fields@).take(i + 1) =~= front.push(fields@[i as int]@));
                front.lemma_push_to_set_commute(fields@[i as int]@);
                assert(old(self)@.union(front.to_set()).insert(fields@[i as int]@) =~= old(
                    self,
                )@.union(front.to_set().insert(fields@[i as int]@)));
            }
            i = i + 1;
        }
        proof {
            assert(texts(fields@).take(fields.len() as int) =~= texts(fields@));
        }
    }

    /// Whether the trace holds no name.
    pub fn is_empty(&self) -> (empty: bool)
        ensures
            empty == (self@ == Set::<Seq<char>>::empty()),
    {
        proof {
            if self.fields@.len() > 0 {
                assert(texts(self.fields@)[0] == self.fields@[0]@);
                assert(self@.contains(self.fields@[0]@));
            } else {
                assert(self@ =~= Set::<Seq<char>>::empty());
            }
        }
        self.fields.len() == 0
    }

    /// Returns the names that the trace holds, each once.
    pub fn snapshot(&self) -> (names: Vec<String>)
        ensures
            texts(names@).to_set() == self@,
            texts(names@).no_duplicates(),
            names.len() == self@.len(),
    {
        let mut names: Vec<String> = Vec::new();
        let mut i: usize = 0;
        proof {
            assert(texts(names@).to_set() =~= texts(self.fields@).take(0).to_set());
        }
        while i < self.fields.len()
            invariant
                i <= self.fields.len(),
                texts(names@).to_set() == texts(self.fields@).take(i as int).to_set(),
                texts(names@).no_duplicates(),
            decreases self.fields.len() - i,
        {
            let ghost before = texts(names@);
            let ghost front = texts(self.fields@).take(i as int);
            let ghost name = self.fields@[i as int]@;
            proof {
                assert(texts(self.fields@).take(i + 1) =~= front.push(name));
                front.lemma_push_to_set_commute(name);
            }
            if !holds(&names, self.fields[i].as_str()) {
                names.push(self.fields[i].clone());
                proof {
                    assert(texts(names@) =~= before.push(name));
                    before.lemma_push_to_set_commute(name);
                    assert(!before.contains(name));
                }
            } else {
                proof {
                    assert(before.to_set().insert(name) =~= before.to_set());
                }
            }
            i = i + 1;
        }
        proof {
            assert(texts(self.fields@).take(self.fields.len() as int) =~= texts(self.fields@));
            texts(names@).unique_seq_to_set();
        }
        names
    }

    /// How many names the trace holds.
    pub fn len(&self) -> (count: usize)
        ensures
            count == self@.len(),
    {
        self.snapshot().len()
    }
}

/// Whether one of `names` is `name`.
fn holds(names: &Vec<String>, name: &str) -> (held: bool)
    ensures
        held == texts(names@).to_set().contains(name@),
{
    let mut i: usize = 0;
    while i < names.len()
        invariant
            i <= names.len(),
            forall|k: int| 0 <= k < i ==> texts(names@)[k] != name@,
        decreases names.len() - i,
    {
        if same_text(names[i].as_str(), name) {
            proof {
                assert(texts(names@)[i as int] == name@);
            }
            return true;
        }
        i = i + 1;
    }
    false
}

} // verus!
