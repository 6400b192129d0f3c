//! The variable environment of one session: a name-to-value mapping, viewed
//! as a `Map<Seq<char>, u64>`. It is kept as a journal of bindings in which
//! the latest binding of a name wins, so no internal invariant is needed.

use vstd::prelude::*;

verus! {

/// The session environment: variable name to the bit pattern of its
/// last-assigned value.
#[derive(Debug)]
pub struct Env {
    entries: Vec<(String, u64)>,
}

/// The mapping a binding journal denotes: later entries override earlier
/// ones.
spec fn entries_map(s: Seq<(String, u64)>) -> Map<Seq<char>, u64>
    decreases s.len(),
{
    if s.len() == 0 {
        Map::empty()
    } else {
        entries_map(s.drop_last()).insert(s.last().0@, s.last().1)
    }
}

impl View for Env {
    type V = Map<Seq<char>, u64>;

    closed spec fn view(&self) -> Map<Seq<char>, u64> {
        entries_map(self.entries@)
    }
}

proof fn lemma_entries_map_push(s: Seq<(String, u64)>, e: (String, u64))
    ensures
        entries_map(s.push(e)) == entries_map(s).insert(e.0@, e.1),
{
    assert(s.push(e).drop_last() =~= s);
    assert(s.push(e).last() == e);
}

/// Dropping a non-matching last entry does not change a name's binding.
proof fn lemma_entries_map_skip_last(s: Seq<(String, u64)>, name: Seq<char>)
    requires
        s.len() > 0,
        s.last().0@ != name,
    ensures
        entries_map(s).contains_key(name) == entries_map(s.drop_last()).contains_key(name),
        entries_map(s).contains_key(name) ==> entries_map(s)[name] == entries_map(
            s.drop_last(),
        )[name],
{
}

impl Env {
    /// A fresh, empty environment.
    pub fn new() -> (r: Env)
        ensures
            r@ == Map::<Seq<char>, u64>::empty(),
    {
        Env { entries: Vec::new() }
    }

    /// The value bound to `name`, if any: the latest binding wins.
    pub fn get(&self, name: &String) -> (r: Option<u64>)
        ensures
            match r {
                Some(v) => self@.contains_key(name@) && self@[name@] == v,
                None => !self@.contains_key(name@),
            },
    {
        let mut j: usize = self.entries.len();
        proof {
            assert(self.entries@.take(j as int) =~= self.entries@);
        }
        while j > 0
            invariant
                j <= self.entries@.len(),
                self@.contains_key(name@) == entries_map(self.entries@.take(j as int)).contains_key(
                    name@,
                ),
                self@.contains_key(name@) ==> self@[name@] == entries_map(
                    self.entries@.take(j as int),
                )[name@],
            decreases j,
        {
            proof {
                assert(self.entries@.take(j as int).last() == self.entries@[j - 1]);
                assert(self.entries@.take(j as int).drop_last() =~= self.entries@.take(j - 1));
            }
            j = j - 1;
            let entry_name = &self.entries[j].0;
            if *entry_name == *name {
                return Some(self.entries[j].1);
            } else {
                proof {
                    lemma_entries_map_skip_last(self.entries@.take(j + 1), name@);
                }
            }
        }
        proof {
            assert(self.entries@.take(0) =~= Seq::<(String, u64)>::empty());
        }
        None
    }

    /// Bind `name` to `value`, overwriting any earlier binding.
    pub fn set(&mut self, name: String, value: u64)
        ensures
            final(self)@ == old(self)@.insert(name@, value),
    {
        proof {
            lemma_entries_map_push(self.entries@, (name, value));
        }
        self.entries.push((name, value));
    }

    /// An environment with the same bindings, independent of this one.
    pub fn duplicate(&self) -> (r: Env)
        ensures
            r@ == self@,
    {
        let mut out: Vec<(String, u64)> = Vec::new();
        let mut i: usize = 0;
        while i < self.entries.len()
            invariant
                i <= self.entries@.len(),
                out@ =~= self.entries@.take(i as int),
            decreases self.entries@.len() - i,
        {
            proof {
                assert(self.entries@.take(i + 1).drop_last() =~= self.entries@.take(i as int));
            }
            let name = self.entries[i].0.clone();
            let value = self.entries[i].1;
            out.push((name, value));
            i = i + 1;
        }
        proof {
            assert(self.entries@.take(self.entries@.len() as int) =~= self.entries@);
        }
        Env { entries: out }
    }
}

} // verus!
