use vstd::prelude::*;

use crate::value::{value_of, PhpVariable, Val};

verus! {

/// The index of the first key at or after `from` that is `name`.
pub open spec fn find_key(keys: Seq<Seq<char>>, name: Seq<char>, from: int) -> Option<int>
    decreases keys.len() - from,
{
    if from < 0 || from >= keys.len() {
        None
    } else if keys[from] == name {
        Some(from)
    } else {
        find_key(keys, name, from + 1)
    }
}

/// The keys of a list of keyed entries, in order.
pub open spec fn keys_of<V>(entries: Seq<(String, V)>) -> Seq<Seq<char>> {
    entries.map_values(|e: (String, V)| e.0@)
}

proof fn lemma_find_key_in_range(keys: Seq<Seq<char>>, name: Seq<char>, from: int)
    ensures
        find_key(keys, name, from) is Some ==> from <= find_key(keys, name, from)->0 < keys.len()
            && keys[find_key(keys, name, from)->0] == name,
    decreases keys.len() - from,
{
    if 0 <= from < keys.len() && keys[from] != name {
        lemma_find_key_in_range(keys, name, from + 1);
    }
}

proof fn lemma_find_key_push(keys: Seq<Seq<char>>, k: Seq<char>, name: Seq<char>, from: int)
    requires
        0 <= from,
    ensures
        find_key(keys.push(k), name, from) == (if find_key(keys, name, from) is Some {
            find_key(keys, name, from)
        } else if from <= keys.len() && k == name {
            Some(keys.len() as int)
        } else {
            None
        }),
    decreases keys.len() + 1 - from,
{
    if from < keys.len() {
        assert(keys.push(k)[from] == keys[from]);
        lemma_find_key_push(keys, k, name, from + 1);
    } else if from == keys.len() {
        assert(keys.push(k)[from] == k);
        assert(find_key(keys.push(k), name, from + 1) is None);
    }
}

/// The position of the first entry whose key is `name`.
pub fn position_of<V>(entries: &Vec<(String, V)>, name: &String) -> (r: Option<usize>)
    ensures
        match r {
            Some(i) => find_key(keys_of(entries@), name@, 0) == Some(i as int) && i < entries@.len(),
            None => find_key(keys_of(entries@), name@, 0) is None,
        },
{
    let ghost keys = keys_of(entries@);
    let mut i: usize = 0;
    while i < entries.len()
        invariant
            0 <= i <= entries@.len(),
            keys == keys_of(entries@),
            find_key(keys, name@, 0) == find_key(keys, name@, i as int),
        decreases entries@.len() - i,
    {
        if entries[i].0 == *name {
            return Some(i);
        }
        i = i + 1;
    }
    None
}

/// The bindings that a list of entries stands for: each name is bound to the
/// value of its first entry.
pub open spec fn bindings(entries: Seq<(String, PhpVariable)>) -> Map<Seq<char>, Val> {
    Map::new(
        |k: Seq<char>| find_key(keys_of(entries), k, 0) is Some,
        |k: Seq<char>| value_of(entries[find_key(keys_of(entries), k, 0)->0].1),
    )
}

proof fn lemma_bindings_push(entries: Seq<(String, PhpVariable)>, e: (String, PhpVariable))
    ensures
        bindings(entries.push(e)) == if bindings(entries).dom().contains(e.0@) {
            bindings(entries)
        } else {
            bindings(entries).insert(e.0@, value_of(e.1))
        },
{
    let keys = keys_of(entries);
    assert(keys_of(entries.push(e)) =~= keys.push(e.0@));
    let m = if bindings(entries).dom().contains(e.0@) {
        bindings(entries)
    } else {
        bindings(entries).insert(e.0@, value_of(e.1))
    };
    assert forall|k: Seq<char>| #[trigger] bindings(entries.push(e)).dom().contains(k) == m.dom().contains(k)
        && (m.dom().contains(k) ==> bindings(entries.push(e))[k] == m[k]) by {
        lemma_find_key_push(keys, e.0@, k, 0);
        lemma_find_key_in_range(keys, k, 0);
    }
    assert(bindings(entries.push(e)) =~= m);
}

/// The variable bindings of one fragment execution.
pub struct Env {
    entries: Vec<(String, PhpVariable)>,
}

impl View for Env {
    type V = Map<Seq<char>, Val>;

    closed spec fn view(&self) -> Map<Seq<char>, Val> {
        bindings(self.entries@)
    }
}

impl Env {
    pub fn new() -> (r: Env)
        ensures
            r@ == Map::<Seq<char>, Val>::empty(),
    {
        let r = Env { entries: Vec::new() };
        assert(r@ =~= Map::<Seq<char>, Val>::empty());
        r
    }

    /// The value bound to `name`, if any.
    pub fn get(&self, name: &String) -> (r: Option<&PhpVariable>)
        ensures
            r is Some == self@.dom().contains(name@),
            r matches Some(v) ==> value_of(*v) == self@[name@],
    {
        match position_of(&self.entries, name) {
            Some(i) => Some(&self.entries[i].1),
            None => None,
        }
    }

    /// Binds `name` to `value`, replacing any earlier binding.
    pub fn set(&mut self, name: String, value: PhpVariable)
        ensures
            final(self)@ == old(self)@.insert(name@, value_of(value)),
    {
        let ghost old_entries = self.entries@;
        let ghost old_keys = keys_of(old_entries);
        let ghost m = old(self)@.insert(name@, value_of(value));
        let ghost e = (name, value);
        match position_of(&self.entries, &name) {
            Some(i) => {
                self.entries.set(i, (name, value));
                proof {
                    assert(self.entries@ == old_entries.update(i as int, e));
                    lemma_find_key_in_range(old_keys, name@, 0);
                    assert(keys_of(self.entries@) =~= old_keys);
                    assert forall|k: Seq<char>| #[trigger] self@.dom().contains(k) == m.dom().contains(k)
                        && (m.dom().contains(k) ==> self@[k] == m[k]) by {
                        lemma_find_key_in_range(old_keys, k, 0);
                    }
                    assert(self@ =~= m);
                }
            },
            None => {
                self.entries.push((name, value));
                proof {
                    assert(self.entries@ == old_entries.push(e));
                    assert(keys_of(self.entries@) =~= old_keys.push(name@));
                    assert forall|k: Seq<char>| #[trigger] self@.dom().contains(k) == m.dom().contains(k)
                        && (m.dom().contains(k) ==> self@[k] == m[k]) by {
                        lemma_find_key_push(old_keys, name@, k, 0);
                        lemma_find_key_in_range(old_keys, k, 0);
                    }
                    assert(self@ =~= m);
                }
            },
        }
    }

    /// Drops every binding of `name`.
    pub fn remove(&mut self, name: &String)
        ensures
            final(self)@ == old(self)@.remove(name@),
    {
        let ghost old_entries = self.entries@;
        let n = self.entries.len();
        let mut kept: Vec<(String, PhpVariable)> = Vec::new();
        let mut rest: Vec<(String, PhpVariable)> = Vec::new();
        std::mem::swap(&mut rest, &mut self.entries);
        let mut i: usize = 0;
        while rest.len() > 0
            invariant
                rest@ == old_entries.subrange(i as int, old_entries.len() as int),
                i <= old_entries.len(),
                n == old_entries.len(),
                bindings(kept@) == bindings(old_entries.subrange(0, i as int)).remove(name@),
            decreases rest@.len(),
        {
            let e = rest.remove(0);
            proof {
                assert(e == old_entries[i as int]);
                assert(old_entries.subrange(0, i + 1) =~= old_entries.subrange(0, i as int).push(e));
                lemma_bindings_push(old_entries.subrange(0, i as int), e);
            }
            if e.0 != *name {
                let ghost before = kept@;
                kept.push(e);
                proof {
                    lemma_bindings_push(before, e);
                    assert(bindings(kept@) =~= bindings(old_entries.subrange(0, i + 1)).remove(name@));
                }
            } else {
                assert(bindings(kept@) =~= bindings(old_entries.subrange(0, i + 1)).remove(name@));
            }
            i = i + 1;
        }
        assert(old_entries.subrange(0, i as int) =~= old_entries);
        self.entries = kept;
    }
}

} // verus!
