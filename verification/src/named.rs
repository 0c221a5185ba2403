//! The mapping from field names to values that a format string is rendered
//! against.

use crate::value::{Value, ValueView};
use rt_format::argument::NamedArguments;
use vstd::prelude::*;

verus! {

/// `str::eq`: two string slices are equal when they hold the same
/// characters.
#[verifier::external_body]
fn same_text(a: &str, b: &str) -> (same: bool)
    ensures
        same == (a@ == b@),
{
    a == b
}

/// A mapping from names to values. No name occurs twice.
#[derive(Debug)]
pub struct NamedValues<'a> {
    entries: Vec<(&'a str, Value<'a>)>,
}

/// Whether `key` is the name of the entry at `index`.
spec fn names_entry(entries: Seq<(&str, Value)>, index: int, key: Seq<char>) -> bool {
    0 <= index < entries.len() && entries[index].0@ == key
}

/// No two entries have the same name.
spec fn distinct_names(entries: Seq<(&str, Value)>) -> bool {
    forall|i: int, j: int|
        0 <= i < j < entries.len() ==> (#[trigger] entries[i]).0@ != (#[trigger] entries[j]).0@
}

/// The mapping that a sequence of entries stands for.
spec fn entries_map(entries: Seq<(&str, Value)>) -> Map<Seq<char>, ValueView> {
    Map::new(
        |key: Seq<char>| exists|i: int| names_entry(entries, i, key),
        |key: Seq<char>| entries[choose|i: int| names_entry(entries, i, key)].1@,
    )
}

/// In a sequence without repeated names, the entry named `key` decides what
/// the mapping holds for `key`.
proof fn lemma_entry_decides(entries: Seq<(&str, Value)>, index: int, key: Seq<char>)
    requires
        distinct_names(entries),
        names_entry(entries, index, key),
    ensures
        entries_map(entries).contains_key(key),
        entries_map(entries)[key] == entries[index].1@,
{
    let chosen = choose|i: int| names_entry(entries, i, key);
    assert(names_entry(entries, chosen, key));
    if chosen < index {
        assert(entries[chosen].0@ != entries[index].0@);
    } else if index < chosen {
        assert(entries[index].0@ != entries[chosen].0@);
    }
}

impl<'a> View for NamedValues<'a> {
    type V = Map<Seq<char>, ValueView>;

    closed spec fn view(&self) -> Map<Seq<char>, ValueView> {
        entries_map(self.entries@)
    }
}

impl<'a> NamedValues<'a> {
    #[verifier::type_invariant]
    spec fn well_formed(self) -> bool {
        distinct_names(self.entries@)
    }

    /// The empty mapping.
    pub fn new() -> (named: Self)
        ensures
            named@ == Map::<Seq<char>, ValueView>::empty(),
    {
        let named = NamedValues { entries: Vec::new() };
        assert(named@ =~= Map::<Seq<char>, ValueView>::empty());
        named
    }

    /// The position of the entry named `key`, if there is one.
    fn position(&self, key: &str) -> (found: Option<usize>)
        ensures
            match found {
                Some(index) => names_entry(self.entries@, index as int, key@),
                None => forall|i: int| !names_entry(self.entries@, i, key@),
            },
    {
        let mut index: usize = 0;
        while index < self.entries.len()
            invariant
                index <= self.entries.len(),
                forall|i: int| 0 <= i < index ==> !names_entry(self.entries@, i, key@),
            decreases self.entries.len() - index,
        {
            if same_text(self.entries[index].0, key) {
                return Some(index);
            }
            index += 1;
        }
        None
    }

    /// Binds `key` to `value`, and returns what `key` was bound to before.
    pub fn insert(&mut self, key: &'a str, value: Value<'a>) -> (previous: Option<Value<'a>>)
        ensures
            final(self)@ == old(self)@.insert(key@, value@),
            match previous {
                Some(before) => old(self)@.contains_key(key@) && old(self)@[key@] == before@,
                None => !old(self)@.contains_key(key@),
            },
    {
        proof {
            use_type_invariant(&*self);
        }
        let ghost before = self.entries@;
        let position = self.position(key);
        let mut entries: Vec<(&'a str, Value<'a>)> = Vec::new();
        std::mem::swap(&mut entries, &mut self.entries);
        match position {
            Some(index) => {
                let previous = entries[index].1;
                entries.set(index, (key, value));
                proof {
                    let after = entries@;
                    lemma_entry_decides(before, index as int, key@);
                    assert(distinct_names(after)) by {
                        assert forall|i: int, j: int| 0 <= i < j < after.len() implies (
                        #[trigger] after[i]).0@ != (#[trigger] after[j]).0@ by {
                            assert(after[i].0@ == before[i].0@);
                            assert(after[j].0@ == before[j].0@);
                        }
                    }
                    assert forall|k: Seq<char>, i: int|
                        names_entry(after, i, k) == names_entry(before, i, k) by {
                        if 0 <= i < after.len() {
                            assert(after[i].0@ == before[i].0@);
                        }
                    }
                    assert forall|k: Seq<char>| #[trigger]
                        entries_map(before).insert(key@, value@).contains_key(k) implies (
                    entries_map(after).contains_key(k) && entries_map(after)[k] == entries_map(
                        before,
                    ).insert(key@, value@)[k]) by {
                        if k == key@ {
                            assert(names_entry(after, index as int, k));
                            lemma_entry_decides(after, index as int, k);
                        } else {
                            let i = choose|i: int| names_entry(before, i, k);
                            assert(names_entry(before, i, k));
                            assert(names_entry(after, i, k));
                            lemma_entry_decides(before, i, k);
                            lemma_entry_decides(after, i, k);
                        }
                    }
                    assert forall|k: Seq<char>| #[trigger]
                        entries_map(after).contains_key(k) implies entries_map(before).insert(
                        key@,
                        value@,
                    ).contains_key(k) by {
                        let i = choose|i: int| names_entry(after, i, k);
                        assert(names_entry(after, i, k));
                        assert(names_entry(before, i, k));
                    }
                    assert(entries_map(after) =~= entries_map(before).insert(key@, value@));
                }
                self.entries = entries;
                Some(previous)
            },
            None => {
                entries.push((key, value));
                proof {
                    let after = entries@;
                    let last = before.len() as int;
                    assert forall|i: int, j: int| 0 <= i < j < after.len() implies (
                    #[trigger] after[i]).0@ != (#[trigger] after[j]).0@ by {
                        if j == last {
                            assert(!names_entry(before, i, key@));
                        }
                    }
                    assert forall|k: Seq<char>| #[trigger]
                        entries_map(before).insert(key@, value@).contains_key(k) implies (
                    entries_map(after).contains_key(k) && entries_map(after)[k] == entries_map(
                        before,
                    ).insert(key@, value@)[k]) by {
                        if k == key@ {
                            assert(names_entry(after, last, k));
                            lemma_entry_decides(after, last, k);
                        } else {
                            let i = choose|i: int| names_entry(before, i, k);
                            assert(names_entry(before, i, k));
                            assert(names_entry(after, i, k));
                            lemma_entry_decides(before, i, k);
                            lemma_entry_decides(after, i, k);
                        }
                    }
                    assert forall|k: Seq<char>| #[trigger]
                        entries_map(after).contains_key(k) implies entries_map(before).insert(
                        key@,
                        value@,
                    ).contains_key(k) by {
                        let i = choose|i: int| names_entry(after, i, k);
                        assert(names_entry(after, i, k));
                        if i < last {
                            assert(names_entry(before, i, k));
                        }
                    }
                    assert(entries_map(after) =~= entries_map(before).insert(key@, value@));
                    assert(!entries_map(before).contains_key(key@));
                }
                self.entries = entries;
                None
            },
        }
    }

    /// The value that `key` is bound to, if any.
    pub fn get(&self, key: &str) -> (found: Option<&Value<'a>>)
        ensures
            match found {
                Some(value) => self@.contains_key(key@) && self@[key@] == value@,
                None => !self@.contains_key(key@),
            },
    {
        proof {
            use_type_invariant(self);
        }
        match self.position(key) {
            Some(index) => {
                proof {
                    lemma_entry_decides(self.entries@, index as int, key@);
                }
                Some(&self.entries[index].1)
            },
            None => None,
        }
    }
}

impl<'a> NamedArguments<Value<'a>> for NamedValues<'a> {
    fn get(&self, key: &str) -> (found: Option<&Value<'a>>)
        ensures
            match found {
                Some(value) => self@.contains_key(key@) && self@[key@] == value@,
                None => !self@.contains_key(key@),
            },
    {
        NamedValues::get(self, key)
    }
}

} // verus!
