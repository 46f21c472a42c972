//! The header fields of a request: a finite map from names to values.

use vstd::prelude::*;

use crate::text::str_eq;

verus! {

/// Whether some entry of `entries` has the name `name`.
spec fn has_name(entries: Seq<(String, String)>, name: Seq<char>) -> bool {
    exists|i: int| 0 <= i < entries.len() && (#[trigger] entries[i]).0@ == name
}

/// The index of an entry of `entries` with the name `name`, if there is one.
spec fn index_of_name(entries: Seq<(String, String)>, name: Seq<char>) -> int {
    choose|i: int| 0 <= i < entries.len() && (#[trigger] entries[i]).0@ == name
}

/// Whether no two entries of `entries` have the same name.
spec fn distinct_names(entries: Seq<(String, String)>) -> bool {
    forall|i: int, j: int|
        0 <= i < j < entries.len() ==> (#[trigger] entries[i]).0@ != (#[trigger] entries[j]).0@
}

/// The map that a sequence of entries stands for.
spec fn entries_map(entries: Seq<(String, String)>) -> Map<Seq<char>, Seq<char>> {
    Map::new(
        |name: Seq<char>| has_name(entries, name),
        |name: Seq<char>| entries[index_of_name(entries, name)].1@,
    )
}

/// With distinct names, each entry's name maps to that entry's value.
proof fn lemma_entry_is_mapped(entries: Seq<(String, String)>, i: int)
    requires
        distinct_names(entries),
        0 <= i < entries.len(),
    ensures
        entries_map(entries).contains_key(entries[i].0@),
        entries_map(entries)[entries[i].0@] == entries[i].1@,
{
    let name = entries[i].0@;
    assert(has_name(entries, name));
    let j = index_of_name(entries, name);
    assert(entries[j].0@ == name);
    assert(j == i);
}

/// With distinct names, the map has as many keys as there are entries.
proof fn lemma_map_len(entries: Seq<(String, String)>)
    requires
        distinct_names(entries),
    ensures
        entries_map(entries).dom().finite(),
        entries_map(entries).dom().len() == entries.len(),
    decreases entries.len(),
{
    if entries.len() == 0 {
        assert(entries_map(entries).dom() =~= Set::<Seq<char>>::empty());
    } else {
        let front = entries.drop_last();
        let last = entries.last();
        assert forall|i: int, j: int| 0 <= i < j < front.len() implies (#[trigger] front[i]).0@ != (
        #[trigger] front[j]).0@ by {
            assert(front[i] == entries[i]);
            assert(front[j] == entries[j]);
        }
        lemma_map_len(front);
        assert(!has_name(front, last.0@)) by {
            if has_name(front, last.0@) {
                let i = index_of_name(front, last.0@);
                assert(front[i] == entries[i]);
                assert(entries[i].0@ != entries[entries.len() - 1].0@);
            }
        }
        assert(entries_map(entries).dom() =~= entries_map(front).dom().insert(last.0@)) by {
            assert forall|name: Seq<char>| has_name(entries, name) <==> (has_name(front, name)
                || name == last.0@) by {
                if has_name(entries, name) {
                    let i = index_of_name(entries, name);
                    if i < front.len() {
                        assert(front[i] == entries[i]);
                    }
                }
                if has_name(front, name) {
                    let i = index_of_name(front, name);
                    assert(front[i] == entries[i]);
                }
                if name == last.0@ {
                    assert(entries[entries.len() - 1].0@ == name);
                }
            }
        }
    }
}

/// Taking an entry out of entries with distinct names takes its name out
/// of the map, and leaves the names distinct.
proof fn lemma_without_entry(entries: Seq<(String, String)>, i: int)
    requires
        distinct_names(entries),
        0 <= i < entries.len(),
    ensures
        distinct_names(entries.remove(i)),
        !has_name(entries.remove(i), entries[i].0@),
        entries_map(entries.remove(i)) == entries_map(entries).remove(entries[i].0@),
{
    let rest = entries.remove(i);
    let name = entries[i].0@;
    assert forall|k: int| 0 <= k < rest.len() implies #[trigger] rest[k] == entries[if k < i {
        k
    } else {
        k + 1
    }] by {}
    assert(distinct_names(rest));
    assert(!has_name(rest, name));
    assert forall|key: Seq<char>| has_name(rest, key) <==> has_name(entries, key) && key
        != name by {
        if has_name(entries, key) && key != name {
            let k = index_of_name(entries, key);
            let k1 = if k < i {
                k
            } else {
                k - 1
            };
            assert(rest[k1] == entries[k]);
        }
    }
    assert forall|key: Seq<char>| has_name(rest, key) implies entries_map(rest)[key]
        == entries_map(entries)[key] by {
        let k = index_of_name(rest, key);
        lemma_entry_is_mapped(rest, k);
        lemma_entry_is_mapped(
            entries,
            if k < i {
                k
            } else {
                k + 1
            },
        );
    }
    assert(entries_map(rest) =~= entries_map(entries).remove(name));
}

/// Adding an entry with a new name to entries with distinct names adds it
/// to the map, and leaves the names distinct.
proof fn lemma_with_entry(entries: Seq<(String, String)>, entry: (String, String))
    requires
        distinct_names(entries),
        !has_name(entries, entry.0@),
    ensures
        distinct_names(entries.push(entry)),
        entries_map(entries.push(entry)) == entries_map(entries).insert(entry.0@, entry.1@),
{
    let more = entries.push(entry);
    assert forall|k: int| 0 <= k < entries.len() implies #[trigger] more[k] == entries[k] by {}
    assert(more[entries.len() as int] == entry);
    assert(distinct_names(more));
    assert forall|key: Seq<char>| has_name(more, key) <==> has_name(entries, key) || key
        == entry.0@ by {
        if has_name(entries, key) {
            let k = index_of_name(entries, key);
            assert(more[k] == entries[k]);
        }
    }
    assert forall|key: Seq<char>| has_name(more, key) implies entries_map(more)[key]
        == entries_map(entries).insert(entry.0@, entry.1@)[key] by {
        let k = index_of_name(more, key);
        lemma_entry_is_mapped(more, k);
        if k < entries.len() {
            lemma_entry_is_mapped(entries, k);
        }
    }
    assert(entries_map(more) =~= entries_map(entries).insert(entry.0@, entry.1@));
}

/// The header fields of a request. Each name occurs at most once; the order
/// of the fields carries no meaning.
#[derive(Debug)]
pub struct Headers {
    entries: Vec<(String, String)>,
}

impl View for Headers {
    type V = Map<Seq<char>, Seq<char>>;

    closed spec fn view(&self) -> Map<Seq<char>, Seq<char>> {
        entries_map(self.entries@)
    }
}

impl Headers {
    #[verifier::type_invariant]
    spec fn well_formed(self) -> bool {
        distinct_names(self.entries@)
    }

    /// No header fields.
    pub fn new() -> (headers: Headers)
        ensures
            headers@ == Map::<Seq<char>, Seq<char>>::empty(),
    {
        let headers = Headers { entries: Vec::new() };
        assert(headers@ =~= Map::<Seq<char>, Seq<char>>::empty());
        headers
    }

    /// The number of header fields.
    pub fn len(&self) -> (count: usize)
        ensures
            self@.dom().finite(),
            count == self@.len(),
    {
        proof {
            use_type_invariant(self);
            lemma_map_len(self.entries@);
        }
        self.entries.len()
    }

    /// Where the field with the given name stands among the entries.
    fn position(&self, name: &str) -> (found: Option<usize>)
        ensures
            match found {
                Some(i) => i < self.entries.len() && self.entries[i as int].0@ == name@,
                None => !has_name(self.entries@, name@),
            },
    {
        let mut i: usize = 0;
        while i < self.entries.len()
            invariant
                i <= self.entries.len(),
                forall|k: int| 0 <= k < i ==> (#[trigger] self.entries[k]).0@ != name@,
            decreases self.entries.len() - i,
        {
            if str_eq(self.entries[i].0.as_str(), name) {
                return Some(i);
            }
            i += 1;
        }
        None
    }

    /// The value of the field with the given name, if there is one.
    pub fn get(&self, name: &str) -> (value: Option<&String>)
        ensures
            match value {
                Some(v) => self@.contains_key(name@) && v@ == self@[name@],
                None => !self@.contains_key(name@),
            },
    {
        match self.position(name) {
            Some(i) => {
                proof {
                    use_type_invariant(self);
                    lemma_entry_is_mapped(self.entries@, i as int);
                }
                Some(&self.entries[i].1)
            },
            None => None,
        }
    }

    /// Sets the field with the given name to the given value, and returns
    /// the value that the field had before, if it had one.
    pub fn insert(&mut self, name: String, value: String) -> (previous: Option<String>)
        ensures
            final(self)@ == old(self)@.insert(name@, value@),
            match previous {
                Some(p) => old(self)@.contains_key(name@) && p@ == old(self)@[name@],
                None => !old(self)@.contains_key(name@),
            },
    {
        proof {
            use_type_invariant(&*self);
        }
        let ghost before = self.entries@;
        let found = self.position(name.as_str());
        let mut entries: Vec<(String, String)> = Vec::new();
        core::mem::swap(&mut self.entries, &mut entries);
        let previous = match found {
            Some(i) => {
                proof {
                    lemma_entry_is_mapped(before, i as int);
                    lemma_without_entry(before, i as int);
                }
                let (_, value_before) = entries.remove(i);
                Some(value_before)
            },
            None => None,
        };
        proof {
            lemma_with_entry(entries@, (name, value));
            assert(entries_map(before).remove(name@).insert(name@, value@) =~= entries_map(
                before,
            ).insert(name@, value@));
        }
        entries.push((name, value));
        self.entries = entries;
        previous
    }
}

} // verus!
