//! Providers by name: registering one replaces any earlier provider of that
//! name, and looking up a name nobody registered is an error.

use vstd::prelude::*;

use crate::error::Error;
use crate::json::same_text;
use crate::schema::owned;

verus! {

/// What is registered under `name` in `entries`: the value of the last entry
/// with that name, or `None`.
pub open spec fn registered<P>(entries: Seq<(String, P)>, name: Seq<char>) -> Option<P>
    decreases entries.len(),
{
    if entries.len() == 0 {
        None
    } else if entries.last().0@ == name {
        Some(entries.last().1)
    } else {
        registered(entries.drop_last(), name)
    }
}

/// Whether the entry at `i` is the last one named `name`.
pub open spec fn last_named<P>(entries: Seq<(String, P)>, name: Seq<char>, i: int) -> bool {
    &&& 0 <= i < entries.len()
    &&& entries[i].0@ == name
    &&& forall|j: int| i < j < entries.len() ==> (#[trigger] entries[j]).0@ != name
}

/// Replacing the value of the last entry named `name` changes what `name` is
/// registered as, and nothing else.
proof fn lemma_replace_last<P>(entries: Seq<(String, P)>, name: Seq<char>, i: int, entry: (String, P), other: Seq<char>)
    requires
        last_named(entries, name, i),
        entry.0@ == name,
    ensures
        registered(entries.update(i, entry), other) == if other == name {
            Some(entry.1)
        } else {
            registered(entries, other)
        },
    decreases entries.len(),
{
    let n = entries.len() as int;
    let updated = entries.update(i, entry);
    if i == n - 1 {
        assert(updated.drop_last() =~= entries.drop_last());
    } else {
        assert(updated.drop_last() =~= entries.drop_last().update(i, entry));
        assert(entries[n - 1] == entries.last());
        lemma_replace_last(entries.drop_last(), name, i, entry, other);
    }
}

/// No entry is named `name`, so nothing is registered under it.
proof fn lemma_unnamed<P>(entries: Seq<(String, P)>, name: Seq<char>)
    requires
        forall|j: int| 0 <= j < entries.len() ==> (#[trigger] entries[j]).0@ != name,
    ensures
        registered(entries, name) is None,
    decreases entries.len(),
{
    if entries.len() > 0 {
        assert(entries[entries.len() - 1] == entries.last());
        lemma_unnamed(entries.drop_last(), name);
    }
}

/// The entry at `i` is the last one named `name`, so `name` is registered as
/// its value.
proof fn lemma_found<P>(entries: Seq<(String, P)>, name: Seq<char>, i: int)
    requires
        last_named(entries, name, i),
    ensures
        registered(entries, name) == Some(entries[i].1),
    decreases entries.len(),
{
    let n = entries.len() as int;
    if i < n - 1 {
        assert(entries[n - 1] == entries.last());
        assert forall|j: int| i < j < n - 1 implies (#[trigger] entries.drop_last()[j]).0@ != name by {
            assert(entries.drop_last()[j] == entries[j]);
        }
        lemma_found(entries.drop_last(), name, i);
    }
}

/// Providers (or anything else) registered by name.
#[derive(Debug)]
pub struct NamedProviders<P> {
    pub entries: Vec<(String, P)>,
}

impl<P> NamedProviders<P> {
    /// Nothing registered.
    pub fn new() -> (r: NamedProviders<P>)
        ensures
            forall|name: Seq<char>| #[trigger] registered(r.entries@, name) is None,
    {
        NamedProviders { entries: Vec::new() }
    }

    /// The position of the last entry named `name`, if any.
    fn find(&self, name: &str) -> (r: Option<usize>)
        ensures
            r matches Some(i) ==> last_named(self.entries@, name@, i as int),
            r is None ==> forall|j: int|
                0 <= j < self.entries@.len() ==> (#[trigger] self.entries@[j]).0@ != name@,
    {
        let mut i: usize = self.entries.len();
        while i > 0
            invariant
                i <= self.entries@.len(),
                forall|j: int| i <= j < self.entries@.len() ==> (#[trigger] self.entries@[j]).0@ != name@,
            decreases i,
        {
            i = i - 1;
            if same_text(self.entries[i].0.as_str(), name) {
                return Some(i);
            }
        }
        None
    }

    /// Registers `provider` under `name`, replacing any provider of that name.
    pub fn register(&mut self, name: &str, provider: P)
        ensures
            forall|other: Seq<char>| #[trigger] registered(final(self).entries@, other) == if other
                == name@ {
                Some(provider)
            } else {
                registered(old(self).entries@, other)
            },
    {
        let entry = (owned(name), provider);
        let ghost e = entry;
        match self.find(name) {
            Some(i) => {
                let ghost before = self.entries@;
                self.entries.set(i, entry);
                assert(self.entries@ == before.update(i as int, e));
                assert forall|other: Seq<char>| #[trigger] registered(self.entries@, other) == if other
                    == name@ {
                    Some(e.1)
                } else {
                    registered(before, other)
                } by {
                    lemma_replace_last(before, name@, i as int, e, other);
                }
            },
            None => {
                let ghost before = self.entries@;
                self.entries.push(entry);
                assert(self.entries@.drop_last() =~= before);
            },
        }
    }

    /// The provider registered under `name`; [`Error::UnknownProvider`] when
    /// there is none.
    pub fn provider(&self, name: &str) -> (r: Result<&P, Error>)
        ensures
            registered(self.entries@, name@) matches Some(p) ==> (r matches Ok(q) && *q == p),
            registered(self.entries@, name@) is None ==> (r matches Err(Error::UnknownProvider(n))
                && n@ == name@),
    {
        match self.find(name) {
            Some(i) => {
                proof {
                    lemma_found(self.entries@, name@, i as int);
                }
                Ok(&self.entries[i].1)
            },
            None => {
                proof {
                    lemma_unnamed(self.entries@, name@);
                }
                Err(Error::UnknownProvider(owned(name)))
            },
        }
    }
}

} // verus!
