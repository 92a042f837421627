//! Column descriptors, and the index from column names to positions.

use vstd::prelude::*;
use crate::type_info::{AnyTypeInfo, AnyTypeInfoKind};

verus! {

/// One column of a result: where it stands, its name and its declared type.
#[derive(Debug)]
pub struct AnyColumn {
    /// The position of the column, counted from zero in the backend's order.
    pub ordinal: usize,
    pub name: String,
    pub type_info: AnyTypeInfo,
}

/// An [`AnyColumn`] with its name taken as a sequence of characters.
pub struct ColumnView {
    pub ordinal: usize,
    pub name: Seq<char>,
    pub kind: AnyTypeInfoKind,
}

impl View for AnyColumn {
    type V = ColumnView;

    open spec fn view(&self) -> ColumnView {
        ColumnView { ordinal: self.ordinal, name: self.name@, kind: self.type_info.kind }
    }
}

impl Clone for AnyColumn {
    fn clone(&self) -> (copy: Self)
        ensures
            copy@ == self@,
    {
        AnyColumn { ordinal: self.ordinal, name: self.name.clone(), type_info: self.type_info }
    }
}

impl AnyColumn {
    pub fn ordinal(&self) -> (ordinal: usize)
        ensures
            ordinal == self.ordinal,
    {
        self.ordinal
    }

    pub fn name(&self) -> (name: &str)
        ensures
            name@ == self.name@,
    {
        self.name.as_str()
    }

    pub fn type_info(&self) -> (ty: &AnyTypeInfo)
        ensures
            *ty == self.type_info,
    {
        &self.type_info
    }
}

/// What a list of insertions leaves under `name`: the position given with the
/// last insertion of that name.
pub open spec fn last_inserted(entries: Seq<(String, usize)>, name: Seq<char>) -> Option<usize>
    decreases entries.len(),
{
    if entries.len() == 0 {
        None
    } else if entries.last().0@ == name {
        Some(entries.last().1)
    } else {
        last_inserted(entries.drop_last(), name)
    }
}

/// The index from column names to positions.
///
/// A name that is inserted again takes the later position: of two columns
/// with one name, the last one is found.
#[derive(Debug)]
pub struct ColumnNames {
    entries: Vec<(String, usize)>,
}

impl View for ColumnNames {
    type V = Map<Seq<char>, usize>;

    closed spec fn view(&self) -> Map<Seq<char>, usize> {
        Map::new(
            |name: Seq<char>| last_inserted(self.entries@, name) is Some,
            |name: Seq<char>| last_inserted(self.entries@, name)->0,
        )
    }
}

impl ColumnNames {
    /// An index that holds no name.
    pub fn new() -> (names: Self)
        ensures
            names@ == Map::<Seq<char>, usize>::empty(),
    {
        let names = ColumnNames { entries: Vec::new() };
        assert(names@ =~= Map::<Seq<char>, usize>::empty());
        names
    }

    /// Puts `name` at `ordinal`, in place of the position it had, if any.
    pub fn insert(&mut self, name: String, ordinal: usize)
        ensures
            final(self)@ == old(self)@.insert(name@, ordinal),
    {
        let ghost before = self.entries@;
        self.entries.push((name, ordinal));
        proof {
            let after = self.entries@;
            assert(after.drop_last() == before);
            assert forall|k: Seq<char>|
                last_inserted(after, k) == (if k == name@ {
                    Some(ordinal)
                } else {
                    last_inserted(before, k)
                }) by {}
            assert(self@ =~= old(self)@.insert(name@, ordinal));
        }
    }

    /// The position of the column called `name`.
    pub fn get(&self, name: &str) -> (ordinal: Option<usize>)
        ensures
            match ordinal {
                Some(i) => self@.contains_key(name@) && self@[name@] == i,
                None => !self@.contains_key(name@),
            },
    {
        let wanted = name.to_owned();
        let mut i: usize = self.entries.len();
        assert(self.entries@.subrange(0, i as int) == self.entries@);
        while i > 0
            invariant
                i <= self.entries.len(),
                wanted@ == name@,
                last_inserted(self.entries@, name@) == last_inserted(
                    self.entries@.subrange(0, i as int),
                    name@,
                ),
            decreases i,
        {
            let ghost prefix = self.entries@.subrange(0, i as int);
            i = i - 1;
            assert(prefix.drop_last() == self.entries@.subrange(0, i as int));
            assert(prefix.last() == self.entries@[i as int]);
            if self.entries[i].0 == wanted {
                return Some(self.entries[i].1);
            }
        }
        None
    }
}

impl ColumnNames {
    /// Whether every name leads to a position below `bound`.
    pub fn all_below(&self, bound: usize) -> (ok: bool)
        ensures
            ok == forall|name: Seq<char>| #[trigger]
                self@.contains_key(name) ==> self@[name] < bound,
    {
        let mut i: usize = 0;
        while i < self.entries.len()
            invariant
                i <= self.entries.len(),
                forall|j: int|
                    0 <= j < i ==> self@.contains_key((#[trigger] self.entries@[j]).0@)
                        && self@[self.entries@[j].0@] < bound,
            decreases self.entries.len() - i,
        {
            proof {
                lemma_inserted_is_found(self.entries@, i as int);
            }
            match self.get(self.entries[i].0.as_str()) {
                Some(ordinal) => {
                    if ordinal >= bound {
                        assert(self@.contains_key(self.entries@[i as int].0@));
                        return false;
                    }
                },
                None => {},
            }
            i = i + 1;
        }
        proof {
            assert forall|name: Seq<char>| #[trigger] self@.contains_key(name) implies self@[name]
                < bound by {
                let j = lemma_found_was_inserted(self.entries@, name);
                assert(self.entries@[j].0@ == name);
            }
        }
        true
    }
}

/// A name that was inserted is found.
proof fn lemma_inserted_is_found(entries: Seq<(String, usize)>, j: int)
    requires
        0 <= j < entries.len(),
    ensures
        last_inserted(entries, entries[j].0@) is Some,
    decreases entries.len(),
{
    if entries.last().0@ != entries[j].0@ {
        lemma_inserted_is_found(entries.drop_last(), j);
    }
}

/// A name that is found was inserted: at the position that this gives.
proof fn lemma_found_was_inserted(entries: Seq<(String, usize)>, name: Seq<char>) -> (j: int)
    requires
        last_inserted(entries, name) is Some,
    ensures
        0 <= j < entries.len(),
        entries[j].0@ == name,
    decreases entries.len(),
{
    if entries.last().0@ == name {
        entries.len() - 1
    } else {
        lemma_found_was_inserted(entries.drop_last(), name)
    }
}

impl Clone for ColumnNames {
    fn clone(&self) -> (copy: Self)
        ensures
            copy@ == self@,
    {
        let mut entries: Vec<(String, usize)> = Vec::new();
        let mut i: usize = 0;
        while i < self.entries.len()
            invariant
                i <= self.entries.len(),
                entries@.len() == i,
                forall|j: int|
                    0 <= j < i ==> entries@[j].0@ == (#[trigger] self.entries@[j]).0@
                        && entries@[j].1 == self.entries@[j].1,
            decreases self.entries.len() - i,
        {
            entries.push((self.entries[i].0.clone(), self.entries[i].1));
            i = i + 1;
        }
        let copy = ColumnNames { entries };
        proof {
            assert forall|k: Seq<char>|
                last_inserted(copy.entries@, k) == last_inserted(self.entries@, k) by {
                lemma_same_entries(copy.entries@, self.entries@, k);
            }
            assert(copy@ =~= self@);
        }
        copy
    }
}

/// Two lists of insertions with the same names and positions leave the same
/// under every name.
proof fn lemma_same_entries(a: Seq<(String, usize)>, b: Seq<(String, usize)>, name: Seq<char>)
    requires
        a.len() == b.len(),
        forall|j: int| 0 <= j < a.len() ==> a[j].0@ == (#[trigger] b[j]).0@ && a[j].1 == b[j].1,
    ensures
        last_inserted(a, name) == last_inserted(b, name),
    decreases a.len(),
{
    if a.len() > 0 {
        assert(a.last().0@ == b[b.len() - 1].0@);
        lemma_same_entries(a.drop_last(), b.drop_last(), name);
    }
}

} // verus!
