//! A table of names and associated values.
//!
//! The table is append-only: `push` adds an entry at the end and `lookup`
//! searches from the most recent entry backward, so a later entry for a
//! name shadows an earlier one without removing it.

use vstd::prelude::*;

verus! {

/// One table entry: a name and the value bound to it.
pub struct Item<T> {
    pub name: String,
    pub value: T,
}

impl<T> Item<T> {
    fn new(name: &str, value: T) -> (r: Self)
        ensures
            r.name@ == name@,
            r.value == value,
    {
        let name = name.to_owned();
        Self { name, value }
    }
}

/// An append-only association table with backward lookup.
pub struct Table<T> {
    pub items: Vec<Item<T>>,
}

impl<T> View for Table<T> {
    type V = Seq<(Seq<char>, T)>;

    open spec fn view(&self) -> Seq<(Seq<char>, T)> {
        self.items@.map_values(|it: Item<T>| (it.name@, it.value))
    }
}

/// The value bound to `name` by the most recent entry of `entries`
/// that carries that name, if any.
pub open spec fn tbl_lookup<T>(entries: Seq<(Seq<char>, T)>, name: Seq<char>) -> Option<T>
    decreases entries.len(),
{
    if entries.len() == 0 {
        None
    } else if entries.last().0 == name {
        Some(entries.last().1)
    } else {
        tbl_lookup(entries.drop_last(), name)
    }
}

impl<T> Table<T> {
    /// Creates an empty table.
    pub fn new() -> (r: Self)
        ensures
            r@ == Seq::<(Seq<char>, T)>::empty(),
    {
        let r = Self { items: Vec::new() };
        proof {
            assert(r@ =~= Seq::<(Seq<char>, T)>::empty());
        }
        r
    }

    /// Appends an entry; any earlier entry for the same name is shadowed,
    /// never removed.
    pub fn push(&mut self, name: &str, value: T)
        ensures
            final(self)@ == old(self)@.push((name@, value)),
    {
        let ghost pre = self@;
        let item = Item::new(name, value);
        let ghost item_pair = (item.name@, item.value);
        self.items.push(item);
        proof {
            assert(self@ =~= pre.push(item_pair));
        }
    }

    /// Finds the value most recently bound to `name`, searching from the
    /// newest entry backward.
    pub fn lookup(&self, name: &str) -> (r: Option<&T>)
        ensures
            match r {
                Some(v) => tbl_lookup(self@, name@) == Some(*v),
                None => tbl_lookup(self@, name@) is None,
            },
    {
        let key: String = name.to_owned();
        let mut i: usize = self.items.len();
        proof {
            assert(self@.take(i as int) =~= self@);
        }
        while i > 0
            invariant
                i <= self.items.len(),
                key@ == name@,
                tbl_lookup(self@, name@) == tbl_lookup(self@.take(i as int), name@),
            decreases i,
        {
            i = i - 1;
            proof {
                assert(self@.take(i + 1).last() == (self.items@[i as int].name@,
                    self.items@[i as int].value));
                assert(self@.take(i + 1).drop_last() =~= self@.take(i as int));
            }
            if self.items[i].name == key {
                return Some(&self.items[i].value);
            }
        }
        proof {
            assert(self@.take(0).len() == 0);
        }
        None
    }
}

/// Shadowing law: after pushing `(name, v)` and then `(name, w)`, a lookup
/// of `name` finds `w`, the most recent binding, while the entry for `v`
/// is still present at its old index and the table grew by exactly two.
pub proof fn lemma_lookup_latest<T>(entries: Seq<(Seq<char>, T)>, name: Seq<char>, v: T, w: T)
    ensures
        tbl_lookup(entries.push((name, v)).push((name, w)), name) == Some(w),
        entries.push((name, v)).push((name, w)).len() == entries.len() + 2,
        entries.push((name, v)).push((name, w))[entries.len() as int] == (name, v),
{
}

/// Lookup after a push: the new entry wins for its own name and changes
/// nothing for any other name.
pub proof fn lemma_lookup_push<T>(entries: Seq<(Seq<char>, T)>, name: Seq<char>, value: T, key: Seq<char>)
    ensures
        tbl_lookup(entries.push((name, value)), key) == if key == name {
            Some(value)
        } else {
            tbl_lookup(entries, key)
        },
{
    assert(entries.push((name, value)).drop_last() =~= entries);
}

} // verus!
