//! Component storage: one typed table per component kind, holding one
//! optional value per entity, plus a presence-only table for tag
//! components. The storage strategy behind a table is an internal detail;
//! systems see only get / set / take / remove.

use vstd::prelude::*;

verus! {

/// The slot at entity `e` of a table view, `None` beyond the table's end:
/// an entity the table has never seen simply has no component.
pub open spec fn opt_at<T>(s: Seq<Option<T>>, e: int) -> Option<T> {
    if 0 <= e < s.len() {
        s[e]
    } else {
        None
    }
}

/// A typed component table. Its view is the sequence of slots, one per
/// entity id below the table's length; an id beyond the length simply has
/// no component.
pub struct Table<T> {
    slots: Vec<Option<T>>,
}

impl<T> View for Table<T> {
    type V = Seq<Option<T>>;

    closed spec fn view(&self) -> Seq<Option<T>> {
        self.slots@
    }
}

impl<T> Table<T> {
    /// An empty table: no entity has the component.
    pub fn new() -> (t: Table<T>)
        ensures
            t@.len() == 0,
    {
        Table { slots: Vec::new() }
    }

    pub fn len(&self) -> (n: usize)
        ensures
            n == self@.len(),
    {
        self.slots.len()
    }

    /// The component of entity `e`, if attached.
    pub fn get(&self, e: usize) -> (r: Option<&T>)
        ensures
            match r {
                Some(v) => e < self@.len() && self@[e as int] == Some(*v),
                None => e >= self@.len() || self@[e as int] is None,
            },
    {
        if e < self.slots.len() {
            match &self.slots[e] {
                Some(v) => Some(v),
                None => None,
            }
        } else {
            None
        }
    }

    /// Attach (or overwrite) the component of entity `e`, growing the
    /// table with empty slots as needed.
    pub fn set(&mut self, e: usize, v: T)
        ensures
            final(self)@.len() == if e < old(self)@.len() { old(self)@.len() as int } else { e + 1 },
            final(self)@[e as int] == Some(v),
            forall|i: int| 0 <= i < old(self)@.len() && i != e ==> final(self)@[i] == old(self)@[i],
            forall|i: int| old(self)@.len() <= i < final(self)@.len() && i != e ==> final(self)@[i] is None,
    {
        while self.slots.len() <= e
            invariant
                old(self)@.len() <= self.slots@.len(),
                self.slots@.len() <= e + 1 || self.slots@.len() == old(self)@.len(),
                forall|i: int| 0 <= i < old(self)@.len() ==> self.slots@[i] == old(self)@[i],
                forall|i: int| old(self)@.len() <= i < self.slots@.len() ==> self.slots@[i] is None,
            decreases e + 1 - self.slots.len(),
        {
            self.slots.push(None);
        }
        self.slots.set(e, Some(v));
    }

    /// Detach and return the component of entity `e`.
    pub fn take(&mut self, e: usize) -> (r: Option<T>)
        ensures
            e < old(self)@.len() ==> {
                &&& r == old(self)@[e as int]
                &&& final(self)@ =~= old(self)@.update(e as int, None)
            },
            e >= old(self)@.len() ==> r is None && final(self)@ == old(self)@,
    {
        if e < self.slots.len() {
            let r = self.slots.remove(e);
            self.slots.insert(e, None);
            proof {
                assert(self.slots@ =~= old(self).slots@.update(e as int, None));
            }
            r
        } else {
            None
        }
    }

    /// The bulk pass over a table: every `(entity, value)` pair whose
    /// slot is filled, in increasing entity order.
    #[verifier::loop_isolation(false)]
    pub fn entries(&self) -> (r: Vec<(usize, T)>) where T: Copy
        ensures
            forall|j: int|
                0 <= j < r@.len() ==> {
                    &&& (#[trigger] r@[j]).0 < self@.len()
                    &&& self@[r@[j].0 as int] == Some(r@[j].1)
                },
            forall|j: int, l: int| 0 <= j < l < r@.len() ==> r@[j].0 < r@[l].0,
            forall|e: int|
                0 <= e < self@.len() && self@[e] is Some ==> exists|j: int|
                    0 <= j < r@.len() && (#[trigger] r@[j]).0 == e,
    {
        let mut r: Vec<(usize, T)> = Vec::new();
        let n: usize = self.slots.len();
        let mut e: usize = 0;
        while e < n
            invariant
                e <= n,
                n == self@.len(),
                forall|j: int|
                    0 <= j < r@.len() ==> {
                        &&& (#[trigger] r@[j]).0 < e
                        &&& self@[r@[j].0 as int] == Some(r@[j].1)
                    },
                forall|j: int, l: int| 0 <= j < l < r@.len() ==> r@[j].0 < r@[l].0,
                forall|i: int|
                    0 <= i < e && self@[i] is Some ==> exists|j: int|
                        0 <= j < r@.len() && (#[trigger] r@[j]).0 == i,
            decreases n - e,
        {
            let ghost r_pre = r@;
            match &self.slots[e] {
                Some(v) => {
                    r.push((e, *v));
                },
                None => {},
            }
            proof {
                assert forall|i: int|
                    0 <= i < e + 1 && self@[i] is Some implies exists|j: int|
                    0 <= j < r@.len() && (#[trigger] r@[j]).0 == i by {
                    if i == e {
                        assert(r@[r@.len() - 1].0 == i);
                    } else {
                        let j = choose|j: int| 0 <= j < r_pre.len() && (#[trigger] r_pre[j]).0 == i;
                        assert(r@[j].0 == i);
                    }
                }
            }
            e = e + 1;
        }
        r
    }

    /// Detach the component of entity `e`, if attached.
    pub fn remove(&mut self, e: usize)
        ensures
            final(self)@ =~= if e < old(self)@.len() {
                old(self)@.update(e as int, None)
            } else {
                old(self)@
            },
    {
        if e < self.slots.len() {
            self.slots.set(e, None);
        }
    }
}

/// Set-membership table for a presence-only tag component.
pub struct TagTable {
    present: Vec<bool>,
}

impl View for TagTable {
    type V = Seq<bool>;

    closed spec fn view(&self) -> Seq<bool> {
        self.present@
    }
}

impl TagTable {
    pub fn new() -> (t: TagTable)
        ensures
            t@.len() == 0,
    {
        TagTable { present: Vec::new() }
    }

    /// Whether entity `e` carries the tag.
    pub fn has(&self, e: usize) -> (r: bool)
        ensures
            r == (e < self@.len() && self@[e as int]),
    {
        e < self.present.len() && self.present[e]
    }

    /// Tag entity `e`, growing the table as needed.
    pub fn insert(&mut self, e: usize)
        ensures
            final(self)@.len() == if e < old(self)@.len() { old(self)@.len() as int } else { e + 1 },
            final(self)@[e as int],
            forall|i: int| 0 <= i < old(self)@.len() && i != e ==> final(self)@[i] == old(self)@[i],
            forall|i: int| old(self)@.len() <= i < final(self)@.len() && i != e ==> !final(self)@[i],
    {
        while self.present.len() <= e
            invariant
                old(self)@.len() <= self.present@.len(),
                self.present@.len() <= e + 1 || self.present@.len() == old(self)@.len(),
                forall|i: int| 0 <= i < old(self)@.len() ==> self.present@[i] == old(self)@[i],
                forall|i: int| old(self)@.len() <= i < self.present@.len() ==> !self.present@[i],
            decreases e + 1 - self.present.len(),
        {
            self.present.push(false);
        }
        self.present.set(e, true);
    }

    /// Untag entity `e`.
    pub fn remove(&mut self, e: usize)
        ensures
            final(self)@ =~= if e < old(self)@.len() {
                old(self)@.update(e as int, false)
            } else {
                old(self)@
            },
    {
        if e < self.present.len() {
            self.present.set(e, false);
        }
    }
}

} // verus!
