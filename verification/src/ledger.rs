//! The task ledger: a shared map of tracked work items.
//!
//! Items are keyed by a caller-chosen identifier; keys are unique and
//! insertion order carries no meaning. The run loop consults
//! [`TaskLedger::has_open_todos`] to decide whether to keep going after a
//! turn that produced no tool calls.

use vstd::prelude::*;

verus! {

/// How urgent a tracked work item is.
#[derive(Clone, Copy, Debug, PartialEq, Eq, Structural)]
pub enum Priority {
    High,
    Medium,
    Low,
}

/// How far along a tracked work item is.
#[derive(Clone, Copy, Debug, PartialEq, Eq, Structural)]
pub enum Status {
    Pending,
    InProgress,
    Completed,
}

/// One tracked work item.
#[derive(Debug)]
pub struct TodoItem {
    pub priority: Priority,
    pub status: Status,
    pub content: String,
}

/// Mathematical model of a [`TodoItem`].
#[verifier::ext_equal]
pub ghost struct TodoModel {
    pub priority: Priority,
    pub status: Status,
    pub content: Seq<char>,
}

impl View for TodoItem {
    type V = TodoModel;

    open spec fn view(&self) -> TodoModel {
        TodoModel { priority: self.priority, status: self.status, content: self.content@ }
    }
}

impl Clone for TodoItem {
    /// The copy holds the same item.
    fn clone(&self) -> (r: Self)
        ensures
            r@ == self@,
    {
        TodoItem {
            priority: self.priority,
            status: self.status,
            content: self.content.clone(),
        }
    }
}

/// An associative map of work items with unique keys.
#[derive(Debug)]
pub struct TaskLedger {
    pub entries: Vec<(String, TodoItem)>,
}

impl View for TaskLedger {
    type V = Seq<(Seq<char>, TodoModel)>;

    open spec fn view(&self) -> Seq<(Seq<char>, TodoModel)> {
        self.entries@.map_values(|e: (String, TodoItem)| (e.0@, e.1@))
    }
}

impl TaskLedger {
    /// Keys are pairwise distinct.
    pub open spec fn wf(&self) -> bool {
        forall|i: int, j: int|
            0 <= i < j < self@.len() ==> self@[i].0 != self@[j].0
    }

    /// The index of the entry for `key`, if present.
    pub open spec fn index_of(&self, key: Seq<char>) -> Option<int> {
        if exists|i: int| 0 <= i < self@.len() && self@[i].0 == key {
            Some(choose|i: int| 0 <= i < self@.len() && self@[i].0 == key)
        } else {
            None
        }
    }

    /// Whether `key` is present.
    pub open spec fn contains_key(&self, key: Seq<char>) -> bool {
        exists|i: int| 0 <= i < self@.len() && self@[i].0 == key
    }

    /// At least one item is not completed.
    pub open spec fn has_open_spec(&self) -> bool {
        exists|i: int| 0 <= i < self@.len() && self@[i].1.status != Status::Completed
    }

    /// An empty ledger.
    pub fn new() -> (r: TaskLedger)
        ensures
            r@.len() == 0,
            r.wf(),
    {
        TaskLedger { entries: Vec::new() }
    }

    /// The number of tracked items.
    pub fn len(&self) -> (r: usize)
        ensures
            r == self@.len(),
    {
        self.entries.len()
    }

    /// The item at position `i`, for display in insertion order.
    pub fn entry_at(&self, i: usize) -> (r: &(String, TodoItem))
        requires
            i < self@.len(),
        ensures
            (r.0@, r.1@) == self@[i as int],
    {
        &self.entries[i]
    }

    /// Inserts the item under `key`, replacing an existing entry with the
    /// same key and appending otherwise.
    pub fn upsert(&mut self, key: String, item: TodoItem)
        requires
            old(self).wf(),
        ensures
            final(self).wf(),
            final(self).contains_key(key@),
            // the entry for `key` now holds `item`
            forall|i: int|
                0 <= i < final(self)@.len() && final(self)@[i].0 == key@
                    ==> final(self)@[i].1 == item@,
            // every other key is untouched
            forall|i: int|
                0 <= i < old(self)@.len() && old(self)@[i].0 != key@
                    ==> final(self).contains_key(old(self)@[i].0),
            forall|i: int|
                0 <= i < final(self)@.len() && final(self)@[i].0 != key@
                    ==> old(self)@.contains(final(self)@[i]),
            final(self)@.len() == if old(self).contains_key(key@) {
                old(self)@.len()
            } else {
                old(self)@.len() + 1
            },
    {
        let ghost gkey = key@;
        let ghost gitem = item@;
        let n = self.entries.len();
        let mut i: usize = 0;
        while i < n
            invariant
                n == self@.len(),
                i <= n,
                self.wf(),
                self@ == old(self)@,
                gkey == key@,
                gitem == item@,
                forall|j: int| 0 <= j < i ==> self@[j].0 != gkey,
            decreases n - i,
        {
            if string_eq(&self.entries[i].0, key.as_str()) {
                proof {
                    assert(self@[i as int].0 == gkey);
                }
                let replacement = (key, item);
                self.entries.set(i, replacement);
                proof {
                    assert(self@ =~= old(self)@.update(i as int, (gkey, gitem)));
                    assert(self@[i as int].0 == gkey);
                    assert forall|j: int|
                        0 <= j < old(self)@.len() && old(self)@[j].0 != gkey
                            implies self.contains_key(old(self)@[j].0) by {
                        assert(self@[j] == old(self)@[j]);
                    }
                }
                return;
            }
            i += 1;
        }
        self.entries.push((key, item));
        proof {
            assert(self@ =~= old(self)@.push((gkey, gitem)));
            assert(self@[old(self)@.len() as int].0 == gkey);
            assert forall|j: int|
                0 <= j < old(self)@.len() && old(self)@[j].0 != gkey
                    implies self.contains_key(old(self)@[j].0) by {
                assert(self@[j] == old(self)@[j]);
            }
        }
    }

    /// Removes the entry at display position `i`.
    pub fn remove_at(&mut self, i: usize)
        requires
            old(self).wf(),
            i < old(self)@.len(),
        ensures
            final(self).wf(),
            final(self)@ == old(self)@.remove(i as int),
    {
        self.entries.remove(i);
        assert(final(self)@ =~= old(self)@.remove(i as int));
    }

    /// The open items, paired with their keys, in insertion order.
    pub fn get_open_todos(&self) -> (r: Vec<(String, TodoItem)>)
        ensures
            r@.map_values(|e: (String, TodoItem)| (e.0@, e.1@))
                == self@.filter(|e: (Seq<char>, TodoModel)| e.1.status != Status::Completed),
    {
        let ghost pred = |e: (Seq<char>, TodoModel)| e.1.status != Status::Completed;
        let mut out: Vec<(String, TodoItem)> = Vec::new();
        let n = self.entries.len();
        let mut i: usize = 0;
        proof {
            reveal(Seq::filter);
            assert(self@.take(0int).filter(pred) =~= Seq::<(Seq<char>, TodoModel)>::empty());
            assert(out@.map_values(|e: (String, TodoItem)| (e.0@, e.1@)) =~= Seq::<
                (Seq<char>, TodoModel),
            >::empty());
        }
        while i < n
            invariant
                n == self@.len(),
                i <= n,
                out@.map_values(|e: (String, TodoItem)| (e.0@, e.1@)) == self@.take(
                    i as int,
                ).filter(pred),
                pred == (|e: (Seq<char>, TodoModel)| e.1.status != Status::Completed),
            decreases n - i,
        {
            let ghost prefix = self@.take(i as int);
            let ghost x = self@[i as int];
            let ghost out_before = out@;
            let entry = &self.entries[i];
            if !matches!(entry.1.status, Status::Completed) {
                out.push((entry.0.clone(), entry.1.clone()));
            }
            proof {
                reveal(Seq::filter);
                let step = self@.take(i as int + 1);
                assert(step.drop_last() =~= prefix);
                assert(step.last() == x);
                if x.1.status != Status::Completed {
                    assert(out@.map_values(|e: (String, TodoItem)| (e.0@, e.1@))
                        =~= out_before.map_values(|e: (String, TodoItem)| (e.0@, e.1@)).push(x));
                    assert(step.filter(pred) == prefix.filter(pred).push(x));
                } else {
                    assert(out@ == out_before);
                    assert(step.filter(pred) == prefix.filter(pred));
                }
            }
            i += 1;
        }
        proof {
            assert(self@.take(n as int) =~= self@);
        }
        out
    }

    /// True iff at least one item's status is not `Completed`.
    pub fn has_open_todos(&self) -> (r: bool)
        ensures
            r == self.has_open_spec(),
    {
        let n = self.entries.len();
        let mut i: usize = 0;
        while i < n
            invariant
                n == self@.len(),
                i <= n,
                forall|j: int| 0 <= j < i ==> self@[j].1.status == Status::Completed,
            decreases n - i,
        {
            if !matches!(self.entries[i].1.status, Status::Completed) {
                proof {
                    assert(self@[i as int].1.status != Status::Completed);
                }
                return true;
            }
            i += 1;
        }
        false
    }
}

/// Whether two strings hold the same characters.
pub fn string_eq(a: &String, b: &str) -> (r: bool)
    ensures
        r == (a@ == b@),
{
    a.as_str().eq(b)
}

} // verus!
