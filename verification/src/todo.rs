//! Todo items and the operations a todo manager must offer.

use vstd::prelude::*;

verus! {

/// A single todo entry.
pub struct Todo {
    pub id: usize,
    pub title: String,
    pub completed: bool,
}

impl Todo {
    /// A fresh entry starts out not completed.
    pub fn new(id: usize, title: String) -> (t: Todo)
        ensures
            t.id == id,
            t.title@ == title@,
            !t.completed,
    {
        Todo { id, title, completed: false }
    }

    /// Flips the completion flag and changes nothing else.
    pub fn toggle_complete(&mut self)
        ensures
            final(self).completed == !old(self).completed,
            final(self).id == old(self).id,
            final(self).title@ == old(self).title@,
    {
        self.completed = !self.completed;
    }
}

/// Index of the first entry of `s` with this `id`, or `-1` when none has it.
pub open spec fn spec_find_todo(s: Seq<Todo>, id: usize) -> int
    decreases s.len(),
{
    if s.len() == 0 {
        -1
    } else if s[0].id == id {
        0
    } else {
        let r = spec_find_todo(s.drop_first(), id);
        if r == -1 {
            -1
        } else {
            r + 1
        }
    }
}

/// What `spec_find_todo` yields: `-1` exactly when no entry has the id, and
/// otherwise the first index that does.
pub proof fn lemma_find_todo_characterization(s: Seq<Todo>, id: usize)
    ensures
        spec_find_todo(s, id) >= -1,
        spec_find_todo(s, id) == -1 ==> forall|j: int| 0 <= j < s.len() ==> s[j].id != id,
        spec_find_todo(s, id) >= 0 ==> {
            let r = spec_find_todo(s, id);
            &&& r < s.len()
            &&& s[r].id == id
            &&& forall|j: int| 0 <= j < r ==> s[j].id != id
        },
    decreases s.len(),
{
    if s.len() == 0 {
    } else if s[0].id == id {
    } else {
        let rest = s.drop_first();
        lemma_find_todo_characterization(rest, id);
        if spec_find_todo(s, id) == -1 {
            assert forall|j: int| 0 <= j < s.len() implies s[j].id != id by {
                if j > 0 {
                    assert(rest[j - 1] == s[j]);
                }
            }
        } else {
            let r = spec_find_todo(s, id);
            assert(spec_find_todo(rest, id) == r - 1);
            assert(s[r] == rest[r - 1]);
            assert forall|j: int| 0 <= j < r implies s[j].id != id by {
                if j > 0 {
                    assert(rest[j - 1] == s[j]);
                }
            }
        }
    }
}

/// Largest id among the entries, `0` when there are none.
pub open spec fn spec_max_id(s: Seq<Todo>) -> int
    decreases s.len(),
{
    if s.len() == 0 {
        0
    } else {
        let m = spec_max_id(s.drop_last());
        if s.last().id > m {
            s.last().id as int
        } else {
            m
        }
    }
}

/// The entry with its completion flag flipped.
pub open spec fn spec_toggled(t: Todo) -> Todo {
    Todo { completed: !t.completed, ..t }
}

/// The operations a container of todos offers to the user interface.
pub trait TodoManager {
    /// The entries held, in insertion order.
    spec fn todos_view(&self) -> Seq<Todo>;

    /// Appends a fresh, uncompleted entry with this title.
    fn add_todo(&mut self, title: String)
        ensures
            final(self).todos_view().len() == old(self).todos_view().len() + 1,
            final(self).todos_view().drop_last() == old(self).todos_view(),
            final(self).todos_view().last().title@ == title@,
            !final(self).todos_view().last().completed,
    ;

    /// Drops every entry with this id and keeps the rest in order.
    fn remove_todo(&mut self, id: usize)
        ensures
            final(self).todos_view() == old(self).todos_view().filter(|t: Todo| t.id != id),
    ;

    /// Flips the completion flag of the first entry with this id, if any.
    fn toggle_todo(&mut self, id: usize)
        ensures
            spec_find_todo(old(self).todos_view(), id) == -1 ==> final(self).todos_view() == old(
                self,
            ).todos_view(),
            spec_find_todo(old(self).todos_view(), id) >= 0 ==> final(self).todos_view() == old(
                self,
            ).todos_view().update(
                spec_find_todo(old(self).todos_view(), id),
                spec_toggled(
                    old(self).todos_view()[spec_find_todo(old(self).todos_view(), id)],
                ),
            ),
    ;

    /// The entries held.
    fn get_todos(&self) -> (r: &Vec<Todo>)
        ensures
            r@ == self.todos_view(),
    ;
}

} // verus!
