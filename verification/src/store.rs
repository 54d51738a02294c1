//! The concurrency-safe in-memory todo store's verified core.
//!
//! `TodoStorage` owns every todo record. Each record is keyed by a 128-bit
//! identifier drawn at creation; the record carries the canonical text of its
//! key as its `id`. The mutual-exclusion mechanism that shares one store
//! between concurrent callers lives outside the library; each operation here
//! is the work done while that exclusive access is held, so the contracts
//! below are the per-operation atomicity contract.

use vstd::prelude::*;

use crate::ids::{format_todo_key, new_todo_key, uuid_text};
use crate::todo::{Todo, TodoList, TodoView};

verus! {

struct Entry {
    key: u128,
    todo: Todo,
}

/// The authoritative mapping from generated identifiers to todo records.
pub struct TodoStorage {
    entries: Vec<Entry>,
}

/// How one `create` call changes the store's contents, as seen through its
/// keys and record views: a previously unseen key appends the new record; a
/// colliding key replaces the record stored under it, as an insert into a map
/// does.
pub open spec fn store_insert(
    old_keys: Seq<u128>,
    old_todos: Seq<TodoView>,
    key: u128,
    t: TodoView,
    new_keys: Seq<u128>,
    new_todos: Seq<TodoView>,
) -> bool {
    if !old_keys.contains(key) {
        new_keys == old_keys.push(key) && new_todos == old_todos.push(t)
    } else {
        exists|i: int|
            0 <= i < old_keys.len() && #[trigger] old_keys[i] == key && new_keys == old_keys
                && new_todos == old_todos.update(i, t)
    }
}

impl TodoStorage {
    /// The generated keys, in insertion order.
    pub closed spec fn keys(self) -> Seq<u128> {
        self.entries@.map_values(|e: Entry| e.key)
    }

    /// The stored record views, in insertion order.
    pub closed spec fn todos(self) -> Seq<TodoView> {
        self.entries@.map_values(|e: Entry| e.todo@)
    }

    /// The identifiers shown to clients, in insertion order.
    pub open spec fn ids(self) -> Seq<Seq<char>> {
        self.todos().map_values(|t: TodoView| t.id)
    }

    /// Well-formedness: keys are pairwise distinct, every record's `id` is the
    /// canonical 36-character text of its key, and the `id`s are therefore
    /// pairwise distinct as well.
    pub closed spec fn wf(self) -> bool {
        &&& forall|i: int, j: int|
            0 <= i < j < self.keys().len() ==> #[trigger] self.keys()[i] != #[trigger] self.keys()[j]
        &&& forall|i: int|
            0 <= i < self.todos().len() ==> (#[trigger] self.todos()[i]).id == uuid_text(
                self.keys()[i],
            )
        &&& forall|i: int| 0 <= i < self.todos().len() ==> (#[trigger] self.todos()[i]).id.len() == 36
        &&& forall|i: int, j: int|
            0 <= i < j < self.todos().len() ==> (#[trigger] self.todos()[i]).id != (#[trigger] self.todos()[j]).id
    }

    /// An empty store.
    pub fn new() -> (s: Self)
        ensures
            s.wf(),
            s.keys() == Seq::<u128>::empty(),
            s.todos() == Seq::<TodoView>::empty(),
    {
        let s = TodoStorage { entries: Vec::new() };
        proof {
            assert(s.keys() =~= Seq::<u128>::empty());
            assert(s.todos() =~= Seq::<TodoView>::empty());
        }
        s
    }

    /// Inserts a record under the given key, exactly as a map insert: a fresh
    /// key appends, a colliding key replaces. Returns a copy of the stored
    /// record; when the key is fresh, the record's `id` differs from every
    /// previously stored `id`.
    pub fn create_with_id(&mut self, key: u128, text: String) -> (t: Todo)
        requires
            old(self).wf(),
        ensures
            final(self).wf(),
            t@.id == uuid_text(key),
            t@.id.len() == 36,
            t@.text == text@,
            store_insert(
                old(self).keys(),
                old(self).todos(),
                key,
                t@,
                final(self).keys(),
                final(self).todos(),
            ),
            final(self).todos().contains(t@),
            !old(self).keys().contains(key) ==> forall|j: int|
                0 <= j < old(self).todos().len() ==> (#[trigger] old(self).todos()[j]).id != t@.id,
    {
        let n = self.entries.len();
        let mut i: usize = 0;
        let mut found: Option<usize> = None;
        while i < n
            invariant
                i <= n,
                n == self.keys().len(),
                match found {
                    Some(f) => f < i && self.keys()[f as int] == key,
                    None => forall|j: int| 0 <= j < i ==> #[trigger] self.keys()[j] != key,
                },
            decreases n - i,
        {
            if found.is_none() && self.entries[i].key == key {
                found = Some(i);
            }
            i += 1;
        }
        let id = format_todo_key(key);
        let todo = Todo { id, text };
        let result = todo.clone();
        match found {
            Some(f) => {
                proof {
                    assert(old(self).keys().contains(key));
                }
                self.entries.set(f, Entry { key, todo });
                proof {
                    assert(self.keys() =~= old(self).keys());
                    assert(self.todos() =~= old(self).todos().update(f as int, result@));
                    assert(self.todos()[f as int] == result@);
                    assert(self.todos().contains(result@));
                }
            },
            None => {
                proof {
                    assert(!old(self).keys().contains(key)) by {
                        if old(self).keys().contains(key) {
                            let j = choose|j: int|
                                0 <= j < old(self).keys().len() && old(self).keys()[j] == key;
                            assert(old(self).keys()[j] != key);
                        }
                    }
                }
                self.entries.push(Entry { key, todo });
                proof {
                    assert(self.keys() =~= old(self).keys().push(key));
                    assert(self.todos() =~= old(self).todos().push(result@));
                    assert(self.todos()[old(self).todos().len() as int] == result@);
                    assert(self.todos().contains(result@));
                }
            },
        }
        result
    }

    /// Creates a todo: draws a random 128-bit key, renders it as the record's
    /// `id`, and stores the record. The key is random, so the contract states
    /// what holds of every outcome: the store changes by exactly one map
    /// insert under some key whose text is the returned `id`.
    pub fn create(&mut self, text: String) -> (t: Todo)
        requires
            old(self).wf(),
        ensures
            final(self).wf(),
            t@.text == text@,
            t@.id.len() == 36,
            final(self).todos().contains(t@),
            exists|key: u128|
                t@.id == uuid_text(key) && #[trigger] store_insert(
                    old(self).keys(),
                    old(self).todos(),
                    key,
                    t@,
                    final(self).keys(),
                    final(self).todos(),
                ),
    {
        let key = new_todo_key();
        self.create_with_id(key, text)
    }

    /// Returns a snapshot copy of every stored record, in insertion order
    /// (callers may rely on no order at all). Taking a snapshot never fails.
    pub fn get_all(&self) -> (r: TodoList)
        ensures
            r@ == self.todos(),
    {
        let mut items: Vec<Todo> = Vec::new();
        let n = self.entries.len();
        let mut i: usize = 0;
        while i < n
            invariant
                i <= n,
                n == self.entries@.len(),
                items@.len() == i,
                forall|k: int| 0 <= k < i ==> (#[trigger] items@[k])@ == self.todos()[k],
            decreases n - i,
        {
            items.push(self.entries[i].todo.clone());
            i += 1;
        }
        let list = TodoList { items };
        proof {
            assert(list@ =~= self.todos());
        }
        list
    }
}

/// Law: a create followed at once by a snapshot yields exactly one record
/// carrying the new identifier; that record's text is the created text, its
/// identifier is non-empty, and no earlier record is lost or altered. Stated
/// for a create whose drawn key was previously unseen (a random 128-bit key
/// colliding with an existing one is the one excluded case).
pub proof fn lemma_create_then_get_all(
    pre: TodoStorage,
    post: TodoStorage,
    key: u128,
    t: TodoView,
)
    requires
        pre.wf(),
        post.wf(),
        !pre.keys().contains(key),
        store_insert(pre.keys(), pre.todos(), key, t, post.keys(), post.todos()),
    ensures
        post.todos().len() == pre.todos().len() + 1,
        post.todos()[pre.todos().len() as int] == t,
        forall|j: int| 0 <= j < pre.todos().len() ==> post.todos()[j] == pre.todos()[j],
        forall|j: int|
            0 <= j < post.todos().len() && (#[trigger] post.todos()[j]).id == t.id ==> j
                == pre.todos().len(),
        t.id.len() == 36,
        forall|j: int| 0 <= j < pre.todos().len() ==> (#[trigger] pre.todos()[j]).id != t.id,
{
    let n = pre.todos().len() as int;
    assert(post.todos() == pre.todos().push(t));
    assert(forall|j: int| 0 <= j < n ==> post.todos()[j] == pre.todos()[j]);
    assert(post.todos()[n] == t);
    assert forall|j: int| 0 <= j < post.todos().len() && (#[trigger] post.todos()[j]).id == t.id
        implies j == n by {
        if j < n {
            assert(post.todos()[j].id != post.todos()[n].id);
        }
    }
    assert(t.id.len() == 36) by {
        assert(post.todos()[n].id.len() == 36);
    }
}

/// Law: identifiers are unique across any sequence of creates: the ids of a
/// well-formed store are pairwise distinct, so the id set of a store holding
/// N records has cardinality N.
pub proof fn lemma_ids_unique(s: TodoStorage)
    requires
        s.wf(),
    ensures
        s.ids().no_duplicates(),
        s.ids().to_set().len() == s.todos().len(),
{
    assert forall|i: int, j: int|
        0 <= i < s.ids().len() && 0 <= j < s.ids().len() && i != j implies s.ids()[i]
        != s.ids()[j] by {
        assert(s.ids()[i] == s.todos()[i].id);
        assert(s.ids()[j] == s.todos()[j].id);
    }
    s.ids().unique_seq_to_set();
}

} // verus!
