//! The wire data model: a todo record, the create request, and the list
//! snapshot exchanged between the gateway and the backend.

use vstd::prelude::*;

verus! {

/// Mathematical view of a [`Todo`]: its two fields as character sequences.
pub ghost struct TodoView {
    pub id: Seq<char>,
    pub text: Seq<char>,
}

/// Body of a create request: the user-supplied text of the new todo.
pub struct CreateTodo {
    pub text: String,
}

/// One todo record: an identifier assigned by the store at creation, and the
/// user-supplied text. Both are immutable after creation.
pub struct Todo {
    pub id: String,
    pub text: String,
}

/// A snapshot of the store's contents, in no guaranteed order.
pub struct TodoList {
    pub items: Vec<Todo>,
}

impl View for Todo {
    type V = TodoView;

    open spec fn view(&self) -> TodoView {
        TodoView { id: self.id@, text: self.text@ }
    }
}

impl View for CreateTodo {
    type V = Seq<char>;

    open spec fn view(&self) -> Seq<char> {
        self.text@
    }
}

impl View for TodoList {
    type V = Seq<TodoView>;

    open spec fn view(&self) -> Seq<TodoView> {
        self.items@.map_values(|t: Todo| t@)
    }
}

impl Clone for Todo {
    fn clone(&self) -> (r: Self)
        ensures
            r@ == self@,
    {
        Todo { id: self.id.clone(), text: self.text.clone() }
    }
}

} // verus!
