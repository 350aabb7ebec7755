use vstd::prelude::*;

verus! {

/// A task: a name and whether it has been done.
pub struct Todo {
    pub name: String,
    pub completed: bool,
}

/// A named, ordered list of tasks.
pub struct Page {
    pub name: String,
    pub todos: Vec<Todo>,
}

/// The mathematical value of a [`Todo`].
pub struct TodoView {
    pub name: Seq<char>,
    pub completed: bool,
}

/// The mathematical value of a [`Page`].
pub struct PageView {
    pub name: Seq<char>,
    pub todos: Seq<TodoView>,
}

impl View for Todo {
    type V = TodoView;

    open spec fn view(&self) -> TodoView {
        TodoView { name: self.name@, completed: self.completed }
    }
}

pub open spec fn todos_view(todos: Seq<Todo>) -> Seq<TodoView> {
    todos.map_values(|t: Todo| t@)
}

pub open spec fn pages_view(pages: Seq<Page>) -> Seq<PageView> {
    pages.map_values(|p: Page| p@)
}

impl View for Page {
    type V = PageView;

    open spec fn view(&self) -> PageView {
        PageView { name: self.name@, todos: todos_view(self.todos@) }
    }
}

impl Todo {
    /// A task that is not yet done.
    pub fn new(name: String) -> (r: Todo)
        ensures
            r@ == (TodoView { name: name@, completed: false }),
    {
        Todo { name, completed: false }
    }
}

impl Page {
    /// A page without tasks.
    pub fn new(name: String) -> (r: Page)
        ensures
            r@ == (PageView { name: name@, todos: Seq::empty() }),
    {
        let r = Page { name, todos: Vec::new() };
        assert(r@.todos =~= Seq::empty());
        r
    }
}

} // verus!
