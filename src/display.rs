use vstd::prelude::*;
use vstd::string::StringExecFns;
use crate::session::{App, AppView, Mode, cur_todos};

verus! {

/// How a row of the task list is drawn.
#[derive(Clone, Copy, Debug, PartialEq, Eq, Structural)]
pub enum RowStyle {
    /// The selected task.
    Selected,
    /// A finished task.
    Done,
    /// An unfinished task.
    Pending,
    /// The task being typed, shown where it will be listed.
    Preview,
}

/// One line of the task list.
pub struct Row {
    pub text: String,
    pub style: RowStyle,
}

pub open spec fn row_view(r: Row) -> (Seq<char>, RowStyle) {
    (r.text@, r.style)
}

/// The selection marker is shown unless a new task is being typed.
pub open spec fn is_marked(v: AppView, i: int) -> bool {
    i == v.selected && v.mode != Mode::CreatingTodo
}

/// A task's row: marker, checkbox, name.
pub open spec fn todo_row(v: AppView, i: int) -> (Seq<char>, RowStyle) {
    let t = cur_todos(v)[i];
    let marker = if is_marked(v, i) { ">> "@ } else { "   "@ };
    let check = if t.completed { "[X] "@ } else { "[ ] "@ };
    let style = if is_marked(v, i) {
        RowStyle::Selected
    } else if t.completed {
        RowStyle::Done
    } else {
        RowStyle::Pending
    };
    (marker + check + t.name, style)
}

/// The row of the task being typed.
pub open spec fn preview_row(v: AppView) -> (Seq<char>, RowStyle) {
    (">> [ ] "@ + v.text, RowStyle::Preview)
}

/// The rows of the first `k` tasks, with the preview after the selected task
/// once that task is among them.
pub open spec fn rows_upto(v: AppView, k: int) -> Seq<(Seq<char>, RowStyle)> {
    let base = Seq::new(k as nat, |i: int| todo_row(v, i));
    if v.mode == Mode::CreatingTodo && v.selected < k {
        base.insert(v.selected + 1, preview_row(v))
    } else {
        base
    }
}

/// The task list as drawn: one row per task of the current page, and while a
/// task is being typed its preview after the selected task, or alone when
/// the page has none.
pub open spec fn list_rows(v: AppView) -> Seq<(Seq<char>, RowStyle)> {
    if v.mode == Mode::CreatingTodo && cur_todos(v).len() == 0 {
        seq![preview_row(v)]
    } else {
        rows_upto(v, cur_todos(v).len() as int)
    }
}

impl App {
    /// The rows of the current page's task list.
    pub fn rows(&self) -> (r: Vec<Row>)
        requires
            self.wf(),
        ensures
            r@.map_values(|x: Row| row_view(x)) == list_rows(self@),
    {
        let ghost v = self@;
        let todos = &self.pages[self.current_page_index].todos;
        let creating = self.mode == Mode::CreatingTodo;
        let mut out: Vec<Row> = Vec::new();
        let mut i: usize = 0;
        while i < todos.len()
            invariant
                v == self@,
                self.wf(),
                todos@ == self.pages@[self.current_page_index as int].todos@,
                creating == (v.mode == Mode::CreatingTodo),
                i <= todos.len(),
                out@.map_values(|x: Row| row_view(x)) == rows_upto(v, i as int),
            decreases todos.len() - i,
        {
            let t = &todos[i];
            let marked = i == self.selected_todo_index && !creating;
            let marker = if marked {
                <String as StringExecFns>::from_str(">> ")
            } else {
                <String as StringExecFns>::from_str("   ")
            };
            let check = if t.completed {
                "[X] "
            } else {
                "[ ] "
            };
            let style = if marked {
                RowStyle::Selected
            } else if t.completed {
                RowStyle::Done
            } else {
                RowStyle::Pending
            };
            let text = marker.concat(check).concat(t.name.as_str());
            let ghost before = out@.map_values(|x: Row| row_view(x));
            out.push(Row { text, style });
            proof {
                assert(row_view(out@[out@.len() - 1]) == todo_row(v, i as int));
                assert(out@.map_values(|x: Row| row_view(x)) =~= before.push(todo_row(v, i as int)));
                let base = Seq::new(i as nat, |k: int| todo_row(v, k));
                let next = Seq::new((i + 1) as nat, |k: int| todo_row(v, k));
                assert(next =~= base.push(todo_row(v, i as int)));
                if creating && v.selected < i {
                    assert(next.insert(v.selected + 1, preview_row(v)) =~= base.insert(
                        v.selected + 1,
                        preview_row(v),
                    ).push(todo_row(v, i as int)));
                }
                if creating && v.selected == i {
                    assert(next.insert(v.selected + 1, preview_row(v)) =~= next.push(preview_row(v)));
                }
            }
            if creating && i == self.selected_todo_index {
                let preview = <String as StringExecFns>::from_str(">> [ ] ").concat(
                    self.preview_text().as_str(),
                );
                out.push(Row { text: preview, style: RowStyle::Preview });
            }
            assert(out@.map_values(|x: Row| row_view(x)) =~= rows_upto(v, i + 1));
            i = i + 1;
        }
        if creating && todos.len() == 0 {
            let preview = <String as StringExecFns>::from_str(">> [ ] ").concat(
                self.preview_text().as_str(),
            );
            out.push(Row { text: preview, style: RowStyle::Preview });
            assert(out@.map_values(|x: Row| row_view(x)) =~= list_rows(v));
        }
        out
    }
}

} // verus!
