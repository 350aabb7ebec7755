use vstd::prelude::*;
use vstd::string::StringExecFns;
use vstd::arithmetic::div_mod::{lemma_small_mod, lemma_mod_self_0, lemma_mod_add_multiples_vanish};
use crate::editor::{EditBuffer, EditResult, edit_result, edited_text, edited_cursor, lemma_edit_in_range};
use crate::keys::{Key, KeyCode};
use crate::model::{Page, PageView, Todo, TodoView, pages_view, todos_view};
use crate::text::{chars_of, string_of};

verus! {

/// Which line, if any, is being typed.
#[derive(Clone, Copy, Debug, PartialEq, Eq, Structural)]
pub enum Mode {
    Normal,
    CreatingTodo,
    CreatingPage,
    RenamingPage,
    RenamingTodo,
}

/// What the caller must do after a key has been handled.
#[derive(Clone, Copy, Debug, PartialEq, Eq, Structural)]
pub enum Effect {
    /// Nothing beyond redrawing.
    Idle,
    /// The document changed: write it to storage.
    Persist,
    /// The user asked to leave.
    Quit,
}

/// The state of an editing session: the document, the selection, and the
/// line being typed.
pub struct App {
    pub pages: Vec<Page>,
    pub current_page_index: usize,
    pub selected_todo_index: usize,
    pub mode: Mode,
    pub buffer: EditBuffer,
    pub should_quit: bool,
    pub context_prefix: String,
}

/// The mathematical value of an [`App`].
pub struct AppView {
    pub pages: Seq<PageView>,
    pub page: int,
    pub selected: int,
    pub mode: Mode,
    pub text: Seq<char>,
    pub cursor: int,
    pub quit: bool,
}

impl View for App {
    type V = AppView;

    open spec fn view(&self) -> AppView {
        AppView {
            pages: pages_view(self.pages@),
            page: self.current_page_index as int,
            selected: self.selected_todo_index as int,
            mode: self.mode,
            text: self.buffer.text@,
            cursor: self.buffer.cursor as int,
            quit: self.should_quit,
        }
    }
}

/// A selection into a list of `len` items: 0 when the list is empty, else an
/// index of it.
pub open spec fn selection_valid(sel: int, len: int) -> bool {
    if len == 0 {
        sel == 0
    } else {
        0 <= sel < len
    }
}

/// The session's invariant: a page always exists, both indices are valid,
/// the cursor lies within the text, and the text is empty outside the modes
/// that type.
pub open spec fn view_wf(v: AppView) -> bool {
    &&& v.pages.len() >= 1
    &&& 0 <= v.page < v.pages.len()
    &&& selection_valid(v.selected, v.pages[v.page].todos.len() as int)
    &&& 0 <= v.cursor <= v.text.len()
    &&& v.mode == Mode::Normal ==> v.text.len() == 0 && v.cursor == 0
    &&& v.mode == Mode::RenamingTodo ==> v.pages[v.page].todos.len() > 0
}

pub open spec fn cur_todos(v: AppView) -> Seq<TodoView> {
    v.pages[v.page].todos
}

/// The pages with the current page's tasks replaced by `ts`.
pub open spec fn with_todos(v: AppView, ts: Seq<TodoView>) -> Seq<PageView> {
    v.pages.update(v.page, PageView { name: v.pages[v.page].name, todos: ts })
}

/// `s` with the items at `i` and `j` exchanged.
pub open spec fn swapped<A>(s: Seq<A>, i: int, j: int) -> Seq<A> {
    s.update(i, s[j]).update(j, s[i])
}

/// The selection after an item was removed, leaving `len` items.
pub open spec fn clamped(sel: int, len: int) -> int {
    if len == 0 {
        0
    } else if sel >= len {
        len - 1
    } else {
        sel
    }
}

/// Back to normal mode with an empty line.
pub open spec fn to_normal(v: AppView) -> AppView {
    AppView { mode: Mode::Normal, text: Seq::empty(), cursor: 0, ..v }
}

/// Down: the next task, cyclically; Shift+Down carries the task along.
pub open spec fn step_down(v: AppView, shift: bool) -> (AppView, Effect) {
    let n = cur_todos(v).len() as int;
    let next = (v.selected + 1) % n;
    if shift {
        if n > 1 {
            (
                AppView { pages: with_todos(v, swapped(cur_todos(v), v.selected, next)), selected: next, ..v },
                Effect::Persist,
            )
        } else {
            (v, Effect::Idle)
        }
    } else if n > 0 {
        (AppView { selected: next, ..v }, Effect::Idle)
    } else {
        (v, Effect::Idle)
    }
}

/// Up: the previous task, cyclically; Shift+Up carries the task along.
pub open spec fn step_up(v: AppView, shift: bool) -> (AppView, Effect) {
    let n = cur_todos(v).len() as int;
    let prev = (v.selected + n - 1) % n;
    if shift {
        if n > 1 {
            (
                AppView { pages: with_todos(v, swapped(cur_todos(v), v.selected, prev)), selected: prev, ..v },
                Effect::Persist,
            )
        } else {
            (v, Effect::Idle)
        }
    } else if n > 0 {
        (AppView { selected: prev, ..v }, Effect::Idle)
    } else {
        (v, Effect::Idle)
    }
}

/// Right: the next page, cyclically; Shift+Right carries the page along.
pub open spec fn step_right(v: AppView, shift: bool) -> (AppView, Effect) {
    let n = v.pages.len() as int;
    let next = (v.page + 1) % n;
    if shift {
        if n > 1 {
            (AppView { pages: swapped(v.pages, v.page, next), page: next, ..v }, Effect::Persist)
        } else {
            (v, Effect::Idle)
        }
    } else {
        (AppView { page: next, selected: 0, ..v }, Effect::Idle)
    }
}

/// Left: the previous page, cyclically; Shift+Left carries the page along.
pub open spec fn step_left(v: AppView, shift: bool) -> (AppView, Effect) {
    let n = v.pages.len() as int;
    let prev = (v.page + n - 1) % n;
    if shift {
        if n > 1 {
            (AppView { pages: swapped(v.pages, v.page, prev), page: prev, ..v }, Effect::Persist)
        } else {
            (v, Effect::Idle)
        }
    } else {
        (AppView { page: prev, selected: 0, ..v }, Effect::Idle)
    }
}

/// Enter in normal mode: flips the selected task's completion.
pub open spec fn step_toggle(v: AppView) -> (AppView, Effect) {
    let ts = cur_todos(v);
    if ts.len() > 0 {
        let t = ts[v.selected];
        (
            AppView {
                pages: with_todos(v, ts.update(v.selected, TodoView { name: t.name, completed: !t.completed })),
                ..v
            },
            Effect::Persist,
        )
    } else {
        (v, Effect::Idle)
    }
}

/// `d`: removes the selected task.
pub open spec fn step_delete(v: AppView) -> (AppView, Effect) {
    let ts = cur_todos(v);
    if ts.len() > 0 {
        let rest = ts.remove(v.selected);
        (
            AppView { pages: with_todos(v, rest), selected: clamped(v.selected, rest.len() as int), ..v },
            Effect::Persist,
        )
    } else {
        (v, Effect::Idle)
    }
}

/// The page that the digit key `c` names, counting from 0.
pub open spec fn digit_page(c: char) -> int {
    c as int - '1' as int
}

/// A digit key: another page is shown, the current page is renamed, and a
/// digit past the last page starts a new page.
pub open spec fn step_digit(v: AppView, c: char) -> (AppView, Effect) {
    let i = digit_page(c);
    if i < v.pages.len() {
        if i == v.page {
            let name = v.pages[v.page].name;
            (AppView { mode: Mode::RenamingPage, text: name, cursor: name.len() as int, ..v }, Effect::Idle)
        } else {
            (AppView { page: i, selected: 0, ..v }, Effect::Idle)
        }
    } else {
        (AppView { mode: Mode::CreatingPage, text: Seq::empty(), cursor: 0, ..v }, Effect::Idle)
    }
}

/// `r`: starts renaming the selected task.
pub open spec fn step_rename_todo(v: AppView) -> (AppView, Effect) {
    let ts = cur_todos(v);
    if ts.len() > 0 {
        let name = ts[v.selected].name;
        (AppView { mode: Mode::RenamingTodo, text: name, cursor: name.len() as int, ..v }, Effect::Idle)
    } else {
        (v, Effect::Idle)
    }
}

/// A key in normal mode.
pub open spec fn step_normal(v: AppView, k: Key) -> (AppView, Effect) {
    match k.code {
        KeyCode::Down => step_down(v, k.shift),
        KeyCode::Up => step_up(v, k.shift),
        KeyCode::Right => step_right(v, k.shift),
        KeyCode::Left => step_left(v, k.shift),
        KeyCode::Enter => step_toggle(v),
        KeyCode::Char(c) => {
            if c == 'q' {
                (AppView { quit: true, ..v }, Effect::Quit)
            } else if c == 'n' {
                (AppView { mode: Mode::CreatingTodo, text: Seq::empty(), cursor: 0, ..v }, Effect::Idle)
            } else if c == 'j' {
                step_down(v, k.shift)
            } else if c == 'k' {
                step_up(v, k.shift)
            } else if c == 'd' {
                step_delete(v)
            } else if c == 'r' {
                step_rename_todo(v)
            } else if c == 'l' {
                step_right(v, k.shift)
            } else if c == 'h' {
                step_left(v, k.shift)
            } else if '1' <= c <= '9' {
                step_digit(v, c)
            } else {
                (v, Effect::Idle)
            }
        },
        _ => (v, Effect::Idle),
    }
}

/// Enter while typing: the line is committed as the mode says.
pub open spec fn step_commit(v: AppView) -> (AppView, Effect) {
    let base = to_normal(v);
    let ts = cur_todos(v);
    match v.mode {
        Mode::CreatingTodo => {
            if v.text.len() > 0 {
                (
                    AppView {
                        pages: with_todos(v, ts.push(TodoView { name: v.text, completed: false })),
                        selected: ts.len() as int,
                        ..base
                    },
                    Effect::Persist,
                )
            } else {
                (base, Effect::Idle)
            }
        },
        Mode::CreatingPage => (
            AppView {
                pages: v.pages.push(PageView { name: v.text, todos: Seq::empty() }),
                page: v.pages.len() as int,
                selected: 0,
                ..base
            },
            Effect::Persist,
        ),
        Mode::RenamingPage => {
            let n = v.pages.len() as int;
            if v.text.len() == 0 {
                if n > 1 {
                    (
                        AppView {
                            pages: v.pages.remove(v.page),
                            page: if v.page >= n - 1 { n - 2 } else { v.page },
                            selected: 0,
                            ..base
                        },
                        Effect::Persist,
                    )
                } else {
                    (base, Effect::Persist)
                }
            } else {
                (
                    AppView { pages: v.pages.update(v.page, PageView { name: v.text, todos: ts }), ..base },
                    Effect::Persist,
                )
            }
        },
        Mode::RenamingTodo => {
            if ts.len() > 0 {
                if v.text.len() == 0 {
                    let rest = ts.remove(v.selected);
                    (
                        AppView { pages: with_todos(v, rest), selected: clamped(v.selected, rest.len() as int), ..base },
                        Effect::Persist,
                    )
                } else {
                    let t = ts[v.selected];
                    (
                        AppView {
                            pages: with_todos(v, ts.update(v.selected, TodoView { name: v.text, completed: t.completed })),
                            ..base
                        },
                        Effect::Persist,
                    )
                }
            } else {
                (base, Effect::Idle)
            }
        },
        Mode::Normal => (v, Effect::Idle),
    }
}

/// A key while a line is being typed. Up and Down still move the selection;
/// every other key goes to the line editor.
pub open spec fn step_typing(v: AppView, k: Key) -> (AppView, Effect) {
    if k.code == KeyCode::Down {
        step_down(v, false)
    } else if k.code == KeyCode::Up {
        step_up(v, false)
    } else {
        match edit_result(k) {
            EditResult::Enter => step_commit(v),
            EditResult::Esc => (to_normal(v), Effect::Idle),
            EditResult::Continue => (
                AppView { text: edited_text(v.text, v.cursor, k), cursor: edited_cursor(v.text, v.cursor, k), ..v },
                Effect::Idle,
            ),
        }
    }
}

/// The session after one key, and what the caller must do.
pub open spec fn step(v: AppView, k: Key) -> (AppView, Effect) {
    if v.mode == Mode::Normal {
        step_normal(v, k)
    } else {
        step_typing(v, k)
    }
}

/// The session after a sequence of keys.
pub open spec fn run(v: AppView, keys: Seq<Key>) -> AppView
    decreases keys.len(),
{
    if keys.len() == 0 {
        v
    } else {
        run(step(v, keys[0]).0, keys.drop_first())
    }
}

/// One key keeps the session's invariant.
pub proof fn lemma_step_keeps_wf(v: AppView, k: Key)
    requires
        view_wf(v),
    ensures
        view_wf(step(v, k).0),
{
    lemma_edit_in_range(v.text, v.cursor, k);
    let n = cur_todos(v).len() as int;
    let np = v.pages.len() as int;
    if n > 0 {
        assert(0 <= (v.selected + 1) % n < n);
        assert(0 <= (v.selected + n - 1) % n < n);
    }
    assert(0 <= (v.page + 1) % np < np);
    assert(0 <= (v.page + np - 1) % np < np);
}

/// Whatever keys arrive, at least one page exists, the current page is one
/// of them, and the selected task is an index of its tasks, or 0 when it
/// has none.
pub proof fn lemma_run_keeps_indices_valid(v: AppView, keys: Seq<Key>)
    requires
        view_wf(v),
    ensures
        view_wf(run(v, keys)),
        run(v, keys).pages.len() >= 1,
        0 <= run(v, keys).page < run(v, keys).pages.len(),
        selection_valid(run(v, keys).selected, cur_todos(run(v, keys)).len() as int),
    decreases keys.len(),
{
    if keys.len() > 0 {
        lemma_step_keeps_wf(v, keys[0]);
        lemma_run_keeps_indices_valid(step(v, keys[0]).0, keys.drop_first());
    }
}

/// Completing a task twice gives back the session as it was.
pub proof fn lemma_toggle_twice(v: AppView, k: Key)
    requires
        view_wf(v),
        v.mode == Mode::Normal,
        k.code == KeyCode::Enter,
    ensures
        step(step(v, k).0, k).0 == v,
{
    let w = step(v, k).0;
    if cur_todos(v).len() > 0 {
        let t = cur_todos(v)[v.selected];
        assert(cur_todos(w) == cur_todos(v).update(v.selected, TodoView { name: t.name, completed: !t.completed }));
        assert(cur_todos(w).update(v.selected, TodoView { name: t.name, completed: t.completed }) =~= cur_todos(v));
        assert(with_todos(w, cur_todos(v)) =~= v.pages);
    }
}

/// Every key that changes the document asks for it to be saved.
pub proof fn lemma_changes_are_persisted(v: AppView, k: Key)
    requires
        view_wf(v),
    ensures
        step(v, k).0.pages != v.pages ==> step(v, k).1 == Effect::Persist,
{
}

/// The name given to the page that an empty document starts with.
pub open spec fn default_page_name() -> Seq<char> {
    seq!['m', 'a', 'i', 'n']
}

/// The pages a session starts with: those loaded, or a single empty page
/// named "main" when none were.
pub open spec fn initial_pages(loaded: Seq<PageView>) -> Seq<PageView> {
    if loaded.len() == 0 {
        seq![PageView { name: default_page_name(), todos: Seq::empty() }]
    } else {
        loaded
    }
}

/// Cyclic steps over `n` positions, without the modulo.
pub proof fn lemma_cyclic_steps(cur: int, n: int)
    requires
        0 <= cur < n,
    ensures
        (cur + 1) % n == if cur + 1 < n { cur + 1 } else { 0 },
        (cur + n - 1) % n == if cur > 0 { cur - 1 } else { n - 1 },
{
    if cur + 1 < n {
        lemma_small_mod((cur + 1) as nat, n as nat);
    } else {
        lemma_mod_self_0(n);
    }
    if cur > 0 {
        lemma_mod_add_multiples_vanish(cur - 1, n);
        lemma_small_mod((cur - 1) as nat, n as nat);
    } else {
        lemma_small_mod((n - 1) as nat, n as nat);
    }
}

/// Position after `cur` among `n`, cyclically.
pub fn next_index(cur: usize, n: usize) -> (r: usize)
    requires
        cur < n,
    ensures
        r == (cur + 1) % (n as int),
{
    proof {
        lemma_cyclic_steps(cur as int, n as int);
    }
    if cur + 1 < n {
        cur + 1
    } else {
        0
    }
}

/// Position before `cur` among `n`, cyclically.
pub fn prev_index(cur: usize, n: usize) -> (r: usize)
    requires
        cur < n,
    ensures
        r == (cur + n - 1) % (n as int),
{
    proof {
        lemma_cyclic_steps(cur as int, n as int);
    }
    if cur > 0 {
        cur - 1
    } else {
        n - 1
    }
}

/// `v` with the items at `i` and `j` exchanged.
pub fn swap_items<T>(v: &mut Vec<T>, i: usize, j: usize)
    requires
        i < old(v).len(),
        j < old(v).len(),
        i != j,
    ensures
        final(v)@ == swapped(old(v)@, i as int, j as int),
{
    let ghost s = v@;
    let (lo, hi) = if i < j { (i, j) } else { (j, i) };
    let x = v.remove(hi);
    let y = v.remove(lo);
    v.insert(lo, x);
    v.insert(hi, y);
    assert(v@ =~= swapped(s, i as int, j as int));
}

impl App {
    pub open spec fn wf(&self) -> bool {
        view_wf(self@)
    }

    /// A session on the loaded pages, showing the first page in normal mode.
    pub fn new(pages: Vec<Page>, context_prefix: String) -> (r: App)
        ensures
            r.wf(),
            r@ == (AppView {
                pages: initial_pages(pages_view(pages@)),
                page: 0,
                selected: 0,
                mode: Mode::Normal,
                text: Seq::empty(),
                cursor: 0,
                quit: false,
            }),
            r.context_prefix == context_prefix,
    {
        let mut pages = pages;
        if pages.len() == 0 {
            proof {
                reveal_strlit("main");
            }
            let name = <String as StringExecFns>::from_str("main");
            assert(name@ =~= default_page_name());
            pages.push(Page::new(name));
            assert(pages_view(pages@)[0] == PageView { name: default_page_name(), todos: Seq::empty() });
            assert(pages_view(pages@) =~= initial_pages(Seq::empty()));
        }
        let r = App {
            pages,
            current_page_index: 0,
            selected_todo_index: 0,
            mode: Mode::Normal,
            buffer: EditBuffer::new(),
            should_quit: false,
            context_prefix,
        };
        r
    }

    /// The number of tasks on the current page.
    pub fn current_len(&self) -> (r: usize)
        requires
            self.wf(),
        ensures
            r == cur_todos(self@).len(),
    {
        self.pages[self.current_page_index].todos.len()
    }

    /// Down or `j`; with Shift the selected task moves down with it.
    pub fn move_down(&mut self, shift: bool) -> (r: Effect)
        requires
            old(self).wf(),
        ensures
            (final(self)@, r) == step_down(old(self)@, shift),
            final(self).context_prefix == old(self).context_prefix,
    {
        let n = self.current_len();
        if n == 0 || (shift && n < 2) {
            return Effect::Idle;
        }
        let cur = self.selected_todo_index;
        let next = next_index(cur, n);
        proof {
            lemma_cyclic_steps(cur as int, n as int);
        }
        if shift {
            let p = self.current_page_index;
            let ghost old_v = self@;
            swap_items(&mut self.pages[p].todos, cur, next);
            assert(todos_view(self.pages@[p as int].todos@) =~= swapped(cur_todos(old_v), cur as int, next as int));
            assert(pages_view(self.pages@) =~= with_todos(old_v, swapped(cur_todos(old_v), cur as int, next as int)));
            self.selected_todo_index = next;
            Effect::Persist
        } else {
            self.selected_todo_index = next;
            Effect::Idle
        }
    }

    /// Up or `k`; with Shift the selected task moves up with it.
    pub fn move_up(&mut self, shift: bool) -> (r: Effect)
        requires
            old(self).wf(),
        ensures
            (final(self)@, r) == step_up(old(self)@, shift),
            final(self).context_prefix == old(self).context_prefix,
    {
        let n = self.current_len();
        if n == 0 || (shift && n < 2) {
            return Effect::Idle;
        }
        let cur = self.selected_todo_index;
        let prev = prev_index(cur, n);
        proof {
            lemma_cyclic_steps(cur as int, n as int);
        }
        if shift {
            let p = self.current_page_index;
            let ghost old_v = self@;
            swap_items(&mut self.pages[p].todos, cur, prev);
            assert(todos_view(self.pages@[p as int].todos@) =~= swapped(cur_todos(old_v), cur as int, prev as int));
            assert(pages_view(self.pages@) =~= with_todos(old_v, swapped(cur_todos(old_v), cur as int, prev as int)));
            self.selected_todo_index = prev;
            Effect::Persist
        } else {
            self.selected_todo_index = prev;
            Effect::Idle
        }
    }

    /// Right or `l`; with Shift the current page moves right with it.
    pub fn page_right(&mut self, shift: bool) -> (r: Effect)
        requires
            old(self).wf(),
        ensures
            (final(self)@, r) == step_right(old(self)@, shift),
            final(self).context_prefix == old(self).context_prefix,
    {
        let n = self.pages.len();
        let cur = self.current_page_index;
        let next = next_index(cur, n);
        proof {
            lemma_cyclic_steps(cur as int, n as int);
        }
        if shift {
            if n < 2 {
                return Effect::Idle;
            }
            let ghost old_v = self@;
            swap_items(&mut self.pages, cur, next);
            assert(pages_view(self.pages@) =~= swapped(old_v.pages, cur as int, next as int));
            self.current_page_index = next;
            Effect::Persist
        } else {
            self.current_page_index = next;
            self.selected_todo_index = 0;
            Effect::Idle
        }
    }

    /// Left or `h`; with Shift the current page moves left with it.
    pub fn page_left(&mut self, shift: bool) -> (r: Effect)
        requires
            old(self).wf(),
        ensures
            (final(self)@, r) == step_left(old(self)@, shift),
            final(self).context_prefix == old(self).context_prefix,
    {
        let n = self.pages.len();
        let cur = self.current_page_index;
        let prev = prev_index(cur, n);
        proof {
            lemma_cyclic_steps(cur as int, n as int);
        }
        if shift {
            if n < 2 {
                return Effect::Idle;
            }
            let ghost old_v = self@;
            swap_items(&mut self.pages, cur, prev);
            assert(pages_view(self.pages@) =~= swapped(old_v.pages, cur as int, prev as int));
            self.current_page_index = prev;
            Effect::Persist
        } else {
            self.current_page_index = prev;
            self.selected_todo_index = 0;
            Effect::Idle
        }
    }

    /// Enter in normal mode: flips whether the selected task is done.
    pub fn toggle_selected(&mut self) -> (r: Effect)
        requires
            old(self).wf(),
        ensures
            (final(self)@, r) == step_toggle(old(self)@),
            final(self).context_prefix == old(self).context_prefix,
    {
        let n = self.current_len();
        if n == 0 {
            return Effect::Idle;
        }
        let p = self.current_page_index;
        let i = self.selected_todo_index;
        let ghost old_v = self@;
        let done = self.pages[p].todos[i].completed;
        self.pages[p].todos[i].completed = !done;
        let ghost t = cur_todos(old_v)[i as int];
        assert(todos_view(self.pages@[p as int].todos@) =~= cur_todos(old_v).update(
            i as int,
            TodoView { name: t.name, completed: !t.completed },
        ));
        assert(pages_view(self.pages@) =~= with_todos(
            old_v,
            cur_todos(old_v).update(i as int, TodoView { name: t.name, completed: !t.completed }),
        ));
        Effect::Persist
    }

    /// Removes the selected task from the current page, if there is one.
    fn remove_selected(&mut self)
        requires
            old(self).wf(),
            cur_todos(old(self)@).len() > 0,
        ensures
            final(self)@ == (AppView {
                pages: with_todos(old(self)@, cur_todos(old(self)@).remove(old(self)@.selected)),
                selected: clamped(old(self)@.selected, cur_todos(old(self)@).len() - 1),
                ..old(self)@
            }),
            final(self).context_prefix == old(self).context_prefix,
    {
        let p = self.current_page_index;
        let i = self.selected_todo_index;
        let ghost old_v = self@;
        self.pages[p].todos.remove(i);
        assert(todos_view(self.pages@[p as int].todos@) =~= cur_todos(old_v).remove(i as int));
        assert(pages_view(self.pages@) =~= with_todos(old_v, cur_todos(old_v).remove(i as int)));
        let n = self.pages[p].todos.len();
        if n == 0 {
            self.selected_todo_index = 0;
        } else if i >= n {
            self.selected_todo_index = n - 1;
        }
    }

    /// `d`: deletes the selected task.
    pub fn delete_selected(&mut self) -> (r: Effect)
        requires
            old(self).wf(),
        ensures
            (final(self)@, r) == step_delete(old(self)@),
            final(self).context_prefix == old(self).context_prefix,
    {
        if self.current_len() == 0 {
            return Effect::Idle;
        }
        self.remove_selected();
        Effect::Persist
    }

    /// A digit key `1` to `9` in normal mode.
    pub fn press_digit(&mut self, c: char) -> (r: Effect)
        requires
            old(self).wf(),
            '1' <= c <= '9',
        ensures
            (final(self)@, r) == step_digit(old(self)@, c),
            final(self).context_prefix == old(self).context_prefix,
    {
        let i = (c as u32 - '1' as u32) as usize;
        if i < self.pages.len() {
            if i == self.current_page_index {
                let name = chars_of(&self.pages[i].name);
                self.buffer = EditBuffer::with_text(name);
                self.mode = Mode::RenamingPage;
            } else {
                self.current_page_index = i;
                self.selected_todo_index = 0;
            }
        } else {
            self.buffer.clear();
            self.mode = Mode::CreatingPage;
        }
        Effect::Idle
    }

    /// `r` in normal mode: the selected task's name becomes the line.
    pub fn start_rename_todo(&mut self) -> (r: Effect)
        requires
            old(self).wf(),
        ensures
            (final(self)@, r) == step_rename_todo(old(self)@),
            final(self).context_prefix == old(self).context_prefix,
    {
        if self.current_len() == 0 {
            return Effect::Idle;
        }
        let p = self.current_page_index;
        let name = chars_of(&self.pages[p].todos[self.selected_todo_index].name);
        self.buffer = EditBuffer::with_text(name);
        self.mode = Mode::RenamingTodo;
        Effect::Idle
    }

    /// A key in normal mode.
    pub fn normal_key(&mut self, key: Key) -> (r: Effect)
        requires
            old(self).wf(),
            old(self).mode == Mode::Normal,
        ensures
            (final(self)@, r) == step_normal(old(self)@, key),
            final(self).context_prefix == old(self).context_prefix,
    {
        match key.code {
            KeyCode::Down => self.move_down(key.shift),
            KeyCode::Up => self.move_up(key.shift),
            KeyCode::Right => self.page_right(key.shift),
            KeyCode::Left => self.page_left(key.shift),
            KeyCode::Enter => self.toggle_selected(),
            KeyCode::Char(c) => {
                if c == 'q' {
                    self.should_quit = true;
                    Effect::Quit
                } else if c == 'n' {
                    self.buffer.clear();
                    self.mode = Mode::CreatingTodo;
                    Effect::Idle
                } else if c == 'j' {
                    self.move_down(key.shift)
                } else if c == 'k' {
                    self.move_up(key.shift)
                } else if c == 'd' {
                    self.delete_selected()
                } else if c == 'r' {
                    self.start_rename_todo()
                } else if c == 'l' {
                    self.page_right(key.shift)
                } else if c == 'h' {
                    self.page_left(key.shift)
                } else if '1' <= c && c <= '9' {
                    self.press_digit(c)
                } else {
                    Effect::Idle
                }
            },
            _ => Effect::Idle,
        }
    }

    /// Enter while typing: applies the line as the mode says and returns to
    /// normal mode.
    pub fn commit(&mut self) -> (r: Effect)
        requires
            old(self).wf(),
            old(self).mode != Mode::Normal,
        ensures
            (final(self)@, r) == step_commit(old(self)@),
            final(self).context_prefix == old(self).context_prefix,
    {
        let ghost old_v = self@;
        let p = self.current_page_index;
        let effect = match self.mode {
            Mode::CreatingTodo => {
                if self.buffer.text.len() > 0 {
                    let name = string_of(&self.buffer.text);
                    self.pages[p].todos.push(Todo::new(name));
                    assert(todos_view(self.pages@[p as int].todos@) =~= cur_todos(old_v).push(
                        TodoView { name: old_v.text, completed: false },
                    ));
                    assert(pages_view(self.pages@) =~= with_todos(
                        old_v,
                        cur_todos(old_v).push(TodoView { name: old_v.text, completed: false }),
                    ));
                    self.selected_todo_index = self.pages[p].todos.len() - 1;
                    Effect::Persist
                } else {
                    Effect::Idle
                }
            },
            Mode::CreatingPage => {
                let name = string_of(&self.buffer.text);
                self.pages.push(Page::new(name));
                assert(pages_view(self.pages@) =~= old_v.pages.push(
                    PageView { name: old_v.text, todos: Seq::empty() },
                ));
                self.current_page_index = self.pages.len() - 1;
                self.selected_todo_index = 0;
                Effect::Persist
            },
            Mode::RenamingPage => {
                if self.buffer.text.len() == 0 {
                    if self.pages.len() > 1 {
                        self.pages.remove(p);
                        assert(pages_view(self.pages@) =~= old_v.pages.remove(p as int));
                        if p >= self.pages.len() {
                            self.current_page_index = self.pages.len() - 1;
                        }
                        self.selected_todo_index = 0;
                    }
                } else {
                    let name = string_of(&self.buffer.text);
                    self.pages[p].name = name;
                    assert(pages_view(self.pages@) =~= old_v.pages.update(
                        p as int,
                        PageView { name: old_v.text, todos: cur_todos(old_v) },
                    ));
                }
                Effect::Persist
            },
            Mode::RenamingTodo => {
                if self.current_len() > 0 {
                    if self.buffer.text.len() == 0 {
                        self.remove_selected();
                    } else {
                        let i = self.selected_todo_index;
                        let name = string_of(&self.buffer.text);
                        let ghost t = cur_todos(old_v)[i as int];
                        self.pages[p].todos[i].name = name;
                        assert(todos_view(self.pages@[p as int].todos@) =~= cur_todos(old_v).update(
                            i as int,
                            TodoView { name: old_v.text, completed: t.completed },
                        ));
                        assert(pages_view(self.pages@) =~= with_todos(
                            old_v,
                            cur_todos(old_v).update(i as int, TodoView { name: old_v.text, completed: t.completed }),
                        ));
                    }
                    Effect::Persist
                } else {
                    Effect::Idle
                }
            },
            Mode::Normal => Effect::Idle,
        };
        self.buffer.clear();
        self.mode = Mode::Normal;
        effect
    }

    /// A key while a line is being typed.
    pub fn typing_key(&mut self, key: Key) -> (r: Effect)
        requires
            old(self).wf(),
            old(self).mode != Mode::Normal,
        ensures
            (final(self)@, r) == step_typing(old(self)@, key),
            final(self).context_prefix == old(self).context_prefix,
    {
        if key.code == KeyCode::Down {
            return self.move_down(false);
        }
        if key.code == KeyCode::Up {
            return self.move_up(false);
        }
        match self.buffer.edit(key) {
            EditResult::Enter => self.commit(),
            EditResult::Esc => {
                self.buffer.clear();
                self.mode = Mode::Normal;
                Effect::Idle
            },
            EditResult::Continue => Effect::Idle,
        }
    }

    /// Handles one key press. The result says whether the document changed
    /// and must be written to storage, or whether the user asked to quit.
    pub fn handle_key(&mut self, key: Key) -> (r: Effect)
        requires
            old(self).wf(),
        ensures
            final(self).wf(),
            (final(self)@, r) == step(old(self)@, key),
            final(self).context_prefix == old(self).context_prefix,
    {
        proof {
            lemma_step_keeps_wf(self@, key);
        }
        if self.mode == Mode::Normal {
            self.normal_key(key)
        } else {
            self.typing_key(key)
        }
    }

    /// The line being typed.
    pub fn preview_text(&self) -> (r: String)
        ensures
            r@ == self.buffer.text@,
    {
        string_of(&self.buffer.text)
    }
}

} // verus!
