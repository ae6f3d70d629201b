//! The keyboard: what each key press does to the organiser's state, and what
//! the surrounding program has to do afterwards.

use vstd::prelude::*;
use vstd::string::StringExecFns;

use crate::app::{
    filtered, positions, sel_after_removal, selection_after_removal, touched, App, AppView, Command, CommandView, ConfirmAction,
    InputMode, ViewMode, THEME_COUNT,
};
use crate::clock::current_timestamp;
use crate::priority::{raise_priority, raised, Priority};
use crate::task::{bar_free, task_views, Task, TaskView};
use crate::text::{pop_char, push_char, trim, trimmed};

verus! {

/// A key of the keyboard, as far as the organiser tells keys apart.
#[derive(Clone, Copy, PartialEq, Eq, Debug, Structural)]
pub enum Key {
    Char(char),
    Up,
    Down,
    Enter,
    Esc,
    Backspace,
    /// A function key, by its number.
    F(u8),
    /// Any other key.
    Other,
}

/// A key event: the key, whether Alt or Shift was held, and whether the key
/// went up rather than down.
#[derive(Clone, Copy, PartialEq, Eq, Debug, Structural)]
pub struct KeyInput {
    pub key: Key,
    pub alt: bool,
    pub shift: bool,
    pub released: bool,
}

/// Keys that confirm: `y`, `Y` and their Russian-layout twins.
pub open spec fn is_yes(k: Key) -> bool {
    k == Key::Char('y') || k == Key::Char('Y') || k == Key::Char('н') || k == Key::Char('Н')
}

/// Keys that decline: `n`, `N`, their Russian-layout twins, and Esc.
pub open spec fn is_no(k: Key) -> bool {
    k == Key::Char('n') || k == Key::Char('N') || k == Key::Char('т') || k == Key::Char('Т')
        || k == Key::Esc
}

/// Keys that quit: `q`, `Q` and their Russian-layout twins.
pub open spec fn is_quit(k: Key) -> bool {
    k == Key::Char('q') || k == Key::Char('й') || k == Key::Char('Q') || k == Key::Char('Й')
}

/// Keys that move a task up (with Alt or Shift held).
pub open spec fn is_up(k: Key) -> bool {
    k == Key::Up || k == Key::Char('k') || k == Key::Char('K') || k == Key::Char('л') || k
        == Key::Char('Л')
}

/// Keys that move a task down (with Alt or Shift held).
pub open spec fn is_down(k: Key) -> bool {
    k == Key::Down || k == Key::Char('j') || k == Key::Char('J') || k == Key::Char('о') || k
        == Key::Char('О')
}

/// The command letter a typed character stands for: letters of the Russian
/// layout count as the Latin letter on the same key, capitals as small
/// letters, and `.` as `/`.
pub open spec fn normalized(c: char) -> char {
    if c == 'q' || c == 'й' || c == 'Q' || c == 'Й' {
        'q'
    } else if c == 'a' || c == 'ф' || c == 'A' || c == 'Ф' {
        'a'
    } else if c == 'd' || c == 'в' || c == 'D' || c == 'В' {
        'd'
    } else if c == 't' || c == 'е' || c == 'T' || c == 'Е' {
        't'
    } else if c == 'r' || c == 'к' || c == 'R' || c == 'К' {
        'r'
    } else if c == 'e' || c == 'у' || c == 'E' || c == 'У' {
        'e'
    } else if c == 'p' || c == 'з' || c == 'P' || c == 'З' {
        'p'
    } else if c == 'c' || c == 'с' || c == 'C' || c == 'С' {
        'c'
    } else if c == 'j' || c == 'о' || c == 'J' || c == 'О' {
        'j'
    } else if c == 'k' || c == 'л' || c == 'K' || c == 'Л' {
        'k'
    } else if c == 'i' || c == 'ш' || c == 'I' || c == 'Ш' {
        'i'
    } else if c == '/' || c == '.' {
        '/'
    } else {
        c
    }
}

/// `s` without its last character, if it has one.
pub open spec fn backspaced(s: Seq<char>) -> Seq<char> {
    if s.len() == 0 {
        s
    } else {
        s.drop_last()
    }
}

/// `ts` with the entries at `i` and `j` exchanged.
pub open spec fn swapped(ts: Seq<TaskView>, i: int, j: int) -> Seq<TaskView> {
    ts.update(i, ts[j]).update(j, ts[i])
}

/// The tasks of `ts` that are not completed, in order.
pub open spec fn open_tasks(ts: Seq<TaskView>) -> Seq<TaskView>
    decreases ts.len(),
{
    if ts.len() == 0 {
        Seq::empty()
    } else if ts.last().completed {
        open_tasks(ts.drop_last())
    } else {
        open_tasks(ts.drop_last()).push(ts.last())
    }
}

/// The completed tasks of `ts`, in order, with modification time `now`.
pub open spec fn done_tasks(ts: Seq<TaskView>, now: Seq<char>) -> Seq<TaskView>
    decreases ts.len(),
{
    if ts.len() == 0 {
        Seq::empty()
    } else if ts.last().completed {
        done_tasks(ts.drop_last(), now).push(touched(ts.last(), now))
    } else {
        done_tasks(ts.drop_last(), now)
    }
}

/// A new task with this title, created at `now`.
pub open spec fn new_task(title: Seq<char>, priority: Priority, now: Seq<char>) -> TaskView {
    TaskView { title, completed: false, priority, created_at: now, modified_at: now }
}

/// `Some(0)` when a list of `n` entries is not empty, else `None`.
pub open spec fn first_of(n: nat) -> Option<usize> {
    if n == 0 {
        None
    } else {
        Some(0)
    }
}

impl AppView {
    /// The theme index names one of the themes.
    pub open spec fn wf(self) -> bool {
        self.current_theme_index < THEME_COUNT
    }

    /// The state with the confirmation dialog closed.
    pub open spec fn confirm_closed(self) -> AppView {
        AppView { show_confirm: false, confirm_action: None, ..self }
    }

    /// A key while the confirmation dialog is open.
    pub open spec fn confirm_step(self, k: Key) -> (AppView, CommandView) {
        if is_yes(k) {
            match self.confirm_action {
                Some(ConfirmAction::DeletePermanent(r)) => if r < self.trash.len() {
                    let trash = self.trash.remove(r as int);
                    let n = filtered(trash, self.search_query).len();
                    let sel = match self.trash_selected {
                        Some(v) => sel_after_removal(v, n),
                        None => None,
                    };
                    (
                        AppView { trash, trash_selected: sel, ..self }.confirm_closed(),
                        CommandView::SaveTrash,
                    )
                } else {
                    (self.confirm_closed(), CommandView::Nothing)
                },
                Some(ConfirmAction::ClearTrash) => (
                    AppView {
                        trash: Seq::empty(),
                        trash_selected: None,
                        ..self
                    }.confirm_closed(),
                    CommandView::SaveTrash,
                ),
                None => (self.confirm_closed(), CommandView::Nothing),
            }
        } else if is_no(k) {
            (self.confirm_closed(), CommandView::Nothing)
        } else if is_quit(k) {
            (self, CommandView::Quit)
        } else {
            (self, CommandView::Nothing)
        }
    }

    /// A key while the help, the about box or an error message is shown.
    pub open spec fn overlay_step(self, k: Key) -> (AppView, CommandView) {
        if k == Key::Esc {
            (AppView { show_help: false, show_about: false, ai_error: None, ..self }, CommandView::Nothing)
        } else if is_quit(k) {
            (self, CommandView::Quit)
        } else {
            (self, CommandView::Nothing)
        }
    }

    /// A key held with Alt or Shift in normal mode: moves the selected task
    /// up or down the unfiltered list of active tasks.
    pub open spec fn move_step(self, k: Key) -> (AppView, CommandView) {
        if self.view_mode == ViewMode::Active && self.search_query.len() == 0
            && self.selected is Some {
            let i = self.selected.unwrap() as int;
            if is_up(k) {
                if i > 0 && i < self.tasks.len() {
                    (
                        AppView {
                            tasks: swapped(self.tasks, i, i - 1),
                            selected: Some((i - 1) as usize),
                            ..self
                        },
                        CommandView::SaveTasks,
                    )
                } else {
                    (self, CommandView::Nothing)
                }
            } else if is_down(k) {
                if i < self.tasks.len() - 1 {
                    (
                        AppView {
                            tasks: swapped(self.tasks, i, i + 1),
                            selected: Some((i + 1) as usize),
                            ..self
                        },
                        CommandView::SaveTasks,
                    )
                } else {
                    (self, CommandView::Nothing)
                }
            } else {
                (self, CommandView::Nothing)
            }
        } else {
            (self, CommandView::Nothing)
        }
    }

    /// The position in the task list of the selected task of the active
    /// view, if the selection lies within the shown tasks.
    pub open spec fn selected_task(self) -> Option<int> {
        match self.selected {
            Some(v) => if v < self.shown_tasks().len() {
                Some(self.shown_tasks()[v as int])
            } else {
                None
            },
            None => None,
        }
    }

    /// The position in the trash of the selected entry of the trash view, if
    /// the selection lies within the shown entries.
    pub open spec fn selected_trash(self) -> Option<int> {
        match self.trash_selected {
            Some(v) => if v < self.shown_trash().len() {
                Some(self.shown_trash()[v as int])
            } else {
                None
            },
            None => None,
        }
    }

    /// The `c` key: in the active view, every completed task goes to the
    /// trash; in the trash view, emptying the trash waits for confirmation.
    pub open spec fn clear_step(self, now: Seq<char>) -> (AppView, CommandView) {
        match self.view_mode {
            ViewMode::Active => {
                let tasks = open_tasks(self.tasks);
                (
                    AppView {
                        tasks,
                        trash: self.trash + done_tasks(self.tasks, now),
                        selected: first_of(filtered(tasks, self.search_query).len()),
                        ..self
                    },
                    CommandView::SaveAll,
                )
            },
            ViewMode::Trash => if self.trash.len() > 0 {
                (
                    AppView {
                        confirm_action: Some(ConfirmAction::ClearTrash),
                        show_confirm: true,
                        ..self
                    },
                    CommandView::Nothing,
                )
            } else {
                (self, CommandView::Nothing)
            },
        }
    }

    /// The `d` key: in the active view the selected task goes to the trash;
    /// in the trash view, deleting the selected entry for good waits for
    /// confirmation.
    pub open spec fn delete_step(self, now: Seq<char>) -> (AppView, CommandView) {
        match self.view_mode {
            ViewMode::Active => match self.selected_task() {
                Some(r) => {
                    let tasks = self.tasks.remove(r);
                    (
                        AppView {
                            tasks,
                            trash: self.trash.push(touched(self.tasks[r], now)),
                            selected: sel_after_removal(
                                self.selected.unwrap(),
                                filtered(tasks, self.search_query).len(),
                            ),
                            ..self
                        },
                        CommandView::SaveAll,
                    )
                },
                None => (self, CommandView::Nothing),
            },
            ViewMode::Trash => match self.selected_trash() {
                Some(r) => (
                    AppView {
                        confirm_action: Some(ConfirmAction::DeletePermanent(r as usize)),
                        show_confirm: true,
                        ..self
                    },
                    CommandView::Nothing,
                ),
                None => (self, CommandView::Nothing),
            },
        }
    }

    /// The `r` key: switches between the task list and the trash, selecting
    /// the first shown entry of the list switched to.
    pub open spec fn switch_view(self) -> AppView {
        match self.view_mode {
            ViewMode::Active => AppView {
                view_mode: ViewMode::Trash,
                trash_selected: first_of(self.shown_trash().len()),
                ..self
            },
            ViewMode::Trash => AppView {
                view_mode: ViewMode::Active,
                selected: first_of(self.shown_tasks().len()),
                ..self
            },
        }
    }

    /// A command letter (already normalized) in normal mode, at time `now`.
    pub open spec fn letter_step(self, c: char, now: Seq<char>) -> (AppView, CommandView) {
        let active = self.view_mode == ViewMode::Active;
        if c == 'q' {
            (self, CommandView::Quit)
        } else if c == 'j' {
            (self.moved_down(), CommandView::Nothing)
        } else if c == 'k' {
            (self.moved_up(), CommandView::Nothing)
        } else if c == ' ' {
            self.toggled_or_restored(now)
        } else if c == 'i' {
            if active && !self.ai_generating && !self.ai_downloading {
                (self, CommandView::CheckAiFiles)
            } else {
                (self, CommandView::Nothing)
            }
        } else if c == 't' {
            (
                AppView {
                    current_theme_index: ((self.current_theme_index + 1) % (THEME_COUNT as int)) as usize,
                    ..self
                },
                CommandView::Nothing,
            )
        } else if c == 'r' {
            (self.switch_view(), CommandView::Nothing)
        } else if c == 'a' {
            if active {
                (
                    AppView { input_mode: InputMode::Adding, input: Seq::empty(), ..self },
                    CommandView::Nothing,
                )
            } else {
                (self, CommandView::Nothing)
            }
        } else if c == 'e' {
            if active && self.selected_task() is Some {
                (
                    AppView {
                        input: self.tasks[self.selected_task().unwrap()].title,
                        input_mode: InputMode::EditingTitle,
                        ..self
                    },
                    CommandView::Nothing,
                )
            } else {
                (self, CommandView::Nothing)
            }
        } else if c == '/' {
            (
                AppView { input_mode: InputMode::Searching, input: self.search_query, ..self },
                CommandView::Nothing,
            )
        } else if c == 'c' {
            self.clear_step(now)
        } else if c == 'd' {
            self.delete_step(now)
        } else if c == 'p' {
            if active && self.selected_task() is Some {
                let r = self.selected_task().unwrap();
                let t = self.tasks[r];
                (
                    AppView {
                        tasks: self.tasks.update(
                            r,
                            TaskView { priority: raised(t.priority), modified_at: now, ..t },
                        ),
                        ..self
                    },
                    CommandView::SaveTasks,
                )
            } else {
                (self, CommandView::Nothing)
            }
        } else {
            (self, CommandView::Nothing)
        }
    }

    /// A key in normal mode, at time `now`.
    pub open spec fn normal_step(self, k: KeyInput, now: Seq<char>) -> (AppView, CommandView) {
        if k.alt || k.shift {
            self.move_step(k.key)
        } else {
            match k.key {
                Key::Char(c) => self.letter_step(normalized(c), now),
                Key::Down => (self.moved_down(), CommandView::Nothing),
                Key::Up => (self.moved_up(), CommandView::Nothing),
                Key::Enter => self.toggled_or_restored(now),
                _ => (self, CommandView::Nothing),
            }
        }
    }

    /// The state with the input line emptied and normal mode back.
    pub open spec fn input_done(self) -> AppView {
        AppView { input: Seq::empty(), input_mode: InputMode::Normal, ..self }
    }

    /// Enter while a new task's title is typed: a non-blank title becomes a
    /// new task of priority `Low` at the end of the list, and is selected.
    pub open spec fn add_submitted(self, now: Seq<char>) -> (AppView, CommandView) {
        let title = trimmed(self.input);
        if title.len() > 0 {
            let tasks = self.tasks.push(new_task(title, Priority::Low, now));
            (
                AppView { tasks, selected: Some((tasks.len() - 1) as usize), ..self }.input_done(),
                CommandView::SaveTasks,
            )
        } else {
            (self.input_done(), CommandView::Nothing)
        }
    }

    /// Enter while a title is edited: a non-blank title replaces the selected
    /// task's title.
    pub open spec fn edit_submitted(self, now: Seq<char>) -> (AppView, CommandView) {
        let title = trimmed(self.input);
        if title.len() > 0 && self.selected_task() is Some {
            let r = self.selected_task().unwrap();
            (
                AppView {
                    tasks: self.tasks.update(
                        r,
                        TaskView { title, modified_at: now, ..self.tasks[r] },
                    ),
                    ..self
                }.input_done(),
                CommandView::SaveTasks,
            )
        } else {
            (self.input_done(), CommandView::Nothing)
        }
    }

    /// Enter while a request for sub-tasks is typed: a non-blank request
    /// starts the generation.
    pub open spec fn prompt_submitted(self) -> (AppView, CommandView) {
        let prompt = trimmed(self.input);
        if prompt.len() > 0 {
            (
                AppView { ai_generating: true, ..self }.input_done(),
                CommandView::StartGeneration(prompt),
            )
        } else {
            (self.input_done(), CommandView::Nothing)
        }
    }

    /// The search query follows the input line; both selections go to the
    /// first entry.
    pub open spec fn search_typed(self, input: Seq<char>) -> AppView {
        AppView {
            input,
            search_query: input,
            selected: Some(0),
            trash_selected: Some(0),
            ..self
        }
    }

    /// A key while text is typed.
    pub open spec fn text_step(self, k: Key, now: Seq<char>) -> (AppView, CommandView) {
        match k {
            Key::Enter => match self.input_mode {
                InputMode::Adding => self.add_submitted(now),
                InputMode::EditingTitle => self.edit_submitted(now),
                InputMode::AiPrompt => self.prompt_submitted(),
                _ => (self.input_done(), CommandView::Nothing),
            },
            Key::Esc => if self.input_mode == InputMode::Searching {
                (AppView { search_query: Seq::empty(), ..self }.input_done(), CommandView::Nothing)
            } else {
                (self.input_done(), CommandView::Nothing)
            },
            Key::Char(c) => if self.input_mode == InputMode::Searching {
                (self.search_typed(self.input.push(c)), CommandView::Nothing)
            } else {
                (AppView { input: self.input.push(c), ..self }, CommandView::Nothing)
            },
            Key::Backspace => if self.input_mode == InputMode::Searching {
                (self.search_typed(backspaced(self.input)), CommandView::Nothing)
            } else {
                (AppView { input: backspaced(self.input), ..self }, CommandView::Nothing)
            },
            _ => (self, CommandView::Nothing),
        }
    }

    /// A key event at time `now`: what it does to the state, and what the
    /// program has to do next.
    pub open spec fn key_step(self, k: KeyInput, now: Seq<char>) -> (AppView, CommandView) {
        if k.released {
            (self, CommandView::Nothing)
        } else if self.show_confirm {
            self.confirm_step(k.key)
        } else if k.key == Key::F(1) {
            (AppView { show_help: !self.show_help, show_about: false, ..self }, CommandView::Nothing)
        } else if k.key == Key::F(2) {
            (AppView { show_about: !self.show_about, show_help: false, ..self }, CommandView::Nothing)
        } else if self.show_help || self.show_about || self.ai_error is Some {
            self.overlay_step(k.key)
        } else if self.input_mode == InputMode::Normal {
            self.normal_step(k, now)
        } else {
            self.text_step(k.key, now)
        }
    }

    /// The one key event on which the organiser cannot proceed: moving a task
    /// down an empty list.
    pub open spec fn key_fails(self, k: KeyInput) -> bool {
        &&& !k.released
        &&& !self.show_confirm
        &&& k.key != Key::F(1) && k.key != Key::F(2)
        &&& !(self.show_help || self.show_about || self.ai_error is Some)
        &&& self.input_mode == InputMode::Normal
        &&& (k.alt || k.shift)
        &&& self.view_mode == ViewMode::Active && self.search_query.len() == 0
        &&& self.selected is Some
        &&& !is_up(k.key) && is_down(k.key)
        &&& self.tasks.len() == 0
    }
}


fn yes_key(k: Key) -> (r: bool)
    ensures
        r == is_yes(k),
{
    k == Key::Char('y') || k == Key::Char('Y') || k == Key::Char('н') || k == Key::Char('Н')
}

fn no_key(k: Key) -> (r: bool)
    ensures
        r == is_no(k),
{
    k == Key::Char('n') || k == Key::Char('N') || k == Key::Char('т') || k == Key::Char('Т') || k
        == Key::Esc
}

fn quit_key(k: Key) -> (r: bool)
    ensures
        r == is_quit(k),
{
    k == Key::Char('q') || k == Key::Char('й') || k == Key::Char('Q') || k == Key::Char('Й')
}

fn up_key(k: Key) -> (r: bool)
    ensures
        r == is_up(k),
{
    k == Key::Up || k == Key::Char('k') || k == Key::Char('K') || k == Key::Char('л') || k
        == Key::Char('Л')
}

fn down_key(k: Key) -> (r: bool)
    ensures
        r == is_down(k),
{
    k == Key::Down || k == Key::Char('j') || k == Key::Char('J') || k == Key::Char('о') || k
        == Key::Char('О')
}

/// The command letter a typed character stands for.
pub fn normalize_char(c: char) -> (r: char)
    ensures
        r == normalized(c),
{
    if c == 'q' || c == 'й' || c == 'Q' || c == 'Й' {
        'q'
    } else if c == 'a' || c == 'ф' || c == 'A' || c == 'Ф' {
        'a'
    } else if c == 'd' || c == 'в' || c == 'D' || c == 'В' {
        'd'
    } else if c == 't' || c == 'е' || c == 'T' || c == 'Е' {
        't'
    } else if c == 'r' || c == 'к' || c == 'R' || c == 'К' {
        'r'
    } else if c == 'e' || c == 'у' || c == 'E' || c == 'У' {
        'e'
    } else if c == 'p' || c == 'з' || c == 'P' || c == 'З' {
        'p'
    } else if c == 'c' || c == 'с' || c == 'C' || c == 'С' {
        'c'
    } else if c == 'j' || c == 'о' || c == 'J' || c == 'О' {
        'j'
    } else if c == 'k' || c == 'л' || c == 'K' || c == 'Л' {
        'k'
    } else if c == 'i' || c == 'ш' || c == 'I' || c == 'Ш' {
        'i'
    } else if c == '/' || c == '.' {
        '/'
    } else {
        c
    }
}

/// Splits tasks into the open ones and the completed ones, the latter with
/// modification time `now`; both keep their order.
pub fn split_completed(tasks: Vec<Task>, now: &str) -> (r: (Vec<Task>, Vec<Task>))
    ensures
        task_views(r.0@) == open_tasks(task_views(tasks@)),
        task_views(r.1@) == done_tasks(task_views(tasks@), now@),
{
    let ghost orig = task_views(tasks@);
    let mut rest = tasks;
    let mut open: Vec<Task> = Vec::new();
    let mut done: Vec<Task> = Vec::new();
    let ghost mut i: int = 0;
    while rest.len() > 0
        invariant
            0 <= i <= orig.len(),
            task_views(rest@) == orig.skip(i),
            task_views(open@) == open_tasks(orig.take(i)),
            task_views(done@) == done_tasks(orig.take(i), now@),
        decreases rest.len(),
    {
        let ghost before_open = task_views(open@);
        let ghost before_done = task_views(done@);
        assert(task_views(rest@).len() == rest@.len());
        assert(i < orig.len());
        assert(task_views(rest@)[0] == rest@[0]@);
        let ghost old_rest = rest@;
        let mut t = rest.remove(0);
        proof {
            assert(rest@ =~= old_rest.subrange(1, old_rest.len() as int));
            assert forall|k: int| 0 <= k < rest@.len() implies task_views(rest@)[k] == orig.skip(i + 1)[k] by {
                assert(task_views(old_rest)[k + 1] == orig.skip(i)[k + 1]);
            }
            assert(orig.skip(i)[0] == orig[i]);
            assert(orig.take(i + 1).drop_last() =~= orig.take(i));
            assert(orig.take(i + 1).last() == orig[i]);
            assert(task_views(rest@) =~= orig.skip(i + 1));
        }
        if t.completed {
            t.modified_at = String::from_str(now);
            done.push(t);
            assert(task_views(done@) =~= before_done.push(touched(orig[i], now@)));
        } else {
            open.push(t);
            assert(task_views(open@) =~= before_open.push(orig[i]));
        }
        proof {
            i = i + 1;
        }
    }
    assert(orig.take(i) =~= orig);
    (open, done)
}

impl App {
    /// A new organiser over loaded tasks and trash: normal mode, the task
    /// list shown, the first entry of each non-empty list selected.
    pub fn new(tasks: Vec<Task>, trash: Vec<Task>) -> (app: App)
        ensures
            app@.tasks == task_views(tasks@),
            app@.trash == task_views(trash@),
            app@.selected == first_of(tasks@.len()),
            app@.trash_selected == first_of(trash@.len()),
            app@.input.len() == 0,
            app@.input_mode == InputMode::Normal,
            app@.view_mode == ViewMode::Active,
            app@.current_theme_index == 0,
            !app@.show_help && !app@.show_about && !app@.show_confirm,
            app@.search_query.len() == 0,
            app@.confirm_action is None,
            app@.update_status == crate::app::UpdateStatusView::Checking,
            !app@.ai_generating && !app@.ai_downloading,
            app@.ai_error is None,
            app@.wf(),
    {
        let selected = if tasks.len() > 0 {
            Some(0)
        } else {
            None
        };
        let trash_selected = if trash.len() > 0 {
            Some(0)
        } else {
            None
        };
        App {
            tasks,
            trash,
            selected,
            trash_selected,
            input: String::new(),
            input_mode: InputMode::Normal,
            view_mode: ViewMode::Active,
            current_theme_index: 0,
            show_help: false,
            show_about: false,
            search_query: String::new(),
            show_confirm: false,
            confirm_action: None,
            update_status: crate::app::UpdateStatus::Checking,
            ai_generating: false,
            ai_downloading: false,
            ai_error: None,
        }
    }

    fn close_confirm(&mut self)
        ensures
            final(self)@ == old(self)@.confirm_closed(),
    {
        self.show_confirm = false;
        self.confirm_action = None;
    }

    fn confirm_key(&mut self, k: Key) -> (cmd: Command)
        ensures
            (final(self)@, cmd@) == old(self)@.confirm_step(k),
    {
        if yes_key(k) {
            match self.confirm_action {
                Some(ConfirmAction::DeletePermanent(r)) => {
                    if r < self.trash.len() {
                        let ghost before = self@;
                        let _ = self.trash.remove(r);
                        assert(task_views(self.trash@) =~= before.trash.remove(r as int));
                        let n = self.filtered_trash().len();
                        self.trash_selected = match self.trash_selected {
                            Some(v) => selection_after_removal(v, n),
                            None => None,
                        };
                        self.close_confirm();
                        assert(self@ =~= before.confirm_step(k).0);
                        Command::SaveTrash
                    } else {
                        self.close_confirm();
                        Command::Nothing
                    }
                },
                Some(ConfirmAction::ClearTrash) => {
                    let ghost before = self@;
                    self.trash.clear();
                    self.trash_selected = None;
                    self.close_confirm();
                    assert(self@ =~= before.confirm_step(k).0);
                    Command::SaveTrash
                },
                None => {
                    self.close_confirm();
                    Command::Nothing
                },
            }
        } else if no_key(k) {
            self.close_confirm();
            Command::Nothing
        } else if quit_key(k) {
            Command::Quit
        } else {
            Command::Nothing
        }
    }

    fn overlay_key(&mut self, k: Key) -> (cmd: Command)
        ensures
            (final(self)@, cmd@) == old(self)@.overlay_step(k),
    {
        if k == Key::Esc {
            self.show_help = false;
            self.show_about = false;
            self.ai_error = None;
            Command::Nothing
        } else if quit_key(k) {
            Command::Quit
        } else {
            Command::Nothing
        }
    }

    fn move_key(&mut self, k: Key) -> (cmd: Command)
        requires
            !(old(self)@.view_mode == ViewMode::Active && old(self)@.search_query.len() == 0
                && old(self)@.selected is Some && !is_up(k) && is_down(k) && old(self)@.tasks.len()
                == 0),
        ensures
            (final(self)@, cmd@) == old(self)@.move_step(k),
    {
        if self.view_mode == ViewMode::Active && self.search_query.as_str().is_empty() {
            if let Some(i) = self.selected {
                let ghost before = self@;
                if up_key(k) {
                    if i > 0 && i < self.tasks.len() {
                        let t = self.tasks.remove(i);
                        self.tasks.insert(i - 1, t);
                        assert(task_views(self.tasks@) =~= swapped(before.tasks, i as int, i - 1));
                        self.selected = Some(i - 1);
                        assert(self@ =~= before.move_step(k).0);
                        return Command::SaveTasks;
                    }
                } else if down_key(k) {
                    if i < self.tasks.len() - 1 {
                        let t = self.tasks.remove(i);
                        self.tasks.insert(i + 1, t);
                        assert(task_views(self.tasks@) =~= swapped(before.tasks, i as int, i + 1));
                        self.selected = Some(i + 1);
                        assert(self@ =~= before.move_step(k).0);
                        return Command::SaveTasks;
                    }
                }
            }
        }
        Command::Nothing
    }
}


impl App {
    /// Position in the task list of the selected shown task, if any.
    fn selected_task_index(&self) -> (r: Option<usize>)
        ensures
            match r {
                Some(i) => self@.selected_task() == Some(i as int) && i < self.tasks@.len(),
                None => self@.selected_task() is None,
            },
    {
        let f = self.filtered_tasks();
        match self.selected {
            Some(v) => if v < f.len() {
                assert(positions(f@)[v as int] == f@[v as int] as int);
                Some(f[v])
            } else {
                None
            },
            None => None,
        }
    }

    /// Position in the trash of the selected shown entry, if any.
    fn selected_trash_index(&self) -> (r: Option<usize>)
        ensures
            match r {
                Some(i) => self@.selected_trash() == Some(i as int) && i < self.trash@.len(),
                None => self@.selected_trash() is None,
            },
    {
        let f = self.filtered_trash();
        match self.trash_selected {
            Some(v) => if v < f.len() {
                assert(positions(f@)[v as int] == f@[v as int] as int);
                Some(f[v])
            } else {
                None
            },
            None => None,
        }
    }

    fn clear_key(&mut self, now: &str) -> (cmd: Command)
        ensures
            (final(self)@, cmd@) == old(self)@.clear_step(now@),
    {
        let ghost before = self@;
        match self.view_mode {
            ViewMode::Active => {
                let mut tasks: Vec<Task> = Vec::new();
                std::mem::swap(&mut tasks, &mut self.tasks);
                let (open, mut done) = split_completed(tasks, now);
                self.tasks = open;
                self.trash.append(&mut done);
                assert(task_views(self.trash@) =~= before.trash + done_tasks(before.tasks, now@));
                let n = self.filtered_tasks().len();
                self.selected = if n == 0 {
                    None
                } else {
                    Some(0)
                };
                assert(self@ =~= before.clear_step(now@).0);
                Command::SaveAll
            },
            ViewMode::Trash => {
                if self.trash.len() > 0 {
                    self.confirm_action = Some(ConfirmAction::ClearTrash);
                    self.show_confirm = true;
                }
                Command::Nothing
            },
        }
    }

    fn delete_key(&mut self, now: &str) -> (cmd: Command)
        ensures
            (final(self)@, cmd@) == old(self)@.delete_step(now@),
    {
        let ghost before = self@;
        match self.view_mode {
            ViewMode::Active => match self.selected_task_index() {
                Some(r) => {
                    let v = self.selected.unwrap();
                    let mut t = self.tasks.remove(r);
                    t.modified_at = String::from_str(now);
                    self.trash.push(t);
                    assert(task_views(self.tasks@) =~= before.tasks.remove(r as int));
                    assert(task_views(self.trash@) =~= before.trash.push(
                        touched(before.tasks[r as int], now@),
                    ));
                    let n = self.filtered_tasks().len();
                    self.selected = selection_after_removal(v, n);
                    assert(self@ =~= before.delete_step(now@).0);
                    Command::SaveAll
                },
                None => Command::Nothing,
            },
            ViewMode::Trash => match self.selected_trash_index() {
                Some(r) => {
                    self.confirm_action = Some(ConfirmAction::DeletePermanent(r));
                    self.show_confirm = true;
                    Command::Nothing
                },
                None => Command::Nothing,
            },
        }
    }

    fn switch_view_key(&mut self)
        ensures
            final(self)@ == old(self)@.switch_view(),
    {
        match self.view_mode {
            ViewMode::Active => {
                self.view_mode = ViewMode::Trash;
                let n = self.filtered_trash().len();
                self.trash_selected = if n == 0 {
                    None
                } else {
                    Some(0)
                };
            },
            ViewMode::Trash => {
                self.view_mode = ViewMode::Active;
                let n = self.filtered_tasks().len();
                self.selected = if n == 0 {
                    None
                } else {
                    Some(0)
                };
            },
        }
    }

    fn letter_key(&mut self, c: char, now: &str) -> (cmd: Command)
        requires
            old(self)@.wf(),
        ensures
            (final(self)@, cmd@) == old(self)@.letter_step(c, now@),
    {
        let ghost before = self@;
        let active = self.view_mode == ViewMode::Active;
        if c == 'q' {
            Command::Quit
        } else if c == 'j' {
            self.next();
            Command::Nothing
        } else if c == 'k' {
            self.previous();
            Command::Nothing
        } else if c == ' ' {
            self.toggle_or_restore_at(now)
        } else if c == 'i' {
            if active && !self.ai_generating && !self.ai_downloading {
                Command::CheckAiFiles
            } else {
                Command::Nothing
            }
        } else if c == 't' {
            self.current_theme_index = (self.current_theme_index + 1) % THEME_COUNT;
            Command::Nothing
        } else if c == 'r' {
            self.switch_view_key();
            Command::Nothing
        } else if c == 'a' {
            if active {
                self.input_mode = InputMode::Adding;
                self.input = String::new();
            }
            Command::Nothing
        } else if c == 'e' {
            if active {
                if let Some(r) = self.selected_task_index() {
                    self.input = String::from_str(self.tasks[r].title.as_str());
                    self.input_mode = InputMode::EditingTitle;
                }
            }
            Command::Nothing
        } else if c == '/' {
            self.input_mode = InputMode::Searching;
            self.input = String::from_str(self.search_query.as_str());
            Command::Nothing
        } else if c == 'c' {
            self.clear_key(now)
        } else if c == 'd' {
            self.delete_key(now)
        } else if c == 'p' {
            if active {
                if let Some(r) = self.selected_task_index() {
                    let mut t = self.tasks.remove(r);
                    t.priority = raise_priority(t.priority);
                    t.modified_at = String::from_str(now);
                    self.tasks.insert(r, t);
                    assert(self@ =~= before.letter_step(c, now@).0);
                    return Command::SaveTasks;
                }
            }
            Command::Nothing
        } else {
            Command::Nothing
        }
    }
}


impl App {
    fn normal_key(&mut self, k: KeyInput, now: &str) -> (cmd: Command)
        requires
            old(self)@.wf(),
            !(old(self)@.view_mode == ViewMode::Active && old(self)@.search_query.len() == 0
                && old(self)@.selected is Some && (k.alt || k.shift) && !is_up(k.key) && is_down(
                k.key,
            ) && old(self)@.tasks.len() == 0),
        ensures
            (final(self)@, cmd@) == old(self)@.normal_step(k, now@),
    {
        if k.alt || k.shift {
            self.move_key(k.key)
        } else {
            match k.key {
                Key::Char(c) => self.letter_key(normalize_char(c), now),
                Key::Down => {
                    self.next();
                    Command::Nothing
                },
                Key::Up => {
                    self.previous();
                    Command::Nothing
                },
                Key::Enter => self.toggle_or_restore_at(now),
                _ => Command::Nothing,
            }
        }
    }

    fn finish_input(&mut self)
        ensures
            final(self)@ == old(self)@.input_done(),
    {
        self.input = String::new();
        self.input_mode = InputMode::Normal;
    }

    fn submit_add(&mut self, now: &str) -> (cmd: Command)
        ensures
            (final(self)@, cmd@) == old(self)@.add_submitted(now@),
    {
        let ghost before = self@;
        let title = trim(self.input.as_str());
        if title.as_str().is_empty() {
            self.finish_input();
            Command::Nothing
        } else {
            self.tasks.push(
                Task {
                    title,
                    completed: false,
                    priority: Priority::Low,
                    created_at: String::from_str(now),
                    modified_at: String::from_str(now),
                },
            );
            self.selected = Some(self.tasks.len() - 1);
            self.finish_input();
            assert(self@ =~= before.add_submitted(now@).0);
            Command::SaveTasks
        }
    }

    fn submit_edit(&mut self, now: &str) -> (cmd: Command)
        ensures
            (final(self)@, cmd@) == old(self)@.edit_submitted(now@),
    {
        let ghost before = self@;
        let title = trim(self.input.as_str());
        if !title.as_str().is_empty() {
            if let Some(r) = self.selected_task_index() {
                let mut t = self.tasks.remove(r);
                t.title = title;
                t.modified_at = String::from_str(now);
                self.tasks.insert(r, t);
                self.finish_input();
                assert(self@ =~= before.edit_submitted(now@).0);
                return Command::SaveTasks;
            }
        }
        self.finish_input();
        Command::Nothing
    }

    fn submit_prompt(&mut self) -> (cmd: Command)
        ensures
            (final(self)@, cmd@) == old(self)@.prompt_submitted(),
    {
        let prompt = trim(self.input.as_str());
        if prompt.as_str().is_empty() {
            self.finish_input();
            Command::Nothing
        } else {
            self.ai_generating = true;
            self.finish_input();
            Command::StartGeneration(prompt)
        }
    }

    fn search_follows_input(&mut self)
        ensures
            final(self)@ == old(self)@.search_typed(old(self)@.input),
    {
        self.search_query = String::from_str(self.input.as_str());
        self.selected = Some(0);
        self.trash_selected = Some(0);
    }

    fn text_key(&mut self, k: Key, now: &str) -> (cmd: Command)
        ensures
            (final(self)@, cmd@) == old(self)@.text_step(k, now@),
    {
        let searching = self.input_mode == InputMode::Searching;
        match k {
            Key::Enter => match self.input_mode {
                InputMode::Adding => self.submit_add(now),
                InputMode::EditingTitle => self.submit_edit(now),
                InputMode::AiPrompt => self.submit_prompt(),
                _ => {
                    self.finish_input();
                    Command::Nothing
                },
            },
            Key::Esc => {
                if searching {
                    self.search_query = String::new();
                }
                self.finish_input();
                Command::Nothing
            },
            Key::Char(c) => {
                push_char(&mut self.input, c);
                if searching {
                    self.search_follows_input();
                }
                Command::Nothing
            },
            Key::Backspace => {
                let _ = pop_char(&mut self.input);
                if searching {
                    self.search_follows_input();
                }
                Command::Nothing
            },
            _ => Command::Nothing,
        }
    }

    /// Whether a key event is the one on which the organiser cannot proceed
    /// (moving a task down an empty list).
    pub fn key_would_fail(&self, k: KeyInput) -> (r: bool)
        ensures
            r == self@.key_fails(k),
    {
        !k.released && !self.show_confirm && k.key != Key::F(1) && k.key != Key::F(2) && !(
        self.show_help || self.show_about || self.ai_error.is_some())
            && self.input_mode == InputMode::Normal && (k.alt || k.shift) && self.view_mode
            == ViewMode::Active && self.search_query.as_str().is_empty() && self.selected.is_some()
            && !up_key(k.key) && down_key(k.key) && self.tasks.len() == 0
    }

    /// A key event at time `now`.
    pub fn handle_key_at(&mut self, k: KeyInput, now: &str) -> (cmd: Command)
        requires
            old(self)@.wf(),
            !old(self)@.key_fails(k),
        ensures
            (final(self)@, cmd@) == old(self)@.key_step(k, now@),
            final(self)@.wf(),
    {
        if k.released {
            Command::Nothing
        } else if self.show_confirm {
            self.confirm_key(k.key)
        } else if k.key == Key::F(1) {
            self.show_help = !self.show_help;
            self.show_about = false;
            Command::Nothing
        } else if k.key == Key::F(2) {
            self.show_about = !self.show_about;
            self.show_help = false;
            Command::Nothing
        } else if self.show_help || self.show_about || self.ai_error.is_some() {
            self.overlay_key(k.key)
        } else if self.input_mode == InputMode::Normal {
            self.normal_key(k, now)
        } else {
            self.text_key(k.key, now)
        }
    }

    /// A key event, at the current time.
    pub fn handle_key(&mut self, k: KeyInput) -> (cmd: Command)
        requires
            old(self)@.wf(),
            !old(self)@.key_fails(k),
        ensures
            exists|now: Seq<char>|
                crate::task::is_timestamp(now) && bar_free(now)
                    && (final(self)@, cmd@) == #[trigger] old(self)@.key_step(k, now),
            final(self)@.wf(),
    {
        let now = current_timestamp();
        self.handle_key_at(k, now.as_str())
    }
}

} // verus!
