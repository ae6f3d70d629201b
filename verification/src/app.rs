//! The state of the organiser: the task list, the trash, the two selections,
//! the search query and the input line, and the operations on them that do
//! not depend on a key: filtering, moving the selection, toggling and
//! restoring.

use vstd::prelude::*;
use vstd::string::StringExecFns;

use crate::clock::current_timestamp;
use crate::task::{bar_free, task_views, Task, TaskView};
use crate::text::{contains_chars, chars_of, has_infix, lowercase, to_lowercase};

verus! {

/// What the keyboard currently edits.
#[derive(Clone, Copy, PartialEq, Eq, Debug, Structural)]
pub enum InputMode {
    Normal,
    Adding,
    EditingTitle,
    Searching,
    AiPrompt,
}

/// Which list is shown.
#[derive(Clone, Copy, PartialEq, Eq, Debug, Structural)]
pub enum ViewMode {
    Active,
    Trash,
}

/// An action that waits for the user's confirmation.
#[derive(Clone, Copy, PartialEq, Eq, Debug, Structural)]
pub enum ConfirmAction {
    /// Delete the trash entry at this index for good.
    DeletePermanent(usize),
    /// Empty the trash.
    ClearTrash,
}

/// What is known of a newer release.
pub enum UpdateStatus {
    Checking,
    Latest,
    NewVersion(String),
    Error,
}

/// The value of an `UpdateStatus`.
pub enum UpdateStatusView {
    Checking,
    Latest,
    NewVersion(Seq<char>),
    Error,
}

impl View for UpdateStatus {
    type V = UpdateStatusView;

    open spec fn view(&self) -> UpdateStatusView {
        match self {
            UpdateStatus::Checking => UpdateStatusView::Checking,
            UpdateStatus::Latest => UpdateStatusView::Latest,
            UpdateStatus::NewVersion(s) => UpdateStatusView::NewVersion(s@),
            UpdateStatus::Error => UpdateStatusView::Error,
        }
    }
}

/// What the surrounding program has to do after a step of the organiser.
pub enum Command {
    Nothing,
    Quit,
    /// Write the task list to its file.
    SaveTasks,
    /// Write the trash to its file.
    SaveTrash,
    /// Write both files.
    SaveAll,
    /// Find out whether the generator's files are present, and report it
    /// through `App::ai_files_checked`.
    CheckAiFiles,
    /// Fetch the generator's files, and report the outcome through
    /// `App::ai_result`.
    StartDownload,
    /// Generate sub-tasks for this request, and report the outcome through
    /// `App::ai_result`.
    StartGeneration(String),
}

/// The value of a `Command`.
pub enum CommandView {
    Nothing,
    Quit,
    SaveTasks,
    SaveTrash,
    SaveAll,
    CheckAiFiles,
    StartDownload,
    StartGeneration(Seq<char>),
}

impl View for Command {
    type V = CommandView;

    open spec fn view(&self) -> CommandView {
        match self {
            Command::Nothing => CommandView::Nothing,
            Command::Quit => CommandView::Quit,
            Command::SaveTasks => CommandView::SaveTasks,
            Command::SaveTrash => CommandView::SaveTrash,
            Command::SaveAll => CommandView::SaveAll,
            Command::CheckAiFiles => CommandView::CheckAiFiles,
            Command::StartDownload => CommandView::StartDownload,
            Command::StartGeneration(s) => CommandView::StartGeneration(s@),
        }
    }
}

/// The number of colour themes.
pub const THEME_COUNT: usize = 8;

/// The whole state of the organiser.
pub struct App {
    pub tasks: Vec<Task>,
    pub trash: Vec<Task>,
    /// Position of the selected entry among the shown tasks.
    pub selected: Option<usize>,
    /// Position of the selected entry among the shown trash entries.
    pub trash_selected: Option<usize>,
    pub input: String,
    pub input_mode: InputMode,
    pub view_mode: ViewMode,
    pub current_theme_index: usize,
    pub show_help: bool,
    pub show_about: bool,
    pub search_query: String,
    pub show_confirm: bool,
    pub confirm_action: Option<ConfirmAction>,
    pub update_status: UpdateStatus,
    pub ai_generating: bool,
    pub ai_downloading: bool,
    pub ai_error: Option<String>,
}

/// The value of an `App`.
#[verifier::ext_equal]
pub struct AppView {
    pub tasks: Seq<TaskView>,
    pub trash: Seq<TaskView>,
    pub selected: Option<usize>,
    pub trash_selected: Option<usize>,
    pub input: Seq<char>,
    pub input_mode: InputMode,
    pub view_mode: ViewMode,
    pub current_theme_index: usize,
    pub show_help: bool,
    pub show_about: bool,
    pub search_query: Seq<char>,
    pub show_confirm: bool,
    pub confirm_action: Option<ConfirmAction>,
    pub update_status: UpdateStatusView,
    pub ai_generating: bool,
    pub ai_downloading: bool,
    pub ai_error: Option<Seq<char>>,
}

impl View for App {
    type V = AppView;

    open spec fn view(&self) -> AppView {
        AppView {
            tasks: task_views(self.tasks@),
            trash: task_views(self.trash@),
            selected: self.selected,
            trash_selected: self.trash_selected,
            input: self.input@,
            input_mode: self.input_mode,
            view_mode: self.view_mode,
            current_theme_index: self.current_theme_index,
            show_help: self.show_help,
            show_about: self.show_about,
            search_query: self.search_query@,
            show_confirm: self.show_confirm,
            confirm_action: self.confirm_action,
            update_status: self.update_status@,
            ai_generating: self.ai_generating,
            ai_downloading: self.ai_downloading,
            ai_error: match self.ai_error {
                Some(e) => Some(e@),
                None => None,
            },
        }
    }
}

/// Positions `i` of `titles` at which `query` occurs in `titles[i]`, in order.
pub open spec fn matching(titles: Seq<Seq<char>>, query: Seq<char>) -> Seq<int>
    decreases titles.len(),
{
    if titles.len() == 0 {
        Seq::empty()
    } else if has_infix(titles.last(), query) {
        matching(titles.drop_last(), query).push(titles.len() - 1)
    } else {
        matching(titles.drop_last(), query)
    }
}

/// The lower-cased titles of some tasks.
pub open spec fn lowered_titles(ts: Seq<TaskView>) -> Seq<Seq<char>> {
    ts.map_values(|t: TaskView| lowercase(t.title))
}

/// Positions of the tasks whose title holds the query, both lower-cased:
/// the entries a search shows.
pub open spec fn filtered(ts: Seq<TaskView>, query: Seq<char>) -> Seq<int> {
    matching(lowered_titles(ts), lowercase(query))
}

/// The values of a vector of positions.
pub open spec fn positions(v: Seq<usize>) -> Seq<int> {
    v.map_values(|i: usize| i as int)
}

pub proof fn lemma_matching_shape(titles: Seq<Seq<char>>, query: Seq<char>)
    ensures
        matching(titles, query).len() <= titles.len(),
        forall|k: int|
            0 <= k < matching(titles, query).len() ==> 0 <= #[trigger] matching(titles, query)[k]
                < titles.len(),
        forall|j: int, k: int|
            0 <= j < k < matching(titles, query).len() ==> matching(titles, query)[j] < matching(
                titles,
                query,
            )[k],
    decreases titles.len(),
{
    if titles.len() > 0 {
        lemma_matching_shape(titles.drop_last(), query);
    }
}

/// Every position of a list of `n` entries, in order.
pub open spec fn all_positions(n: nat) -> Seq<int> {
    Seq::new(n, |i: int| i)
}

/// The empty query occurs in every title, so it lets every entry through.
pub proof fn lemma_empty_query_matches_all(titles: Seq<Seq<char>>, query: Seq<char>)
    requires
        query.len() == 0,
    ensures
        matching(titles, query) == all_positions(titles.len()),
    decreases titles.len(),
{
    if titles.len() > 0 {
        lemma_empty_query_matches_all(titles.drop_last(), query);
        assert(titles.last().subrange(0, 0int + query.len()) =~= query);
        assert(has_infix(titles.last(), query));
        assert(matching(titles, query) =~= all_positions(titles.len()));
    } else {
        assert(matching(titles, query) =~= all_positions(titles.len()));
    }
}

/// Positions `i` of `titles` at which `query` occurs in `titles[i]`; the
/// titles and the query are given already lower-cased.
pub fn matching_indices(titles: &Vec<String>, query: &str) -> (r: Vec<usize>)
    ensures
        positions(r@) == matching(titles@.map_values(|t: String| t@), query@),
{
    let q = chars_of(query);
    let mut r: Vec<usize> = Vec::new();
    let mut i: usize = 0;
    while i < titles.len()
        invariant
            i <= titles.len(),
            q@ == query@,
            positions(r@) == matching(titles@.take(i as int).map_values(|t: String| t@), query@),
        decreases titles.len() - i,
    {
        let ghost before = r@;
        let t = chars_of(titles[i].as_str());
        let ghost pre = titles@.take(i + 1).map_values(|t: String| t@);
        assert(pre.drop_last() =~= titles@.take(i as int).map_values(|t: String| t@));
        assert(pre.last() == titles@[i as int]@);
        if contains_chars(t.as_slice(), q.as_slice()) {
            r.push(i);
            assert(positions(r@) =~= positions(before).push(i as int));
        }
        i += 1;
    }
    assert(titles@.take(titles.len() as int) =~= titles@);
    r
}

/// Positions of the tasks of `tasks` that a search for `query` shows.
pub fn filter_by_query(tasks: &Vec<Task>, query: &str) -> (r: Vec<usize>)
    ensures
        positions(r@) == filtered(task_views(tasks@), query@),
        forall|k: int| 0 <= k < r@.len() ==> r@[k] < tasks@.len(),
        query@.len() == 0 ==> positions(r@) == all_positions(tasks@.len()),
{
    let q = to_lowercase(query);
    proof {
        if query@.len() == 0 {
            lemma_empty_query_matches_all(lowered_titles(task_views(tasks@)), q@);
        }
    }
    let mut lowered: Vec<String> = Vec::new();
    let mut i: usize = 0;
    while i < tasks.len()
        invariant
            i <= tasks.len(),
            lowered@.len() == i,
            forall|k: int| 0 <= k < i ==> #[trigger] lowered@[k]@ == lowercase(tasks@[k].title@),
        decreases tasks.len() - i,
    {
        lowered.push(to_lowercase(tasks[i].title.as_str()));
        i += 1;
    }
    assert(lowered@.map_values(|t: String| t@) =~= lowered_titles(task_views(tasks@)));
    let r = matching_indices(&lowered, q.as_str());
    proof {
        lemma_matching_shape(lowered_titles(task_views(tasks@)), lowercase(query@));
        assert forall|k: int| 0 <= k < r@.len() implies r@[k] < tasks@.len() by {
            assert(positions(r@)[k] == r@[k] as int);
        }
    }
    r
}

/// The selection after moving down a list of `n` entries: past the last
/// entry it wraps to the first; with nothing selected it goes to the first;
/// an empty list has no selection.
pub open spec fn sel_next(sel: Option<usize>, n: nat) -> Option<usize> {
    if n == 0 {
        None
    } else {
        match sel {
            Some(i) => if i >= n - 1 {
                Some(0)
            } else {
                Some((i + 1) as usize)
            },
            None => Some(0),
        }
    }
}

/// The selection after moving up a list of `n` entries: before the first
/// entry it wraps to the last; with nothing selected it goes to the first;
/// an empty list has no selection.
pub open spec fn sel_previous(sel: Option<usize>, n: nat) -> Option<usize> {
    if n == 0 {
        None
    } else {
        match sel {
            Some(i) => if i == 0 {
                Some((n - 1) as usize)
            } else {
                Some((i - 1) as usize)
            },
            None => Some(0),
        }
    }
}

impl AppView {
    /// Positions of the tasks shown in the active view.
    pub open spec fn shown_tasks(self) -> Seq<int> {
        filtered(self.tasks, self.search_query)
    }

    /// Positions of the entries shown in the trash view.
    pub open spec fn shown_trash(self) -> Seq<int> {
        filtered(self.trash, self.search_query)
    }

    /// Number of entries of the list that is shown.
    pub open spec fn shown_len(self) -> nat {
        match self.view_mode {
            ViewMode::Active => self.shown_tasks().len(),
            ViewMode::Trash => self.shown_trash().len(),
        }
    }

    /// The selection in the list that is shown.
    pub open spec fn current_selection(self) -> Option<usize> {
        match self.view_mode {
            ViewMode::Active => self.selected,
            ViewMode::Trash => self.trash_selected,
        }
    }

    /// This state with the selection of the shown list replaced.
    pub open spec fn with_current_selection(self, sel: Option<usize>) -> AppView {
        match self.view_mode {
            ViewMode::Active => AppView { selected: sel, ..self },
            ViewMode::Trash => AppView { trash_selected: sel, ..self },
        }
    }

    /// The state after moving down the shown list.
    pub open spec fn moved_down(self) -> AppView {
        self.with_current_selection(sel_next(self.current_selection(), self.shown_len()))
    }

    /// The state after moving up the shown list.
    pub open spec fn moved_up(self) -> AppView {
        self.with_current_selection(sel_previous(self.current_selection(), self.shown_len()))
    }
}

/// The selection left after an entry of a list was removed, when the
/// selection was at `v` and the list now shows `n` entries.
pub open spec fn sel_after_removal(v: usize, n: nat) -> Option<usize> {
    if n == 0 {
        None
    } else if v >= n {
        Some((n - 1) as usize)
    } else {
        Some(v)
    }
}

/// A task with a new modification time.
pub open spec fn touched(t: TaskView, now: Seq<char>) -> TaskView {
    TaskView { modified_at: now, ..t }
}

impl AppView {
    /// The effect of the toggle key (Space or Enter) at time `now`. In the
    /// active view the selected task's completion flips; in the trash view
    /// the selected entry goes back to the end of the task list.
    pub open spec fn toggled_or_restored(self, now: Seq<char>) -> (AppView, CommandView) {
        match self.view_mode {
            ViewMode::Active => {
                let f = self.shown_tasks();
                match self.selected {
                    Some(v) => if v < f.len() {
                        let r = f[v as int];
                        let t = self.tasks[r];
                        (
                            AppView {
                                tasks: self.tasks.update(
                                    r,
                                    TaskView { completed: !t.completed, modified_at: now, ..t },
                                ),
                                ..self
                            },
                            CommandView::SaveTasks,
                        )
                    } else {
                        (self, CommandView::Nothing)
                    },
                    None => (self, CommandView::Nothing),
                }
            },
            ViewMode::Trash => {
                let f = self.shown_trash();
                match self.trash_selected {
                    Some(v) => if v < f.len() {
                        let r = f[v as int];
                        let trash = self.trash.remove(r);
                        let tasks = self.tasks.push(touched(self.trash[r], now));
                        (
                            AppView {
                                tasks,
                                trash,
                                trash_selected: sel_after_removal(
                                    v,
                                    filtered(trash, self.search_query).len(),
                                ),
                                selected: Some((tasks.len() - 1) as usize),
                                ..self
                            },
                            CommandView::SaveAll,
                        )
                    } else {
                        (self, CommandView::Nothing)
                    },
                    None => (self, CommandView::Nothing),
                }
            },
        }
    }
}

pub(crate) fn selection_after_removal(v: usize, n: usize) -> (r: Option<usize>)
    ensures
        r == sel_after_removal(v, n as nat),
{
    if n == 0 {
        None
    } else if v >= n {
        Some(n - 1)
    } else {
        Some(v)
    }
}

impl App {
    /// Positions of the tasks that the search query lets through.
    pub fn filtered_tasks(&self) -> (r: Vec<usize>)
        ensures
            positions(r@) == self@.shown_tasks(),
            forall|k: int| 0 <= k < r@.len() ==> r@[k] < self.tasks@.len(),
            self.search_query@.len() == 0 ==> positions(r@) == all_positions(self.tasks@.len()),
    {
        filter_by_query(&self.tasks, self.search_query.as_str())
    }

    /// Positions of the trash entries that the search query lets through.
    pub fn filtered_trash(&self) -> (r: Vec<usize>)
        ensures
            positions(r@) == self@.shown_trash(),
            forall|k: int| 0 <= k < r@.len() ==> r@[k] < self.trash@.len(),
            self.search_query@.len() == 0 ==> positions(r@) == all_positions(self.trash@.len()),
    {
        filter_by_query(&self.trash, self.search_query.as_str())
    }

    /// The toggle key at time `now`: flips the completion of the selected
    /// task, or restores the selected trash entry to the end of the list.
    pub fn toggle_or_restore_at(&mut self, now: &str) -> (cmd: Command)
        ensures
            (final(self)@, cmd@) == old(self)@.toggled_or_restored(now@),
    {
        match self.view_mode {
            ViewMode::Active => {
                let f = self.filtered_tasks();
                if let Some(v) = self.selected {
                    if v < f.len() {
                        let r = f[v];
                        assert(positions(f@)[v as int] == r);
                        let ghost before = self@;
                        let mut t = self.tasks.remove(r);
                        t.completed = !t.completed;
                        t.modified_at = String::from_str(now);
                        self.tasks.insert(r, t);
                        assert(self@ =~= before.toggled_or_restored(now@).0);
                        return Command::SaveTasks;
                    }
                }
                Command::Nothing
            },
            ViewMode::Trash => {
                let f = self.filtered_trash();
                if let Some(v) = self.trash_selected {
                    if v < f.len() {
                        let r = f[v];
                        assert(positions(f@)[v as int] == r);
                        let ghost before = self@;
                        let mut t = self.trash.remove(r);
                        t.modified_at = String::from_str(now);
                        self.tasks.push(t);
                        assert(task_views(self.trash@) =~= before.trash.remove(r as int));
                        assert(task_views(self.tasks@) =~= before.tasks.push(touched(before.trash[r as int], now@)));
                        let n = self.filtered_trash().len();
                        self.trash_selected = selection_after_removal(v, n);
                        self.selected = Some(self.tasks.len() - 1);
                        assert(self@ =~= before.toggled_or_restored(now@).0);
                        return Command::SaveAll;
                    }
                }
                Command::Nothing
            },
        }
    }

    /// The toggle key: as `toggle_or_restore_at`, at the current time.
    pub fn toggle_or_restore(&mut self) -> (cmd: Command)
        ensures
            exists|now: Seq<char>|
                crate::task::is_timestamp(now) && bar_free(now)
                    && (final(self)@, cmd@) == #[trigger] old(self)@.toggled_or_restored(now),
    {
        let now = current_timestamp();
        self.toggle_or_restore_at(now.as_str())
    }

    /// Moves the selection of the shown list down by one, wrapping around.
    pub fn next(&mut self)
        ensures
            final(self)@ == old(self)@.moved_down(),
    {
        match self.view_mode {
            ViewMode::Active => {
                let n = self.filtered_tasks().len();
                self.selected = next_selection(self.selected, n);
            },
            ViewMode::Trash => {
                let n = self.filtered_trash().len();
                self.trash_selected = next_selection(self.trash_selected, n);
            },
        }
    }

    /// Moves the selection of the shown list up by one, wrapping around.
    pub fn previous(&mut self)
        ensures
            final(self)@ == old(self)@.moved_up(),
    {
        match self.view_mode {
            ViewMode::Active => {
                let n = self.filtered_tasks().len();
                self.selected = previous_selection(self.selected, n);
            },
            ViewMode::Trash => {
                let n = self.filtered_trash().len();
                self.trash_selected = previous_selection(self.trash_selected, n);
            },
        }
    }
}

fn next_selection(sel: Option<usize>, n: usize) -> (r: Option<usize>)
    ensures
        r == sel_next(sel, n as nat),
{
    if n == 0 {
        return None;
    }
    match sel {
        Some(i) => if i >= n - 1 {
            Some(0)
        } else {
            Some(i + 1)
        },
        None => Some(0),
    }
}

fn previous_selection(sel: Option<usize>, n: usize) -> (r: Option<usize>)
    ensures
        r == sel_previous(sel, n as nat),
{
    if n == 0 {
        return None;
    }
    match sel {
        Some(i) => if i == 0 {
            Some(n - 1)
        } else {
            Some(i - 1)
        },
        None => Some(0),
    }
}

/// After moving down or up, the shown list has a selection exactly when it is
/// not empty, and the selection lies within it.
pub proof fn law_moves_stay_in_range(s: AppView)
    ensures
        s.moved_down().current_selection() is None <==> s.shown_len() == 0,
        s.moved_up().current_selection() is None <==> s.shown_len() == 0,
        s.moved_down().current_selection() matches Some(i) ==> i < s.shown_len(),
        s.moved_up().current_selection() matches Some(i) ==> (s.current_selection() matches Some(
            j,
        ) && j > s.shown_len()) || i < s.shown_len(),
{
}

proof fn lemma_sel_inverse(sel: Option<usize>, n: nat)
    requires
        sel matches Some(i) && i < n,
        n <= usize::MAX,
    ensures
        sel_previous(sel_next(sel, n), n) == sel,
        sel_next(sel_previous(sel, n), n) == sel,
{
}

/// Moving down then up, or up then down, gives back a selection that lay
/// within the shown list.
pub proof fn law_moves_undo_each_other(s: AppView)
    requires
        s.tasks.len() <= usize::MAX,
        s.trash.len() <= usize::MAX,
        s.current_selection() matches Some(i) && i < s.shown_len(),
    ensures
        s.moved_down().moved_up() == s,
        s.moved_up().moved_down() == s,
{
    let d = s.moved_down();
    let u = s.moved_up();
    lemma_matching_shape(lowered_titles(s.tasks), lowercase(s.search_query));
    lemma_matching_shape(lowered_titles(s.trash), lowercase(s.search_query));
    lemma_sel_inverse(s.current_selection(), s.shown_len());
    assert(d.shown_len() == s.shown_len());
    assert(u.shown_len() == s.shown_len());
    match s.view_mode {
        ViewMode::Active => {
            let n = s.shown_len();
            assert(d.selected == sel_next(s.selected, n));
            assert(d.current_selection() == d.selected);
            assert(u.current_selection() == u.selected);
            assert(d.moved_up().selected == sel_previous(d.selected, n));
            assert(d.moved_up().selected == s.selected);
            assert(d.moved_up() =~= s);
            assert(u.moved_down().selected == s.selected);
            assert(u.moved_down() =~= s);
        },
        ViewMode::Trash => {
            let n = s.shown_len();
            assert(d.trash_selected == sel_next(s.trash_selected, n));
            assert(d.current_selection() == d.trash_selected);
            assert(u.current_selection() == u.trash_selected);
            assert(d.moved_up().trash_selected == sel_previous(d.trash_selected, n));
            assert(d.moved_up().trash_selected == s.trash_selected);
            assert(d.moved_up() =~= s);
            assert(u.moved_down().trash_selected == s.trash_selected);
            assert(u.moved_down() =~= s);
        },
    }
}

/// Replacing a task by one with the same title changes no search result.
pub proof fn lemma_same_titles_same_filter(ts: Seq<TaskView>, r: int, t: TaskView, q: Seq<char>)
    requires
        0 <= r < ts.len(),
        t.title == ts[r].title,
    ensures
        filtered(ts.update(r, t), q) == filtered(ts, q),
{
    assert(lowered_titles(ts.update(r, t)) =~= lowered_titles(ts));
}

/// Pressing the toggle key twice on a selected task gives the task back its
/// completion flag; only its modification time differs, and nothing else of
/// the state changes.
pub proof fn law_toggle_twice(s: AppView, now1: Seq<char>, now2: Seq<char>)
    requires
        s.view_mode == ViewMode::Active,
        s.selected matches Some(v) && v < s.shown_tasks().len(),
    ensures
        ({
            let r = s.shown_tasks()[s.selected.unwrap() as int];
            s.toggled_or_restored(now1).0.toggled_or_restored(now2).0 == AppView {
                tasks: s.tasks.update(r, touched(s.tasks[r], now2)),
                ..s
            }
        }),
{
    let v = s.selected.unwrap();
    let r = s.shown_tasks()[v as int];
    lemma_matching_shape(lowered_titles(s.tasks), lowercase(s.search_query));
    let s1 = s.toggled_or_restored(now1).0;
    let t = s.tasks[r];
    lemma_same_titles_same_filter(
        s.tasks,
        r,
        TaskView { completed: !t.completed, modified_at: now1, ..t },
        s.search_query,
    );
    assert(s1.shown_tasks() == s.shown_tasks());
    let s2 = s1.toggled_or_restored(now2).0;
    assert(s2.tasks =~= s.tasks.update(r, touched(s.tasks[r], now2)));
    assert(s2 =~= AppView { tasks: s.tasks.update(r, touched(s.tasks[r], now2)), ..s });
}

/// The toggle key loses no task: the list and the trash together hold as
/// many entries before as after.
pub proof fn law_toggle_keeps_all_tasks(s: AppView, now: Seq<char>)
    ensures
        s.toggled_or_restored(now).0.tasks.len() + s.toggled_or_restored(now).0.trash.len()
            == s.tasks.len() + s.trash.len(),
{
    lemma_matching_shape(lowered_titles(s.tasks), lowercase(s.search_query));
    lemma_matching_shape(lowered_titles(s.trash), lowercase(s.search_query));
}

} // verus!
