//! Which entry a key acts on: the keys of normal mode act on the entry at
//! the selected row of the shown (searched) list, never on the entry at that
//! position of the whole list.

use vstd::prelude::*;

use crate::app::{AppView, ConfirmAction, InputMode, ViewMode};
use crate::keys::{done_tasks, open_tasks, Key, KeyInput};
use crate::priority::{raised, Priority};
use crate::task::TaskView;
use crate::text::trimmed;

verus! {

/// Pressing the character `c`, with no modifier held.
pub open spec fn press(c: char) -> KeyInput {
    KeyInput { key: Key::Char(c), alt: false, shift: false, released: false }
}

/// Pressing Enter, with no modifier held.
pub open spec fn press_enter() -> KeyInput {
    KeyInput { key: Key::Enter, alt: false, shift: false, released: false }
}

/// The state takes command letters: normal mode, no dialog or box open.
pub open spec fn takes_commands(s: AppView) -> bool {
    &&& s.input_mode == InputMode::Normal
    &&& !s.show_confirm
    &&& !(s.show_help || s.show_about || s.ai_error is Some)
}

/// The active view has a selection at row `v` of the shown tasks.
pub open spec fn active_row(s: AppView, v: usize) -> bool {
    &&& s.view_mode == ViewMode::Active
    &&& s.selected == Some(v)
    &&& v < s.shown_tasks().len()
}

/// The trash view has a selection at row `v` of the shown entries.
pub open spec fn trash_row(s: AppView, v: usize) -> bool {
    &&& s.view_mode == ViewMode::Trash
    &&& s.trash_selected == Some(v)
    &&& v < s.shown_trash().len()
}

proof fn lemma_rows_in_range(s: AppView)
    ensures
        forall|k: int| 0 <= k < s.shown_tasks().len() ==> 0 <= #[trigger] s.shown_tasks()[k] < s.tasks.len(),
        forall|k: int| 0 <= k < s.shown_trash().len() ==> 0 <= #[trigger] s.shown_trash()[k] < s.trash.len(),
{
    crate::app::lemma_matching_shape(
        crate::app::lowered_titles(s.tasks),
        crate::text::lowercase(s.search_query),
    );
    crate::app::lemma_matching_shape(
        crate::app::lowered_titles(s.trash),
        crate::text::lowercase(s.search_query),
    );
}

/// `d` in the active view moves the task at the selected shown row, and no
/// other, to the end of the trash, stamped with the time of the key; every
/// other task stays in the list, in order.
pub proof fn law_delete_moves_the_selected_task(s: AppView, v: usize, c: char, now: Seq<char>)
    requires
        takes_commands(s),
        active_row(s, v),
        c == 'd' || c == 'D' || c == 'в' || c == 'В',
    ensures
        ({
            let r = s.shown_tasks()[v as int];
            let t = s.tasks[r];
            let after = s.key_step(press(c), now).0;
            &&& after.tasks == s.tasks.remove(r)
            &&& after.trash.len() == s.trash.len() + 1
            &&& after.trash.take(s.trash.len() as int) == s.trash
            &&& after.trash.last() == TaskView { modified_at: now, ..t }
            &&& after.trash.last().title == t.title
        }),
{
    lemma_rows_in_range(s);
    let r = s.shown_tasks()[v as int];
    let after = s.key_step(press(c), now).0;
    assert(after.trash.take(s.trash.len() as int) =~= s.trash);
}

proof fn lemma_open_is_filter(ts: Seq<TaskView>)
    ensures
        open_tasks(ts) == ts.filter(|t: TaskView| !t.completed),
    decreases ts.len(),
{
    reveal(Seq::filter);
    if ts.len() > 0 {
        lemma_open_is_filter(ts.drop_last());
    }
}

proof fn lemma_done_is_filter(ts: Seq<TaskView>, now: Seq<char>)
    ensures
        done_tasks(ts, now) == ts.filter(|t: TaskView| t.completed).map_values(
            |t: TaskView| TaskView { modified_at: now, ..t },
        ),
    decreases ts.len(),
{
    reveal(Seq::filter);
    if ts.len() > 0 {
        lemma_done_is_filter(ts.drop_last(), now);
        let f = ts.drop_last().filter(|t: TaskView| t.completed);
        if ts.last().completed {
            assert(f.push(ts.last()).map_values(|t: TaskView| TaskView { modified_at: now, ..t })
                =~= f.map_values(|t: TaskView| TaskView { modified_at: now, ..t }).push(
                TaskView { modified_at: now, ..ts.last() },
            ));
        }
    } else {
        assert(done_tasks(ts, now) =~= ts.filter(|t: TaskView| t.completed).map_values(
            |t: TaskView| TaskView { modified_at: now, ..t },
        ));
    }
}

/// `c` in the active view keeps exactly the open tasks in the list, in
/// order, and appends exactly the completed ones, in order and stamped with
/// the time of the key, to the trash.
pub proof fn law_clear_moves_exactly_the_completed(s: AppView, c: char, now: Seq<char>)
    requires
        takes_commands(s),
        s.view_mode == ViewMode::Active,
        c == 'c' || c == 'C' || c == 'с' || c == 'С',
    ensures
        ({
            let after = s.key_step(press(c), now).0;
            &&& after.tasks == s.tasks.filter(|t: TaskView| !t.completed)
            &&& after.trash == s.trash + s.tasks.filter(|t: TaskView| t.completed).map_values(
                |t: TaskView| TaskView { modified_at: now, ..t },
            )
            &&& forall|i: int| 0 <= i < after.tasks.len() ==> !(#[trigger] after.tasks[i]).completed
        }),
{
    lemma_open_is_filter(s.tasks);
    lemma_done_is_filter(s.tasks, now);
    broadcast use vstd::seq_lib::group_filter_ensures;

}

/// `d` in the trash view asks to delete the entry at the selected shown row
/// (its position in the whole trash), and confirming with `y` deletes that
/// entry and keeps all the others, in order.
pub proof fn law_trash_delete_targets_the_selected_entry(s: AppView, v: usize, c: char, now: Seq<char>)
    requires
        takes_commands(s),
        trash_row(s, v),
        s.trash.len() <= usize::MAX,
        c == 'd' || c == 'D' || c == 'в' || c == 'В',
    ensures
        ({
            let r = s.shown_trash()[v as int];
            let asked = s.key_step(press(c), now).0;
            let done = asked.key_step(press('y'), now).0;
            &&& asked.show_confirm
            &&& asked.confirm_action == Some(ConfirmAction::DeletePermanent(r as usize))
            &&& asked.trash == s.trash && asked.tasks == s.tasks
            &&& done.trash == s.trash.remove(r)
            &&& done.tasks == s.tasks
            &&& !done.show_confirm
        }),
{
    lemma_rows_in_range(s);
    let r = s.shown_trash()[v as int];
    assert((r as usize) as int == r);
}

/// `p` in the active view raises the priority of the task at the selected
/// shown row by one step, stamps it with the time of the key, and leaves its
/// title and every other task as they were.
pub proof fn law_raise_targets_the_selected_task(s: AppView, v: usize, c: char, now: Seq<char>)
    requires
        takes_commands(s),
        active_row(s, v),
        c == 'p' || c == 'P' || c == 'з' || c == 'З',
    ensures
        ({
            let r = s.shown_tasks()[v as int];
            let after = s.key_step(press(c), now).0;
            &&& after.tasks.len() == s.tasks.len()
            &&& after.tasks[r].priority == raised(s.tasks[r].priority)
            &&& after.tasks[r].priority != s.tasks[r].priority
            &&& after.tasks[r].title == s.tasks[r].title
            &&& after.tasks[r].completed == s.tasks[r].completed
            &&& after.tasks[r].modified_at == now
            &&& forall|j: int| 0 <= j < s.tasks.len() && j != r ==> after.tasks[j] == s.tasks[j]
        }),
{
    lemma_rows_in_range(s);
}

/// The order in which `p` raises a priority.
pub proof fn law_raise_order(p: Priority)
    ensures
        p == Priority::Low ==> raised(p) == Priority::Medium,
        p == Priority::Medium ==> raised(p) == Priority::High,
        p == Priority::High ==> raised(p) == Priority::Critical,
        p == Priority::Critical ==> raised(p) == Priority::Low,
{
}

/// `e` in the active view opens the title of the task at the selected shown
/// row for editing; Enter right after it writes that same title back,
/// trimmed, into that same task, and leaves every other task alone.
pub proof fn law_edit_targets_the_selected_task(s: AppView, v: usize, c: char, now: Seq<char>)
    requires
        takes_commands(s),
        active_row(s, v),
        c == 'e' || c == 'E' || c == 'у' || c == 'У',
    ensures
        ({
            let r = s.shown_tasks()[v as int];
            let editing = s.key_step(press(c), now).0;
            let after = editing.key_step(press_enter(), now).0;
            &&& editing.input_mode == InputMode::EditingTitle
            &&& editing.input == s.tasks[r].title
            &&& editing.tasks == s.tasks
            &&& after.input_mode == InputMode::Normal
            &&& after.tasks.len() == s.tasks.len()
            &&& forall|j: int| 0 <= j < s.tasks.len() && j != r ==> after.tasks[j] == s.tasks[j]
            &&& trimmed(s.tasks[r].title).len() > 0 ==> after.tasks[r].title == trimmed(s.tasks[r].title)
                && after.tasks[r].priority == s.tasks[r].priority
                && after.tasks[r].completed == s.tasks[r].completed
        }),
{
    lemma_rows_in_range(s);
    let editing = s.key_step(press(c), now).0;
    assert(editing.shown_tasks() == s.shown_tasks());
    assert(editing.selected_task() == s.selected_task());
}

/// Enter while editing renames the task at the selected shown row, and no
/// other, to the trimmed input, when that is not blank.
pub proof fn law_rename_targets_the_selected_task(s: AppView, v: usize, now: Seq<char>)
    requires
        s.input_mode == InputMode::EditingTitle,
        !s.show_confirm,
        !(s.show_help || s.show_about || s.ai_error is Some),
        s.selected == Some(v),
        v < s.shown_tasks().len(),
        trimmed(s.input).len() > 0,
    ensures
        ({
            let r = s.shown_tasks()[v as int];
            let after = s.key_step(press_enter(), now).0;
            &&& after.tasks.len() == s.tasks.len()
            &&& after.tasks[r].title == trimmed(s.input)
            &&& after.tasks[r].modified_at == now
            &&& forall|j: int| 0 <= j < s.tasks.len() && j != r ==> after.tasks[j] == s.tasks[j]
        }),
{
    lemma_rows_in_range(s);
}


/// Space (or Enter) in the active view flips the completion of the task at
/// the selected shown row, stamps it with the time of the key, and leaves
/// its other fields, every other task and the trash alone.
pub proof fn law_toggle_targets_the_selected_task(s: AppView, v: usize, c: char, now: Seq<char>)
    requires
        takes_commands(s),
        active_row(s, v),
        c == ' ',
    ensures
        ({
            let r = s.shown_tasks()[v as int];
            let after = s.key_step(press(c), now).0;
            let by_enter = s.key_step(press_enter(), now).0;
            &&& after.tasks.len() == s.tasks.len()
            &&& after.tasks[r].completed == !s.tasks[r].completed
            &&& after.tasks[r].title == s.tasks[r].title
            &&& after.tasks[r].priority == s.tasks[r].priority
            &&& after.tasks[r].created_at == s.tasks[r].created_at
            &&& after.tasks[r].modified_at == now
            &&& forall|j: int| 0 <= j < s.tasks.len() && j != r ==> after.tasks[j] == s.tasks[j]
            &&& after.trash == s.trash
            &&& by_enter == after
        }),
{
    lemma_rows_in_range(s);
}

/// Space (or Enter) in the trash view puts the entry at the selected shown
/// row, and no other, back at the end of the task list, stamped with the time
/// of the key, and selects it there; the other trash entries stay, in order.
pub proof fn law_restore_targets_the_selected_entry(s: AppView, v: usize, now: Seq<char>)
    requires
        takes_commands(s),
        trash_row(s, v),
        s.tasks.len() < usize::MAX,
    ensures
        ({
            let r = s.shown_trash()[v as int];
            let after = s.key_step(press(' '), now).0;
            &&& after.trash == s.trash.remove(r)
            &&& after.tasks.len() == s.tasks.len() + 1
            &&& after.tasks.take(s.tasks.len() as int) == s.tasks
            &&& after.tasks.last() == TaskView { modified_at: now, ..s.trash[r] }
            &&& after.selected == Some(s.tasks.len() as usize)
        }),
{
    lemma_rows_in_range(s);
    let after = s.key_step(press(' '), now).0;
    assert(after.tasks.take(s.tasks.len() as int) =~= s.tasks);
}

/// With Shift held, Up and Down in the active view (with no search) swap the
/// selected task with its neighbour above or below, keep it selected, and
/// leave every other task where it was.
pub proof fn law_move_swaps_with_the_neighbour(s: AppView, i: usize, now: Seq<char>)
    requires
        takes_commands(s),
        s.view_mode == ViewMode::Active,
        s.search_query.len() == 0,
        s.selected == Some(i),
        i < s.tasks.len(),
    ensures
        ({
            let up = s.key_step(KeyInput { key: Key::Up, alt: false, shift: true, released: false }, now).0;
            let down = s.key_step(KeyInput { key: Key::Down, alt: false, shift: true, released: false }, now).0;
            &&& i > 0 ==> {
                &&& up.tasks.len() == s.tasks.len()
                &&& up.tasks[i - 1] == s.tasks[i as int]
                &&& up.tasks[i as int] == s.tasks[i - 1]
                &&& forall|j: int| 0 <= j < s.tasks.len() && j != i && j != i - 1 ==> up.tasks[j] == s.tasks[j]
                &&& up.selected == Some((i - 1) as usize)
            }
            &&& i == 0 ==> up == s
            &&& i + 1 < s.tasks.len() ==> {
                &&& down.tasks.len() == s.tasks.len()
                &&& down.tasks[i + 1] == s.tasks[i as int]
                &&& down.tasks[i as int] == s.tasks[i + 1]
                &&& forall|j: int| 0 <= j < s.tasks.len() && j != i && j != i + 1 ==> down.tasks[j] == s.tasks[j]
                &&& down.selected == Some((i + 1) as usize)
            }
            &&& i + 1 == s.tasks.len() ==> down == s
        }),
{
}

/// Enter while a new title is typed appends one open task of priority
/// `Low` with the trimmed title, created and modified at the time of the key,
/// and selects it; the other tasks stay, in order.
pub proof fn law_add_appends_the_new_task(s: AppView, now: Seq<char>)
    requires
        s.input_mode == InputMode::Adding,
        !s.show_confirm,
        !(s.show_help || s.show_about || s.ai_error is Some),
        trimmed(s.input).len() > 0,
        s.tasks.len() < usize::MAX,
    ensures
        ({
            let after = s.key_step(press_enter(), now).0;
            &&& after.tasks.len() == s.tasks.len() + 1
            &&& after.tasks.take(s.tasks.len() as int) == s.tasks
            &&& after.tasks.last() == (TaskView {
                title: trimmed(s.input),
                completed: false,
                priority: Priority::Low,
                created_at: now,
                modified_at: now,
            })
            &&& after.selected == Some(s.tasks.len() as usize)
            &&& after.trash == s.trash
            &&& after.input.len() == 0
            &&& after.input_mode == InputMode::Normal
        }),
{
    let after = s.key_step(press_enter(), now).0;
    assert(after.tasks.take(s.tasks.len() as int) =~= s.tasks);
}

} // verus!
