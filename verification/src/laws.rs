//! Properties of the organiser that span several operations: no key loses a
//! task, the input line edits undo, and every state the keys reach can be
//! stored and read back unchanged.

use vstd::prelude::*;

use crate::app::{law_toggle_keeps_all_tasks, lemma_matching_shape, lowered_titles, AppView, InputMode};
use crate::app::{ConfirmAction, ViewMode};
use crate::keys::{done_tasks, is_no, is_yes, normalized, open_tasks, Key, KeyInput};
use crate::task::{
    bar_free, bars, law_lines_round_trip, lemma_bars_shape, parsed_line, parsed_lines, task_line,
    TaskView,
};
use crate::text::{lowercase, trimmed};

verus! {

/// Number of entries in the task list and the trash together.
pub open spec fn total(s: AppView) -> int {
    s.tasks.len() + s.trash.len() as int
}

/// The key event submits a new task with a non-blank title.
pub open spec fn adds_task(s: AppView, k: KeyInput) -> bool {
    &&& !k.released
    &&& !s.show_confirm
    &&& k.key == Key::Enter
    &&& !(s.show_help || s.show_about || s.ai_error is Some)
    &&& s.input_mode == InputMode::Adding
    &&& trimmed(s.input).len() > 0
}

proof fn lemma_split_sizes(ts: Seq<crate::task::TaskView>, now: Seq<char>)
    ensures
        open_tasks(ts).len() + done_tasks(ts, now).len() == ts.len(),
    decreases ts.len(),
{
    if ts.len() > 0 {
        lemma_split_sizes(ts.drop_last(), now);
    }
}

proof fn lemma_shown_in_range(s: AppView)
    ensures
        forall|k: int| 0 <= k < s.shown_tasks().len() ==> 0 <= #[trigger] s.shown_tasks()[k] < s.tasks.len(),
        forall|k: int| 0 <= k < s.shown_trash().len() ==> 0 <= #[trigger] s.shown_trash()[k] < s.trash.len(),
{
    lemma_matching_shape(lowered_titles(s.tasks), lowercase(s.search_query));
    lemma_matching_shape(lowered_titles(s.trash), lowercase(s.search_query));
}

/// Outside the confirmation dialog no key loses a task: moving between the
/// list and the trash, editing, toggling and reordering keep the number of
/// entries of both together, and only submitting a new task adds one.
pub proof fn law_keys_lose_no_task(s: AppView, k: KeyInput, now: Seq<char>)
    requires
        !s.show_confirm,
    ensures
        total(s.key_step(k, now).0) == total(s) + if adds_task(s, k) {
            1int
        } else {
            0int
        },
{
    lemma_shown_in_range(s);
    lemma_split_sizes(s.tasks, now);
    law_toggle_keeps_all_tasks(s, now);
}

/// In the modes that edit a title or a request, typing a character and then
/// erasing it gives back the state.
pub proof fn law_type_then_erase(s: AppView, c: char, now: Seq<char>)
    requires
        s.input_mode == InputMode::Adding || s.input_mode == InputMode::EditingTitle
            || s.input_mode == InputMode::AiPrompt,
        !s.show_confirm,
        !(s.show_help || s.show_about || s.ai_error is Some),
    ensures
        ({
            let typed = KeyInput { key: Key::Char(c), alt: false, shift: false, released: false };
            let erase = KeyInput { key: Key::Backspace, alt: false, shift: false, released: false };
            s.key_step(typed, now).0.key_step(erase, now).0 == s
        }),
{
    let typed = KeyInput { key: Key::Char(c), alt: false, shift: false, released: false };
    let erase = KeyInput { key: Key::Backspace, alt: false, shift: false, released: false };
    let s1 = s.key_step(typed, now).0;
    assert(s1.input == s.input.push(c));
    assert(s1.input.drop_last() =~= s.input);
    assert(s1.key_step(erase, now).0 =~= s);
}


/// No timestamp of these tasks holds the separator of the storage format.
pub open spec fn stamps_ok(ts: Seq<TaskView>) -> bool {
    forall|i: int| 0 <= i < ts.len() ==> bar_free(#[trigger] ts[i].created_at) && bar_free(ts[i].modified_at)
}

/// Both lists of the state can be stored and read back.
pub open spec fn storable(s: AppView) -> bool {
    stamps_ok(s.tasks) && stamps_ok(s.trash)
}

proof fn lemma_split_stamps(ts: Seq<TaskView>, now: Seq<char>)
    requires
        stamps_ok(ts),
        bar_free(now),
    ensures
        stamps_ok(open_tasks(ts)),
        stamps_ok(done_tasks(ts, now)),
    decreases ts.len(),
{
    if ts.len() > 0 {
        assert(stamps_ok(ts.drop_last()));
        lemma_split_stamps(ts.drop_last(), now);
        let t = ts[ts.len() - 1];
        assert(bar_free(t.created_at) && bar_free(t.modified_at));
        lemma_stamps_with(open_tasks(ts.drop_last()), t, -1);
        lemma_stamps_with(done_tasks(ts.drop_last(), now), crate::app::touched(t, now), -1);
    }
}

proof fn lemma_stamps_moves(ts: Seq<TaskView>, us: Seq<TaskView>, r: int, j: int)
    requires
        stamps_ok(ts),
        stamps_ok(us),
    ensures
        0 <= r < ts.len() ==> stamps_ok(ts.remove(r)),
        0 <= r < ts.len() && 0 <= j < ts.len() ==> stamps_ok(crate::keys::swapped(ts, r, j)),
        0 <= r < ts.len() ==> bar_free(ts[r].created_at) && bar_free(ts[r].modified_at),
        stamps_ok(ts + us),
        stamps_ok(Seq::<TaskView>::empty()),
{
    if 0 <= r < ts.len() {
        assert forall|i: int| 0 <= i < ts.remove(r).len() implies bar_free(#[trigger] ts.remove(r)[i].created_at) && bar_free(ts.remove(r)[i].modified_at) by {
            if i < r {
                assert(ts.remove(r)[i] == ts[i]);
            } else {
                assert(ts.remove(r)[i] == ts[i + 1]);
            }
        }
    }
    assert forall|i: int| 0 <= i < (ts + us).len() implies bar_free(#[trigger] (ts + us)[i].created_at) && bar_free((ts + us)[i].modified_at) by {
        if i < ts.len() {
            assert((ts + us)[i] == ts[i]);
        } else {
            assert((ts + us)[i] == us[i - ts.len()]);
        }
    }
}

proof fn lemma_stamps_with(ts: Seq<TaskView>, t: TaskView, r: int)
    requires
        stamps_ok(ts),
        bar_free(t.created_at) && bar_free(t.modified_at),
    ensures
        0 <= r < ts.len() ==> stamps_ok(ts.update(r, t)),
        stamps_ok(ts.push(t)),
{
}

/// Every key keeps the state storable, given a clock whose timestamps hold
/// no separator (which the clock guarantees).
pub proof fn law_keys_keep_storable(s: AppView, k: KeyInput, now: Seq<char>)
    requires
        storable(s),
        bar_free(now),
    ensures
        storable(s.key_step(k, now).0),
{
    lemma_shown_in_range(s);
    lemma_split_stamps(s.tasks, now);
    lemma_stamps_moves(s.trash, done_tasks(s.tasks, now), 0, 0);
    let t = s.key_step(k, now).0;
    if s.show_confirm {
        match s.confirm_action {
            Some(crate::app::ConfirmAction::DeletePermanent(r)) => {
                lemma_stamps_moves(s.trash, s.trash, r as int, 0);
            },
            _ => {},
        }
    }
    if s.selected is Some {
        let i = s.selected.unwrap() as int;
        lemma_stamps_moves(s.tasks, s.tasks, i, i - 1);
        lemma_stamps_moves(s.tasks, s.tasks, i, i + 1);
    }
    match s.selected_task() {
        Some(r) => {
            let tr = s.tasks[r];
            lemma_stamps_moves(s.tasks, s.tasks, r, 0);
            lemma_stamps_with(s.trash, crate::app::touched(tr, now), 0);
            lemma_stamps_with(s.tasks, TaskView { completed: !tr.completed, modified_at: now, ..tr }, r);
            lemma_stamps_with(
                s.tasks,
                TaskView { priority: crate::priority::raised(tr.priority), modified_at: now, ..tr },
                r,
            );
            lemma_stamps_with(s.tasks, TaskView { title: trimmed(s.input), modified_at: now, ..tr }, r);
        },
        None => {},
    }
    match s.selected_trash() {
        Some(r) => {
            lemma_stamps_moves(s.trash, s.trash, r, 0);
            lemma_stamps_with(s.tasks, crate::app::touched(s.trash[r], now), 0);
        },
        None => {},
    }
    lemma_stamps_with(s.tasks, crate::keys::new_task(trimmed(s.input), crate::priority::Priority::Low, now), -1);
    assert(stamps_ok(t.tasks));
    assert(stamps_ok(t.trash));
}


proof fn lemma_bars_complete(s: Seq<char>, j: int)
    requires
        0 <= j < s.len(),
        s[j] == '|',
    ensures
        exists|m: int| 0 <= m < bars(s).len() && bars(s)[m] == j,
    decreases s.len(),
{
    if j < s.len() - 1 {
        lemma_bars_complete(s.drop_last(), j);
        let m = choose|m: int| 0 <= m < bars(s.drop_last()).len() && bars(s.drop_last())[m] == j;
        assert(bars(s)[m] == j);
    } else {
        assert(bars(s)[bars(s).len() - 1] == j);
    }
}

proof fn lemma_between_bars(s: Seq<char>, k: int)
    requires
        0 <= k && k + 1 < bars(s).len(),
    ensures
        bar_free(s.subrange(bars(s)[k] + 1, bars(s)[k + 1])),
{
    lemma_bars_shape(s);
    let b = bars(s);
    let piece = s.subrange(b[k] + 1, b[k + 1]);
    assert forall|i: int| 0 <= i < piece.len() implies piece[i] != '|' by {
        let p = b[k] + 1 + i;
        if s[p] == '|' {
            lemma_bars_complete(s, p);
            let m = choose|m: int| 0 <= m < b.len() && b[m] == p;
            if m <= k {
                assert(b[m] <= b[k]);
            } else {
                assert(b[k + 1] <= b[m]);
            }
        }
    }
}

/// Every task read from stored lines can be stored and read back, given a
/// clock whose timestamps hold no separator.
pub proof fn law_loaded_tasks_storable(lines: Seq<Seq<char>>, now: Seq<char>)
    requires
        bar_free(now),
    ensures
        stamps_ok(parsed_lines(lines, now)),
    decreases lines.len(),
{
    if lines.len() > 0 {
        law_loaded_tasks_storable(lines.drop_last(), now);
        let s = lines.last();
        if bars(s).len() >= 4 {
            lemma_between_bars(s, 1);
            lemma_between_bars(s, 2);
        }
        match parsed_line(s, now) {
            Some(t) => lemma_stamps_with(parsed_lines(lines.drop_last(), now), t, -1),
            None => {},
        }
    }
}

/// A finished download or generation keeps the state storable.
pub proof fn law_ai_outcome_keeps_storable(s: AppView, r: Result<Seq<Seq<char>>, Seq<char>>, now: Seq<char>)
    requires
        storable(s),
        bar_free(now),
    ensures
        storable(s.ai_finished(r, now).0),
{
    match r {
        Ok(titles) => {
            let added = titles.map_values(
                |t: Seq<char>| crate::keys::new_task(t, crate::priority::Priority::Medium, now),
            );
            lemma_stamps_moves(s.tasks, added, 0, 0);
        },
        Err(_) => {},
    }
}

/// The tasks of a storable state are read back unchanged from their stored
/// lines: what a save writes, a load gives back.
pub proof fn law_storable_round_trip(s: AppView, now: Seq<char>)
    requires
        storable(s),
    ensures
        parsed_lines(s.tasks.map_values(|t: TaskView| task_line(t)), now) == s.tasks,
        parsed_lines(s.trash.map_values(|t: TaskView| task_line(t)), now) == s.trash,
{
    law_lines_round_trip(s.tasks, now);
    law_lines_round_trip(s.trash, now);
}


/// The help and the about box are never open together: no key opens one
/// while the other stays open.
pub proof fn law_help_and_about_exclusive(s: AppView, k: KeyInput, now: Seq<char>)
    requires
        !(s.show_help && s.show_about),
    ensures
        !(s.key_step(k, now).0.show_help && s.key_step(k, now).0.show_about),
{
}

/// No outcome of background work opens the help or the about box.
pub proof fn law_ai_outcome_keeps_boxes(s: AppView, r: Result<Seq<Seq<char>>, Seq<char>>, now: Seq<char>)
    ensures
        s.ai_finished(r, now).0.show_help == s.show_help,
        s.ai_finished(r, now).0.show_about == s.show_about,
{
}

/// The stored text of a storable state's lists, split into lines and read
/// back, gives the lists, whenever no title or timestamp holds a line break
/// or carriage return.
pub proof fn law_storable_text_round_trip(s: AppView, now: Seq<char>)
    requires
        storable(s),
        crate::task::one_line_tasks(s.tasks),
        crate::task::one_line_tasks(s.trash),
    ensures
        parsed_lines(crate::task::text_lines(crate::task::tasks_text(s.tasks)), now) == s.tasks,
        parsed_lines(crate::task::text_lines(crate::task::tasks_text(s.trash)), now) == s.trash,
{
    crate::task::law_text_round_trip(s.tasks, now);
    crate::task::law_text_round_trip(s.trash, now);
}


/// While the confirmation dialog is open, only a confirming key touches the
/// lists: it removes the chosen trash entry (if it is still there) or empties
/// the trash, leaves the task list alone and closes the dialog; a declining
/// key closes the dialog and changes nothing else; any other key leaves both
/// lists alone.
pub proof fn law_confirm_dialog(s: AppView, k: KeyInput, now: Seq<char>)
    requires
        s.show_confirm,
    ensures
        ({
            let t = s.key_step(k, now).0;
            if !k.released && is_yes(k.key) {
                &&& t.tasks == s.tasks
                &&& !t.show_confirm && t.confirm_action is None
                &&& match s.confirm_action {
                    Some(ConfirmAction::DeletePermanent(i)) => t.trash == if i < s.trash.len() {
                        s.trash.remove(i as int)
                    } else {
                        s.trash
                    },
                    Some(ConfirmAction::ClearTrash) => t.trash.len() == 0,
                    None => t.trash == s.trash,
                }
            } else if !k.released && is_no(k.key) {
                t == s.confirm_closed()
            } else {
                t.tasks == s.tasks && t.trash == s.trash
            }
        }),
{
}

/// A key lowers the number of entries of the list and the trash together
/// only when it confirms a deletion for good: a confirming key in the open
/// dialog, for emptying the trash or for an entry still in it.
pub proof fn law_only_confirmed_deletions_shrink(s: AppView, k: KeyInput, now: Seq<char>)
    ensures
        total(s.key_step(k, now).0) < total(s) ==> {
            &&& !k.released
            &&& s.show_confirm
            &&& is_yes(k.key)
            &&& match s.confirm_action {
                Some(ConfirmAction::DeletePermanent(i)) => i < s.trash.len(),
                Some(ConfirmAction::ClearTrash) => s.trash.len() > 0,
                None => false,
            }
        },
{
    if !s.show_confirm {
        law_keys_lose_no_task(s, k, now);
    }
}

/// In the trash view, `c` and `d` only ask for confirmation: the lists stay
/// as they are.
pub proof fn law_trash_keys_ask_first(s: AppView, c: char, now: Seq<char>)
    requires
        s.view_mode == ViewMode::Trash,
        s.input_mode == InputMode::Normal,
        !s.show_confirm,
        !(s.show_help || s.show_about || s.ai_error is Some),
        normalized(c) == 'c' || normalized(c) == 'd',
    ensures
        ({
            let t = s.key_step(KeyInput { key: Key::Char(c), alt: false, shift: false, released: false }, now).0;
            t.tasks == s.tasks && t.trash == s.trash
        }),
{
}


/// The key event of pressing `t` (or its Russian-layout twin).
pub open spec fn theme_key() -> KeyInput {
    KeyInput { key: Key::Char('t'), alt: false, shift: false, released: false }
}

/// The state after pressing the theme key `n` times at time `now`.
pub open spec fn theme_pressed(s: AppView, n: nat, now: Seq<char>) -> AppView
    decreases n,
{
    if n == 0 {
        s
    } else {
        theme_pressed(s, (n - 1) as nat, now).key_step(theme_key(), now).0
    }
}

proof fn lemma_theme_pressed(s: AppView, n: nat, now: Seq<char>)
    requires
        s.input_mode == InputMode::Normal,
        !s.show_confirm,
        !(s.show_help || s.show_about || s.ai_error is Some),
        s.wf(),
    ensures
        theme_pressed(s, n, now) == (AppView {
            current_theme_index: ((s.current_theme_index + n) % 8) as usize,
            ..s
        }),
    decreases n,
{
    if n > 0 {
        lemma_theme_pressed(s, (n - 1) as nat, now);
        assert(((s.current_theme_index + (n - 1)) % 8 + 1) % 8 == (s.current_theme_index + n) % 8)
            by (nonlinear_arith);
    } else {
        assert(s.current_theme_index % 8 == s.current_theme_index);
        assert(theme_pressed(s, n, now) =~= s);
    }
}

/// In normal mode with no dialog or box open, the theme key moves to the next
/// of the eight themes and changes nothing else; eight presses give the state
/// back.
pub proof fn law_theme_cycles(s: AppView, now: Seq<char>)
    requires
        s.input_mode == InputMode::Normal,
        !s.show_confirm,
        !(s.show_help || s.show_about || s.ai_error is Some),
        s.wf(),
    ensures
        s.key_step(theme_key(), now) == (
            AppView {
                current_theme_index: ((s.current_theme_index + 1) % 8) as usize,
                ..s
            },
            crate::app::CommandView::Nothing,
        ),
        s.key_step(theme_key(), now).0.wf(),
        theme_pressed(s, 8, now) == s,
{
    lemma_theme_pressed(s, 1, now);
    lemma_theme_pressed(s, 8, now);
    assert((s.current_theme_index + 8) % 8 == s.current_theme_index) by (nonlinear_arith)
        requires
            s.current_theme_index < 8,
    ;
    assert(theme_pressed(s, 8, now) =~= s);
}

} // verus!
