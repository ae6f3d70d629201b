//! The texts the screen shows: list lines, list titles, the footer, the
//! task details, the confirmation question and the release notice.

use vstd::prelude::*;
use vstd::string::StringExecFns;

use crate::app::{App, ConfirmAction, InputMode, UpdateStatus, UpdateStatusView, ViewMode};
use crate::priority::{emoji_of, label_of, priority_emoji, priority_label};
use crate::task::{Task, TaskView};

verus! {

/// The marker before a task: a grey dot once completed, else its priority's.
pub open spec fn marker(t: TaskView) -> Seq<char> {
    if t.completed {
        "● "@
    } else {
        emoji_of(t.priority)
    }
}

/// The check box of a task.
pub open spec fn check_box(t: TaskView) -> Seq<char> {
    if t.completed {
        "[x] "@
    } else {
        "[ ] "@
    }
}

/// The line of a task in the task list.
pub open spec fn task_item(t: TaskView) -> Seq<char> {
    marker(t) + " "@ + check_box(t) + " "@ + t.title
}

/// The line of an entry in the trash.
pub open spec fn trash_item(t: TaskView) -> Seq<char> {
    marker(t) + " [УДАЛЕНА] "@ + t.title
}

fn marker_of(task: &Task) -> (s: &'static str)
    ensures
        s@ == marker(task@),
{
    if task.completed {
        "● "
    } else {
        priority_emoji(task.priority)
    }
}

/// The line of a task in the task list.
pub fn task_item_text(task: &Task) -> (r: String)
    ensures
        r@ == task_item(task@),
{
    let mut r = String::from_str(marker_of(task));
    r.append(" ");
    r.append(if task.completed {
        "[x] "
    } else {
        "[ ] "
    });
    r.append(" ");
    r.append(task.title.as_str());
    r
}

/// The line of an entry in the trash.
pub fn trash_item_text(task: &Task) -> (r: String)
    ensures
        r@ == trash_item(task@),
{
    let mut r = String::from_str(marker_of(task));
    r.append(" [УДАЛЕНА] ");
    r.append(task.title.as_str());
    r
}

/// The title above the shown list.
pub open spec fn list_caption(view: ViewMode, query: Seq<char>) -> Seq<char> {
    match view {
        ViewMode::Active => if query.len() == 0 {
            " Активные задачи "@
        } else {
            " Результаты поиска ('"@ + query + "') "@
        },
        ViewMode::Trash => if query.len() == 0 {
            " Корзина (Удаленные задачи) "@
        } else {
            " Поиск в корзине ('"@ + query + "') "@
        },
    }
}

/// The line below the lists: the keys of normal mode, a notice while
/// sub-tasks are generated, or the text being typed with its prompt.
pub open spec fn footer(mode: InputMode, generating: bool, input: Seq<char>) -> Seq<char> {
    match mode {
        InputMode::Normal => if generating {
            " [ИИ-АССИСТЕНТ] Локальный ИИ генерирует подзадачи... Пожалуйста, подождите. "@
        } else {
            " F1 - Справка | F2 - О программе | i/ш - ИИ-помощник | q/й - Выход "@
        },
        InputMode::Adding => " [ДОБАВЛЕНИЕ] Имя новой задачи: "@ + input
            + " (Enter — сохранить, Esc — отмена)"@,
        InputMode::EditingTitle => " [РЕДАКТИРОВАНИЕ] Изменить имя: "@ + input
            + " (Enter — сохранить, Esc — отмена)"@,
        InputMode::Searching => " [ПОИСК] Запрос: "@ + input
            + " (Enter — зафиксировать поиск, Esc — сбросить поиск)"@,
        InputMode::AiPrompt => " [ИИ-АССИСТЕНТ] Запрос на генерацию подзадач: "@ + input
            + " (Enter — сгенерировать, Esc — отмена)"@,
    }
}

/// The state of a task in its details.
pub open spec fn status_label(completed: bool) -> Seq<char> {
    if completed {
        "Выполнена [x]"@
    } else {
        "Активна [ ]"@
    }
}

/// The priority of a task in its details.
pub open spec fn priority_detail(t: TaskView) -> Seq<char> {
    if t.completed {
        " ● "@ + label_of(t.priority)
    } else {
        " "@ + emoji_of(t.priority) + " "@ + label_of(t.priority)
    }
}

/// The question of the confirmation dialog.
pub open spec fn confirm_question(a: Option<ConfirmAction>) -> Seq<char> {
    match a {
        Some(ConfirmAction::DeletePermanent(_)) => "Удалить эту задачу из корзины НАВСЕГДА?"@,
        Some(ConfirmAction::ClearTrash) => "Очистить ВСЮ корзину навсегда?"@,
        None => ""@,
    }
}

/// The line of the about box on newer releases.
pub open spec fn update_notice(s: UpdateStatusView) -> Seq<char> {
    match s {
        UpdateStatusView::Checking => "Проверка обновлений..."@,
        UpdateStatusView::Latest => "Установлена последняя версия"@,
        UpdateStatusView::NewVersion(tag) => "Доступна новая версия "@ + tag + "!"@,
        UpdateStatusView::Error => "Не удалось проверить обновления"@,
    }
}

/// Number of completed tasks in `ts`.
pub open spec fn completed_in(ts: Seq<TaskView>) -> nat
    decreases ts.len(),
{
    if ts.len() == 0 {
        0
    } else {
        completed_in(ts.drop_last()) + if ts.last().completed {
            1nat
        } else {
            0nat
        }
    }
}

/// The state of a task in its details.
pub fn status_text(completed: bool) -> (s: &'static str)
    ensures
        s@ == status_label(completed),
{
    if completed {
        "Выполнена [x]"
    } else {
        "Активна [ ]"
    }
}

/// The priority of a task in its details.
pub fn priority_detail_text(task: &Task) -> (r: String)
    ensures
        r@ == priority_detail(task@),
{
    if task.completed {
        let mut r = String::from_str(" ● ");
        r.append(priority_label(task.priority));
        r
    } else {
        let mut r = String::from_str(" ");
        r.append(priority_emoji(task.priority));
        r.append(" ");
        r.append(priority_label(task.priority));
        r
    }
}

/// The question of the confirmation dialog.
pub fn confirm_text(a: Option<ConfirmAction>) -> (s: &'static str)
    ensures
        s@ == confirm_question(a),
{
    match a {
        Some(ConfirmAction::DeletePermanent(_)) => "Удалить эту задачу из корзины НАВСЕГДА?",
        Some(ConfirmAction::ClearTrash) => "Очистить ВСЮ корзину навсегда?",
        None => "",
    }
}

/// The line of the about box on newer releases.
pub fn update_text(s: &UpdateStatus) -> (r: String)
    ensures
        r@ == update_notice(s@),
{
    match s {
        UpdateStatus::Checking => String::from_str("Проверка обновлений..."),
        UpdateStatus::Latest => String::from_str("Установлена последняя версия"),
        UpdateStatus::NewVersion(tag) => {
            let mut r = String::from_str("Доступна новая версия ");
            r.append(tag.as_str());
            r.append("!");
            r
        },
        UpdateStatus::Error => String::from_str("Не удалось проверить обновления"),
    }
}

/// Number of completed tasks.
pub fn completed_count(tasks: &Vec<Task>) -> (n: usize)
    ensures
        n == completed_in(crate::task::task_views(tasks@)),
{
    let mut n: usize = 0;
    let mut i: usize = 0;
    while i < tasks.len()
        invariant
            i <= tasks.len(),
            n <= i,
            n == completed_in(crate::task::task_views(tasks@.take(i as int))),
        decreases tasks.len() - i,
    {
        let ghost pre = crate::task::task_views(tasks@.take(i + 1));
        assert(pre.drop_last() =~= crate::task::task_views(tasks@.take(i as int)));
        assert(pre.last() == tasks@[i as int]@);
        if tasks[i].completed {
            n += 1;
        }
        i += 1;
    }
    assert(tasks@.take(tasks.len() as int) =~= tasks@);
    n
}

impl App {
    /// The title above the shown list.
    pub fn list_title(&self) -> (r: String)
        ensures
            r@ == list_caption(self.view_mode, self.search_query@),
    {
        let empty = self.search_query.as_str().is_empty();
        match self.view_mode {
            ViewMode::Active => if empty {
                String::from_str(" Активные задачи ")
            } else {
                let mut r = String::from_str(" Результаты поиска ('");
                r.append(self.search_query.as_str());
                r.append("') ");
                r
            },
            ViewMode::Trash => if empty {
                String::from_str(" Корзина (Удаленные задачи) ")
            } else {
                let mut r = String::from_str(" Поиск в корзине ('");
                r.append(self.search_query.as_str());
                r.append("') ");
                r
            },
        }
    }

    /// The line below the lists.
    pub fn footer_text(&self) -> (r: String)
        ensures
            r@ == footer(self.input_mode, self.ai_generating, self.input@),
    {
        let (head, tail) = match self.input_mode {
            InputMode::Normal => {
                return if self.ai_generating {
                    String::from_str(
                        " [ИИ-АССИСТЕНТ] Локальный ИИ генерирует подзадачи... Пожалуйста, подождите. ",
                    )
                } else {
                    String::from_str(
                        " F1 - Справка | F2 - О программе | i/ш - ИИ-помощник | q/й - Выход ",
                    )
                };
            },
            InputMode::Adding => (
                " [ДОБАВЛЕНИЕ] Имя новой задачи: ",
                " (Enter — сохранить, Esc — отмена)",
            ),
            InputMode::EditingTitle => (
                " [РЕДАКТИРОВАНИЕ] Изменить имя: ",
                " (Enter — сохранить, Esc — отмена)",
            ),
            InputMode::Searching => (
                " [ПОИСК] Запрос: ",
                " (Enter — зафиксировать поиск, Esc — сбросить поиск)",
            ),
            InputMode::AiPrompt => (
                " [ИИ-АССИСТЕНТ] Запрос на генерацию подзадач: ",
                " (Enter — сгенерировать, Esc — отмена)",
            ),
        };
        let mut r = String::from_str(head);
        r.append(self.input.as_str());
        r.append(tail);
        r
    }
}

} // verus!
