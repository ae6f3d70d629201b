use todoly::app::{App, ConfirmAction, InputMode, UpdateStatus, ViewMode};
use todoly::display::{
    completed_count, confirm_text, priority_detail_text, status_text, task_item_text,
    trash_item_text, update_text,
};
use todoly::layout::{centered_rect, Area};
use todoly::priority::Priority;
use todoly::task::Task;
use todoly::text::{contains_chars, trim};
use todoly::theme::{theme_at, ThemeColor};

fn task(title: &str, completed: bool, priority: Priority) -> Task {
    Task {
        title: title.to_string(),
        completed,
        priority,
        created_at: String::new(),
        modified_at: String::new(),
    }
}

#[test]
fn list_lines() {
    assert_eq!(task_item_text(&task("Купить", false, Priority::High)), "🟠 [ ]  Купить");
    assert_eq!(task_item_text(&task("Done", true, Priority::High)), "●  [x]  Done");
    assert_eq!(trash_item_text(&task("Old", false, Priority::Low)), "🟢 [УДАЛЕНА] Old");
}

#[test]
fn details_texts() {
    assert_eq!(status_text(true), "Выполнена [x]");
    assert_eq!(status_text(false), "Активна [ ]");
    assert_eq!(priority_detail_text(&task("x", false, Priority::Critical)), " 🔴 Критический");
    assert_eq!(priority_detail_text(&task("x", true, Priority::Critical)), " ● Критический");
}

#[test]
fn titles_and_footer() {
    let mut a = App::new(vec![], vec![]);
    assert_eq!(a.list_title(), " Активные задачи ");
    a.search_query = "abc".to_string();
    assert_eq!(a.list_title(), " Результаты поиска ('abc') ");
    a.view_mode = ViewMode::Trash;
    assert_eq!(a.list_title(), " Поиск в корзине ('abc') ");
    a.search_query.clear();
    assert_eq!(a.list_title(), " Корзина (Удаленные задачи) ");
    assert_eq!(a.footer_text(), " F1 - Справка | F2 - О программе | i/ш - ИИ-помощник | q/й - Выход ");
    a.input_mode = InputMode::Adding;
    a.input = "Чай".to_string();
    assert_eq!(a.footer_text(), " [ДОБАВЛЕНИЕ] Имя новой задачи: Чай (Enter — сохранить, Esc — отмена)");
}

#[test]
fn confirm_and_update_texts() {
    assert_eq!(confirm_text(Some(ConfirmAction::ClearTrash)), "Очистить ВСЮ корзину навсегда?");
    assert_eq!(confirm_text(Some(ConfirmAction::DeletePermanent(3))), "Удалить эту задачу из корзины НАВСЕГДА?");
    assert_eq!(confirm_text(None), "");
    assert_eq!(update_text(&UpdateStatus::NewVersion("v2".to_string())), "Доступна новая версия v2!");
    assert_eq!(update_text(&UpdateStatus::Latest), "Установлена последняя версия");
}

#[test]
fn counting_completed() {
    let v = vec![task("a", true, Priority::Low), task("b", false, Priority::Low), task("c", true, Priority::Low)];
    assert_eq!(completed_count(&v), 2);
    assert_eq!(completed_count(&Vec::new()), 0);
}

#[test]
fn themes() {
    let t = theme_at(5);
    assert_eq!(t.name, "Dracula Purple");
    assert_eq!(t.accent, ThemeColor::Rgb(255, 121, 198));
    assert_eq!(theme_at(0).selected_fg, ThemeColor::White);
}

#[test]
fn centred_box() {
    let r = centered_rect(50, 40, Area { x: 0, y: 0, width: 100, height: 50 });
    assert_eq!(r, Area { x: 25, y: 15, width: 50, height: 20 });
    let full = centered_rect(100, 100, Area { x: 3, y: 4, width: 10, height: 6 });
    assert_eq!(full, Area { x: 3, y: 4, width: 10, height: 6 });
}

#[test]
fn trimming_and_searching_text() {
    assert_eq!(trim("\t  a b \u{3000}\n"), "a b");
    assert_eq!(trim("   "), "");
    let s: Vec<char> = "hello".chars().collect();
    let p: Vec<char> = "ll".chars().collect();
    let q: Vec<char> = "lo!".chars().collect();
    assert!(contains_chars(&s, &p));
    assert!(!contains_chars(&s, &q));
    assert!(contains_chars(&s, &[]));
}

#[test]
fn centred_box_lies_within_the_screen() {
    for (w, h) in [(1u16, 1u16), (7, 3), (80, 24), (200, 60)] {
        let r = Area { x: 5, y: 2, width: w, height: h };
        for (px, py) in [(50u16, 25u16), (70, 75), (60, 30), (65, 25)] {
            let c = centered_rect(px, py, r);
            assert!(c.x >= r.x && c.y >= r.y);
            assert!(c.x as u32 + c.width as u32 <= r.x as u32 + r.width as u32);
            assert!(c.y as u32 + c.height as u32 <= r.y as u32 + r.height as u32);
        }
    }
}
