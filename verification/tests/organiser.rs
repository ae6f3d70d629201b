use todoly::app::{App, Command, ConfirmAction, InputMode, UpdateStatus, ViewMode};
use todoly::keys::{Key, KeyInput};
use todoly::priority::Priority;
use todoly::task::Task;

fn task(title: &str, completed: bool) -> Task {
    Task {
        title: title.to_string(),
        completed,
        priority: Priority::Low,
        created_at: "2024-01-01 00:00:00".to_string(),
        modified_at: "2024-01-01 00:00:00".to_string(),
    }
}

fn key(k: Key) -> KeyInput {
    KeyInput { key: k, alt: false, shift: false, released: false }
}

fn ch(c: char) -> KeyInput {
    key(Key::Char(c))
}

fn shifted(k: Key) -> KeyInput {
    KeyInput { key: k, alt: false, shift: true, released: false }
}

fn titles(v: &[Task]) -> Vec<&str> {
    v.iter().map(|t| t.title.as_str()).collect()
}

fn app3() -> App {
    App::new(vec![task("Alpha", false), task("Бета", true), task("Gamma", false)], vec![])
}

#[test]
fn new_app_selects_first_entries() {
    let a = app3();
    assert_eq!(a.selected, Some(0));
    assert_eq!(a.trash_selected, None);
    assert_eq!(a.input_mode, InputMode::Normal);
    assert_eq!(a.view_mode, ViewMode::Active);
    assert!(matches!(a.update_status, UpdateStatus::Checking));
    let e = App::new(vec![], vec![task("x", false)]);
    assert_eq!(e.selected, None);
    assert_eq!(e.trash_selected, Some(0));
}

#[test]
fn search_is_case_insensitive() {
    let mut a = App::new(
        vec![task("Купить МОЛОКО", false), task("Позвонить", false), task("молоко и хлеб", false)],
        vec![],
    );
    a.search_query = "Молоко".to_string();
    assert_eq!(a.filtered_tasks(), vec![0, 2]);
    a.search_query = String::new();
    assert_eq!(a.filtered_tasks(), vec![0, 1, 2]);
    a.search_query = "nothing".to_string();
    assert_eq!(a.filtered_tasks(), Vec::<usize>::new());
}

#[test]
fn next_and_previous_wrap_around() {
    let mut a = app3();
    a.next();
    assert_eq!(a.selected, Some(1));
    a.next();
    a.next();
    assert_eq!(a.selected, Some(0));
    a.previous();
    assert_eq!(a.selected, Some(2));
    a.next();
    assert_eq!(a.selected, Some(0));
    a.selected = None;
    a.previous();
    assert_eq!(a.selected, Some(0));
}

#[test]
fn moving_in_an_empty_list_clears_the_selection() {
    let mut a = App::new(vec![], vec![]);
    a.selected = Some(3);
    a.next();
    assert_eq!(a.selected, None);
    a.selected = Some(3);
    a.previous();
    assert_eq!(a.selected, None);
}

#[test]
fn toggling_twice_restores_completion() {
    let mut a = app3();
    a.selected = Some(1);
    assert!(matches!(a.toggle_or_restore_at("T1"), Command::SaveTasks));
    assert!(!a.tasks[1].completed);
    assert_eq!(a.tasks[1].modified_at, "T1");
    assert!(matches!(a.toggle_or_restore_at("T2"), Command::SaveTasks));
    assert!(a.tasks[1].completed);
    assert_eq!(a.tasks[1].modified_at, "T2");
}

#[test]
fn toggle_uses_the_current_clock() {
    let mut a = app3();
    a.toggle_or_restore();
    assert!(a.tasks[0].completed);
    assert_ne!(a.tasks[0].modified_at, "2024-01-01 00:00:00");
    assert!(!a.tasks[0].modified_at.contains('|'));
    assert_eq!(a.tasks[0].modified_at.len(), 19);
}

#[test]
fn restoring_moves_the_entry_back() {
    let mut a = App::new(vec![task("A", false)], vec![task("T1", true), task("T2", false)]);
    a.view_mode = ViewMode::Trash;
    a.trash_selected = Some(1);
    assert!(matches!(a.toggle_or_restore_at("now"), Command::SaveAll));
    assert_eq!(titles(&a.tasks), vec!["A", "T2"]);
    assert_eq!(titles(&a.trash), vec!["T1"]);
    assert_eq!(a.trash_selected, Some(0));
    assert_eq!(a.selected, Some(1));
    assert_eq!(a.tasks[1].modified_at, "now");
}

#[test]
fn adding_a_task_by_keys() {
    let mut a = app3();
    assert!(matches!(a.handle_key_at(ch('a'), "N"), Command::Nothing));
    assert_eq!(a.input_mode, InputMode::Adding);
    for c in "  Нова ".chars() {
        a.handle_key_at(ch(c), "N");
    }
    a.handle_key_at(key(Key::Backspace), "N");
    a.handle_key_at(ch('я'), "N");
    assert_eq!(a.input, "  Новая");
    assert!(matches!(a.handle_key_at(key(Key::Enter), "N"), Command::SaveTasks));
    assert_eq!(a.tasks.len(), 4);
    assert_eq!(a.tasks[3].title, "Новая");
    assert_eq!(a.tasks[3].priority, Priority::Low);
    assert!(!a.tasks[3].completed);
    assert_eq!(a.tasks[3].created_at, "N");
    assert_eq!(a.selected, Some(3));
    assert_eq!(a.input, "");
    assert_eq!(a.input_mode, InputMode::Normal);
}

#[test]
fn blank_titles_are_not_added() {
    let mut a = app3();
    a.handle_key_at(ch('ф'), "N");
    a.handle_key_at(ch(' '), "N");
    a.handle_key_at(ch('\t'), "N");
    assert!(matches!(a.handle_key_at(key(Key::Enter), "N"), Command::Nothing));
    assert_eq!(a.tasks.len(), 3);
    assert_eq!(a.input_mode, InputMode::Normal);
}

#[test]
fn typing_then_erasing_leaves_input() {
    let mut a = app3();
    a.handle_key_at(ch('a'), "N");
    a.handle_key_at(ch('x'), "N");
    a.handle_key_at(ch('ю'), "N");
    a.handle_key_at(key(Key::Backspace), "N");
    assert_eq!(a.input, "x");
    a.handle_key_at(key(Key::Esc), "N");
    assert_eq!(a.input, "");
    assert_eq!(a.input_mode, InputMode::Normal);
}

#[test]
fn editing_a_title() {
    let mut a = app3();
    a.selected = Some(2);
    a.handle_key_at(ch('e'), "N");
    assert_eq!(a.input_mode, InputMode::EditingTitle);
    assert_eq!(a.input, "Gamma");
    a.handle_key_at(ch('!'), "N");
    assert!(matches!(a.handle_key_at(key(Key::Enter), "E"), Command::SaveTasks));
    assert_eq!(a.tasks[2].title, "Gamma!");
    assert_eq!(a.tasks[2].modified_at, "E");
}

#[test]
fn deleting_moves_to_trash_and_confirming_deletes_for_good() {
    let mut a = app3();
    a.selected = Some(2);
    assert!(matches!(a.handle_key_at(ch('d'), "D"), Command::SaveAll));
    assert_eq!(titles(&a.tasks), vec!["Alpha", "Бета"]);
    assert_eq!(titles(&a.trash), vec!["Gamma"]);
    assert_eq!(a.trash[0].modified_at, "D");
    assert_eq!(a.selected, Some(1));
    a.handle_key_at(ch('r'), "D");
    assert_eq!(a.view_mode, ViewMode::Trash);
    assert_eq!(a.trash_selected, Some(0));
    assert!(matches!(a.handle_key_at(ch('d'), "D"), Command::Nothing));
    assert!(a.show_confirm);
    assert_eq!(a.confirm_action, Some(ConfirmAction::DeletePermanent(0)));
    assert!(matches!(a.handle_key_at(ch('н'), "D"), Command::SaveTrash));
    assert!(a.trash.is_empty());
    assert_eq!(a.trash_selected, None);
    assert!(!a.show_confirm);
    assert_eq!(a.confirm_action, None);
}

#[test]
fn declining_keeps_the_trash() {
    let mut a = App::new(vec![], vec![task("t", false)]);
    a.view_mode = ViewMode::Trash;
    a.handle_key_at(ch('c'), "N");
    assert_eq!(a.confirm_action, Some(ConfirmAction::ClearTrash));
    a.handle_key_at(key(Key::Esc), "N");
    assert!(!a.show_confirm);
    assert_eq!(a.trash.len(), 1);
    a.handle_key_at(ch('c'), "N");
    assert!(matches!(a.handle_key_at(ch('y'), "N"), Command::SaveTrash));
    assert!(a.trash.is_empty());
}

#[test]
fn clearing_completed_tasks() {
    let mut a = App::new(
        vec![task("a", true), task("b", false), task("c", true), task("d", false)],
        vec![task("old", true)],
    );
    assert!(matches!(a.handle_key_at(ch('с'), "C"), Command::SaveAll));
    assert_eq!(titles(&a.tasks), vec!["b", "d"]);
    assert_eq!(titles(&a.trash), vec!["old", "a", "c"]);
    assert_eq!(a.trash[1].modified_at, "C");
    assert_eq!(a.trash[0].modified_at, "2024-01-01 00:00:00");
    assert_eq!(a.selected, Some(0));
}

#[test]
fn moving_tasks_with_shift() {
    let mut a = app3();
    a.selected = Some(1);
    assert!(matches!(a.handle_key_at(shifted(Key::Up), "N"), Command::SaveTasks));
    assert_eq!(titles(&a.tasks), vec!["Бета", "Alpha", "Gamma"]);
    assert_eq!(a.selected, Some(0));
    assert!(matches!(a.handle_key_at(shifted(Key::Up), "N"), Command::Nothing));
    assert!(matches!(a.handle_key_at(shifted(Key::Char('J')), "N"), Command::SaveTasks));
    assert_eq!(titles(&a.tasks), vec!["Alpha", "Бета", "Gamma"]);
    a.selected = Some(2);
    assert!(matches!(a.handle_key_at(shifted(Key::Down), "N"), Command::Nothing));
}

#[test]
fn moving_is_off_while_searching() {
    let mut a = app3();
    a.search_query = "a".to_string();
    a.selected = Some(1);
    assert!(matches!(a.handle_key_at(shifted(Key::Up), "N"), Command::Nothing));
    assert_eq!(titles(&a.tasks), vec!["Alpha", "Бета", "Gamma"]);
}

#[test]
fn moving_down_an_empty_list_is_reported() {
    let mut a = App::new(vec![], vec![]);
    a.selected = Some(0);
    assert!(a.key_would_fail(shifted(Key::Down)));
    assert!(!a.key_would_fail(shifted(Key::Up)));
    assert!(!a.key_would_fail(key(Key::Down)));
}

#[test]
fn theme_cycles_through_eight() {
    let mut a = app3();
    for i in 1..=8 {
        a.handle_key_at(ch('t'), "N");
        assert_eq!(a.current_theme_index, i % 8);
    }
    assert_eq!(a.theme().name, "Classic Blue");
    a.current_theme_index = 7;
    assert_eq!(a.theme().name, "Monochrome");
}

#[test]
fn raising_priority_by_key() {
    let mut a = app3();
    assert!(matches!(a.handle_key_at(ch('p'), "P"), Command::SaveTasks));
    assert_eq!(a.tasks[0].priority, Priority::Medium);
    a.handle_key_at(ch('з'), "P");
    a.handle_key_at(ch('p'), "P");
    a.handle_key_at(ch('p'), "P");
    assert_eq!(a.tasks[0].priority, Priority::Low);
}

#[test]
fn searching_by_keys() {
    let mut a = app3();
    a.handle_key_at(ch('/'), "N");
    assert_eq!(a.input_mode, InputMode::Searching);
    a.handle_key_at(ch('M'), "N");
    a.handle_key_at(ch('m'), "N");
    assert_eq!(a.search_query, "Mm");
    assert_eq!(a.selected, Some(0));
    assert_eq!(a.filtered_tasks(), vec![2]);
    a.handle_key_at(key(Key::Backspace), "N");
    assert_eq!(a.search_query, "M");
    a.handle_key_at(key(Key::Enter), "N");
    assert_eq!(a.search_query, "M");
    assert_eq!(a.input_mode, InputMode::Normal);
    a.handle_key_at(ch('.'), "N");
    assert_eq!(a.input, "M");
    a.handle_key_at(key(Key::Esc), "N");
    assert_eq!(a.search_query, "");
}

#[test]
fn help_about_and_quit() {
    let mut a = app3();
    a.handle_key_at(key(Key::F(1)), "N");
    assert!(a.show_help);
    a.handle_key_at(key(Key::F(2)), "N");
    assert!(a.show_about && !a.show_help);
    assert!(matches!(a.handle_key_at(ch('j'), "N"), Command::Nothing));
    assert_eq!(a.selected, Some(0));
    a.handle_key_at(key(Key::Esc), "N");
    assert!(!a.show_about);
    assert!(matches!(a.handle_key_at(ch('Й'), "N"), Command::Quit));
}

#[test]
fn released_keys_do_nothing() {
    let mut a = app3();
    let k = KeyInput { key: Key::Char('q'), alt: false, shift: false, released: true };
    assert!(matches!(a.handle_key(k), Command::Nothing));
}

#[test]
fn ai_request_flow() {
    let mut a = app3();
    assert!(matches!(a.handle_key_at(ch('ш'), "N"), Command::CheckAiFiles));
    assert!(matches!(a.ai_files_checked(true), Command::Nothing));
    assert_eq!(a.input_mode, InputMode::AiPrompt);
    for c in " уборка ".chars() {
        a.handle_key_at(ch(c), "N");
    }
    match a.handle_key_at(key(Key::Enter), "N") {
        Command::StartGeneration(p) => assert_eq!(p, "уборка"),
        _ => panic!("expected a generation"),
    }
    assert!(a.ai_generating);
    let steps = todoly::ai::generate_subtasks("уборка").unwrap();
    assert!(matches!(a.ai_finished_at(Ok(steps), "G"), Command::SaveTasks));
    assert!(!a.ai_generating);
    assert_eq!(a.tasks.len(), 8);
    assert_eq!(a.tasks[3].priority, Priority::Medium);
    assert_eq!(a.tasks[7].created_at, "G");
    assert_eq!(a.selected, Some(7));
}

#[test]
fn ai_download_and_errors() {
    let mut a = app3();
    assert!(matches!(a.ai_files_checked(false), Command::StartDownload));
    assert!(a.ai_downloading);
    a.ai_finished(Err("no net".to_string()));
    assert!(!a.ai_downloading);
    assert_eq!(a.ai_error, Some("no net".to_string()));
    a.handle_key_at(key(Key::Esc), "N");
    assert_eq!(a.ai_error, None);
    assert!(matches!(a.ai_finished_at(Ok(vec![]), "N"), Command::Nothing));
    assert_eq!(a.tasks.len(), 3);
}

#[test]
fn only_the_first_release_report_counts() {
    let mut a = app3();
    a.update_received(UpdateStatus::Latest);
    a.update_received(UpdateStatus::Error);
    assert!(matches!(a.update_status, UpdateStatus::Latest));
}

#[test]
fn empty_search_shows_everything() {
    let a = App::new(vec![task("X", false), task("y", true)], vec![task("z", false)]);
    assert_eq!(a.filtered_tasks(), vec![0, 1]);
    assert_eq!(a.filtered_trash(), vec![0]);
}

#[test]
fn help_and_about_never_both_open() {
    let mut a = app3();
    for k in [Key::F(1), Key::F(2), Key::F(2), Key::F(1), Key::F(1), Key::Esc, Key::F(2)] {
        a.handle_key_at(key(k), "N");
        assert!(!(a.show_help && a.show_about));
    }
}

#[test]
fn clock_stamps_have_the_timestamp_form() {
    let mut a = app3();
    a.handle_key(ch('a'));
    a.handle_key(ch('z'));
    a.handle_key(key(Key::Enter));
    let t: Vec<char> = a.tasks[3].created_at.chars().collect();
    assert_eq!(t.len(), 19);
    for (i, c) in t.iter().enumerate() {
        match i {
            4 | 7 => assert_eq!(*c, '-'),
            10 => assert_eq!(*c, ' '),
            13 | 16 => assert_eq!(*c, ':'),
            _ => assert!(c.is_ascii_digit()),
        }
    }
    assert_eq!(a.tasks[3].created_at, a.tasks[3].modified_at);
}

#[test]
fn other_keys_leave_the_dialog_lists_alone() {
    let mut a = App::new(vec![task("a", false)], vec![task("t", false)]);
    a.view_mode = ViewMode::Trash;
    a.handle_key_at(ch('d'), "N");
    assert!(a.show_confirm);
    a.handle_key_at(ch('x'), "N");
    assert!(a.show_confirm);
    assert_eq!(a.trash.len(), 1);
    assert_eq!(a.tasks.len(), 1);
}
