use todoly::priority::{
    priority_emoji, priority_from_str, priority_label, priority_to_str, raise_priority, Priority,
};
use todoly::task::{
    parse_task_line, parse_task_lines, parse_task_text_now, split_lines, task_to_line, tasks_to_text,
    Task,
};

fn task(title: &str, completed: bool, priority: Priority, created: &str, modified: &str) -> Task {
    Task {
        title: title.to_string(),
        completed,
        priority,
        created_at: created.to_string(),
        modified_at: modified.to_string(),
    }
}

fn same(a: &Task, b: &Task) -> bool {
    a.title == b.title
        && a.completed == b.completed
        && a.priority == b.priority
        && a.created_at == b.created_at
        && a.modified_at == b.modified_at
}

#[test]
fn priority_names_markers_and_labels() {
    assert_eq!(priority_to_str(Priority::Low), "Low");
    assert_eq!(priority_to_str(Priority::Medium), "Medium");
    assert_eq!(priority_to_str(Priority::High), "High");
    assert_eq!(priority_to_str(Priority::Critical), "Critical");
    assert_eq!(priority_emoji(Priority::Low), "🟢");
    assert_eq!(priority_emoji(Priority::Medium), "🟡");
    assert_eq!(priority_emoji(Priority::High), "🟠");
    assert_eq!(priority_emoji(Priority::Critical), "🔴");
    assert_eq!(priority_label(Priority::Low), "Низкий");
    assert_eq!(priority_label(Priority::Medium), "Средний");
    assert_eq!(priority_label(Priority::High), "Высокий");
    assert_eq!(priority_label(Priority::Critical), "Критический");
}

#[test]
fn priority_names_read_back() {
    for p in [Priority::Low, Priority::Medium, Priority::High, Priority::Critical] {
        assert_eq!(priority_from_str(priority_to_str(p)), p);
    }
    assert_eq!(priority_from_str("critical"), Priority::Low);
    assert_eq!(priority_from_str(""), Priority::Low);
    assert_eq!(priority_from_str("Urgent"), Priority::Low);
}

#[test]
fn raising_cycles_through_four_priorities() {
    assert_eq!(raise_priority(Priority::Low), Priority::Medium);
    assert_eq!(raise_priority(Priority::Medium), Priority::High);
    assert_eq!(raise_priority(Priority::High), Priority::Critical);
    assert_eq!(raise_priority(Priority::Critical), Priority::Low);
    let mut p = Priority::High;
    for _ in 0..4 {
        p = raise_priority(p);
    }
    assert_eq!(p, Priority::High);
}

#[test]
fn task_line_format() {
    let t = task("Купить хлеб", true, Priority::High, "2024-01-02 03:04:05", "2024-02-03 04:05:06");
    assert_eq!(task_to_line(&t), "true|High|2024-01-02 03:04:05|2024-02-03 04:05:06|Купить хлеб\n");
    let u = task("x", false, Priority::Low, "a", "b");
    assert_eq!(task_to_line(&u), "false|Low|a|b|x\n");
}

#[test]
fn new_format_line_is_read() {
    let t = parse_task_line("false|Critical|c|m|Сдать отчёт", "now").unwrap();
    assert_eq!(t.title, "Сдать отчёт");
    assert!(!t.completed);
    assert_eq!(t.priority, Priority::Critical);
    assert_eq!(t.created_at, "c");
    assert_eq!(t.modified_at, "m");
}

#[test]
fn title_may_hold_separators() {
    let t = parse_task_line("true|Medium|c|m|a|b||c", "now").unwrap();
    assert_eq!(t.title, "a|b||c");
    assert!(t.completed);
    assert_eq!(t.priority, Priority::Medium);
}

#[test]
fn old_format_line_gets_low_priority_and_now() {
    let t = parse_task_line("true|Старая задача", "2024-05-05 10:00:00").unwrap();
    assert_eq!(t.title, "Старая задача");
    assert!(t.completed);
    assert_eq!(t.priority, Priority::Low);
    assert_eq!(t.created_at, "2024-05-05 10:00:00");
    assert_eq!(t.modified_at, "2024-05-05 10:00:00");
    let f = parse_task_line("yes|x", "n").unwrap();
    assert!(!f.completed);
}

#[test]
fn lines_in_neither_format_are_skipped() {
    assert!(parse_task_line("", "n").is_none());
    assert!(parse_task_line("just a title", "n").is_none());
    assert!(parse_task_line("a|b|c", "n").is_none());
    assert!(parse_task_line("a|b|c|d", "n").is_none());
    let t = parse_task_line("a|b|c|d|", "n").unwrap();
    assert_eq!(t.title, "");
    assert_eq!(t.priority, Priority::Low);
}

#[test]
fn unknown_priority_name_reads_as_low() {
    let t = parse_task_line("false|Urgent|c|m|t", "n").unwrap();
    assert_eq!(t.priority, Priority::Low);
}

#[test]
fn stored_tasks_read_back() {
    let tasks = vec![
        task("Первая", false, Priority::Low, "2024-01-01 00:00:00", "2024-01-01 00:00:00"),
        task("with | bar", true, Priority::Critical, "2024-01-02 00:00:00", "2024-01-03 00:00:00"),
        task("", false, Priority::High, "x", "y"),
    ];
    let text = tasks_to_text(&tasks);
    let lines: Vec<String> = text.lines().map(|l| l.to_string()).collect();
    let back = parse_task_lines(&lines, "unused");
    assert_eq!(back.len(), tasks.len());
    for (a, b) in tasks.iter().zip(back.iter()) {
        assert!(same(a, b));
    }
}

#[test]
fn parsing_a_list_skips_bad_lines() {
    let lines = vec![
        "false|Low|c|m|one".to_string(),
        "garbage".to_string(),
        "true|two".to_string(),
    ];
    let back = parse_task_lines(&lines, "N");
    assert_eq!(back.len(), 2);
    assert_eq!(back[0].title, "one");
    assert_eq!(back[1].title, "two");
    assert_eq!(back[1].created_at, "N");
}

#[test]
fn empty_list_is_empty_text() {
    assert_eq!(tasks_to_text(&Vec::new()), "");
}

#[test]
fn text_is_split_into_lines_like_bufread() {
    assert_eq!(split_lines("a\nb\r\nc"), vec!["a", "b", "c"]);
    assert_eq!(split_lines("a\n\nb\n"), vec!["a", "", "b"]);
    assert_eq!(split_lines(""), Vec::<String>::new());
    assert_eq!(split_lines("x\r"), vec!["x\r"]);
    assert_eq!(split_lines("\r\n"), vec![""]);
}

#[test]
fn stored_text_reads_back() {
    let tasks = vec![
        task("один | два", true, Priority::High, "2024-01-01 00:00:00", "2024-01-02 00:00:00"),
        task("три", false, Priority::Medium, "c", "m"),
    ];
    let back = parse_task_text_now(&tasks_to_text(&tasks));
    assert_eq!(back.len(), 2);
    assert!(same(&back[0], &tasks[0]));
    assert!(same(&back[1], &tasks[1]));
    let old = parse_task_text_now("true|старая\r\n");
    assert_eq!(old[0].title, "старая");
    assert_eq!(old[0].created_at.len(), 19);
}
