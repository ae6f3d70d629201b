use std::sync::atomic::{AtomicU32, Ordering};
use std::sync::Arc;

use todoly::ai::{ai_home_base, download_ai_files, generate_subtasks, get_model_paths, subtasks_for_lowered};
use todoly::update::{parse_tag_name, release_status};
use todoly::app::UpdateStatus;

#[test]
fn model_paths_are_project_files() {
    let (a, b) = get_model_paths();
    assert_eq!(a, "Cargo.toml");
    assert_eq!(b, "src/main.rs");
}

#[test]
fn download_succeeds_with_nothing() {
    let p = Arc::new(AtomicU32::new(7));
    let r = download_ai_files(p.clone());
    assert_eq!(r, Ok(Vec::new()));
    assert_eq!(p.load(Ordering::Relaxed), 7);
}

#[test]
fn home_base_prefers_userprofile_then_home() {
    assert_eq!(ai_home_base(Some("C:\\U".to_string()), Some("/h".to_string())), "C:\\U");
    assert_eq!(ai_home_base(None, Some("/h".to_string())), "/h");
    assert_eq!(ai_home_base(None, None), ".");
}

#[test]
fn rust_interview_prompt() {
    let r = generate_subtasks("Подготовиться к Rust-собеседованию").unwrap();
    assert_eq!(r.len(), 5);
    assert_eq!(r[0], "Повторить концепции владения (Ownership) и заимствования (Borrowing)");
    assert_eq!(r[4], "Подготовить рассказ о своем коммерческом опыте и проектах");
}

#[test]
fn rust_prompt_is_lower_cased_first() {
    let r = generate_subtasks("Написать утилиту на RUST").unwrap();
    assert_eq!(r[1], "Создать каркас проекта на Rust с помощью cargo init");
}

#[test]
fn trip_prompt() {
    let r = generate_subtasks("Спланировать поездку на выходные").unwrap();
    assert_eq!(r[0], "Определить бюджет, направление и забронировать жилье");
}

#[test]
fn cleaning_shopping_study_sport_web_health() {
    assert_eq!(generate_subtasks("Генеральная УБОРКА").unwrap()[2], "Пропылесосить ковры и тщательно вымыть полы");
    assert_eq!(generate_subtasks("сходить в магазин").unwrap()[0], "Составить подробный список необходимых покупок");
    assert_eq!(generate_subtasks("сдать экзамен").unwrap()[0], "Выбрать качественный учебный материал, курс или книгу");
    assert_eq!(generate_subtasks("утренний бег").unwrap()[1], "Подготовить спортивную форму, обувь и инвентарь");
    assert_eq!(generate_subtasks("новый сайт").unwrap()[0], "Разработать прототип интерфейса и макеты страниц");
    assert_eq!(generate_subtasks("лечение").unwrap()[4], "Начать курс лечения строго по инструкции специалиста");
}

#[test]
fn earlier_categories_win() {
    // "купить билеты на поездку": the trip category is tested before shopping.
    assert_eq!(generate_subtasks("купить билеты на поездку").unwrap()[0], "Определить бюджет, направление и забронировать жилье");
}

#[test]
fn other_prompts_get_the_general_plan() {
    let r = generate_subtasks("Починить велосипед").unwrap();
    assert_eq!(r.len(), 5);
    assert_eq!(r[0], "Сформулировать конечную цель для задачи «Починить велосипед» и составить план");
    assert_eq!(r[4], "Внести финальные правки и завершить работу");
}

#[test]
fn keywords_are_matched_on_the_given_lowered_form() {
    let r = subtasks_for_lowered("X", "rust");
    assert_eq!(r[0], "Изучить требования к программе и спроектировать архитектуру решения");
    let g = subtasks_for_lowered("RUST", "nothing");
    assert_eq!(g[0], "Сформулировать конечную цель для задачи «RUST» и составить план");
}

#[test]
fn tag_is_read_from_reply() {
    let body = r#"{"url":"x","tag_name":"v1.4.0","name":"Release"}"#;
    assert_eq!(parse_tag_name(body), Ok("v1.4.0".to_string()));
    let spaced = "{\"tag_name\" : \"0.2\"}";
    assert_eq!(parse_tag_name(spaced), Ok("0.2".to_string()));
}

#[test]
fn reply_without_tag_is_an_error() {
    let msg = "Could not parse tag_name from GitHub API response".to_string();
    assert_eq!(parse_tag_name("{}"), Err(msg.clone()));
    assert_eq!(parse_tag_name("{\"tag_name\": 5}"), Err(msg.clone()));
    assert_eq!(parse_tag_name("{\"tag_name\": \"open"), Err(msg));
}

#[test]
fn release_status_compares_without_leading_v() {
    assert!(matches!(release_status(Ok("v0.1.0".to_string()), "0.1.0"), UpdateStatus::Latest));
    assert!(matches!(release_status(Ok("vv0.1.0".to_string()), "v0.1.0"), UpdateStatus::Latest));
    match release_status(Ok("v0.2.0".to_string()), "0.1.0") {
        UpdateStatus::NewVersion(t) => assert_eq!(t, "v0.2.0"),
        _ => panic!("expected a new version"),
    }
    assert!(matches!(release_status(Err("offline".to_string()), "0.1.0"), UpdateStatus::Error));
}
