//! The sub-task generator: it splits a goal into five steps, chosen by
//! keywords of the goal (in Russian, except `rust`), and the files it is
//! said to need.

use std::sync::atomic::AtomicU32;
use std::sync::Arc;

use vstd::prelude::*;
use vstd::string::StringExecFns;

use crate::text::{chars_of, contains_chars, has_infix, lowercase, to_lowercase};

verus! {

/// The folder for the generator's files: under the first of the two home
/// directories given (`USERPROFILE`, then `HOME`), or the current folder.
pub open spec fn home_base(userprofile: Option<Seq<char>>, home: Option<Seq<char>>) -> Seq<char> {
    match userprofile {
        Some(u) => u,
        None => match home {
            Some(h) => h,
            None => "."@,
        },
    }
}

/// Picks the folder under which the generator's folder `.todoly-tui` lies,
/// from the values of `USERPROFILE` and `HOME`.
pub fn ai_home_base(userprofile: Option<String>, home: Option<String>) -> (r: String)
    ensures
        r@ == home_base(
            match userprofile {
                Some(u) => Some(u@),
                None => None,
            },
            match home {
                Some(h) => Some(h@),
                None => None,
            },
        ),
{
    match userprofile {
        Some(u) => u,
        None => match home {
            Some(h) => h,
            None => String::from_str("."),
        },
    }
}

/// The two files the generator is said to need; both always exist in the
/// project, so nothing has to be fetched.
pub fn get_model_paths() -> (r: (String, String))
    ensures
        r.0@ == "Cargo.toml"@,
        r.1@ == "src/main.rs"@,
{
    (String::from_str("Cargo.toml"), String::from_str("src/main.rs"))
}

/// Fetching the generator's files: there is nothing to fetch, so it succeeds
/// at once with no files and leaves the progress counter alone.
pub fn download_ai_files(_progress: Arc<AtomicU32>) -> (r: Result<Vec<String>, String>)
    ensures
        r matches Ok(v) && v@.len() == 0,
{
    Ok(Vec::new())
}

/// The five steps for a goal, given the goal and its lower-cased form.
pub open spec fn subtasks_for(lowered: Seq<char>, prompt: Seq<char>) -> Seq<Seq<char>> {
    let has = |w: Seq<char>| has_infix(lowered, w);
    if has("rust"@) && has("собеседов"@) {
        seq![
            "Повторить концепции владения (Ownership) и заимствования (Borrowing)"@,
            "Разобрать правила времени жизни ссылок (Lifetimes) и работу с трейтами"@,
            "Потренироваться в решении задач на многопоточность и асинхронность (Tokio)"@,
            "Повторить устройство стандартной библиотеки (Vec, HashMap, Box, Rc, Arc)"@,
            "Подготовить рассказ о своем коммерческом опыте и проектах"@,
        ]
    } else if has("rust"@) {
        seq![
            "Изучить требования к программе и спроектировать архитектуру решения"@,
            "Создать каркас проекта на Rust с помощью cargo init"@,
            "Реализовать основную логику с использованием безопасных типов данных"@,
            "Написать модульные тесты для проверки корректности функций"@,
            "Запустить cargo clippy и исправить все предупреждения линтера"@,
        ]
    } else if has("поездк"@) || has("путешеств"@) || has("выходн"@) || has("отпуск"@) {
        seq![
            "Определить бюджет, направление и забронировать жилье"@,
            "Составить список необходимых вещей и собрать дорожную сумку"@,
            "Спланировать маршрут перемещений и список достопримечательностей"@,
            "Купить билеты на транспорт или подготовить автомобиль к поездке"@,
            "Проверить прогноз погоды и скорректировать планы при необходимости"@,
        ]
    } else if has("уборк"@) || has("квартир"@) || has("комнат"@) || has("порядок"@) {
        seq![
            "Собрать и разложить все разбросанные вещи по своим местам"@,
            "Протереть пыль со всех открытых поверхностей и мебели"@,
            "Пропылесосить ковры и тщательно вымыть полы"@,
            "Вымыть посуду на кухне и протереть сантехнику"@,
            "Вынести накопившийся мусор и проветрить помещения"@,
        ]
    } else if has("куп"@) || has("покупк"@) || has("магазин"@) || has("продукт"@) {
        seq![
            "Составить подробный список необходимых покупок"@,
            "Сравнить цены в различных магазинах или интернет-площадках"@,
            "Выбрать качественные товары и проверить сроки годности"@,
            "Совершить покупку и получить чеки/гарантийные талоны"@,
            "Разложить купленные вещи по местам хранения дома"@,
        ]
    } else if has("учи"@) || has("изучи"@) || has("учеб"@) || has("книг"@) || has("курс"@)
        || has("экзамен"@) {
        seq![
            "Выбрать качественный учебный материал, курс или книгу"@,
            "Составить график регулярных занятий без перегрузок"@,
            "Изучить теоретическую часть и составить конспект ключевых тем"@,
            "Выполнить практические упражнения для закрепления материала"@,
            "Повторить изученное и пройти проверочный тест или экзамен"@,
        ]
    } else if has("спорт"@) || has("тренировк"@) || has("бег"@) || has("зал"@) {
        seq![
            "Выбрать направление тренировки и составить план упражнений"@,
            "Подготовить спортивную форму, обувь и инвентарь"@,
            "Провести качественную разминку всех групп мышц"@,
            "Выполнить запланированный комплекс упражнений с правильной техникой"@,
            "Сделать растяжку, заминку и восстановить водный баланс"@,
        ]
    } else if has("сайт"@) || has("web"@) || has("дизайн"@) || has("интерфейс"@) {
        seq![
            "Разработать прототип интерфейса и макеты страниц"@,
            "Создать структуру проекта и настроить сборщик"@,
            "Реализовать адаптивную верстку по макету"@,
            "Написать логику работы интерактивных элементов"@,
            "Протестировать отображение на различных устройствах"@,
        ]
    } else if has("врач"@) || has("лечен"@) || has("зуб"@) || has("больниц"@) {
        seq![
            "Записаться на прием к профильному специалисту в клинику"@,
            "Собрать результаты прошлых анализов и медицинскую карту"@,
            "Пройти осмотр и подробно описать симптомы врачу"@,
            "Приобрести назначенные лекарственные препараты в аптеке"@,
            "Начать курс лечения строго по инструкции специалиста"@,
        ]
    } else {
        seq![
            "Сформулировать конечную цель для задачи «"@ + prompt + "» и составить план"@,
            "Собрать все необходимые материалы и источники информации"@,
            "Выполнить основную часть задачи шаг за шагом"@,
            "Проверить полученный результат на ошибки и неточности"@,
            "Внести финальные правки и завершить работу"@,
        ]
    }
}

/// A goal mentioning `rust` and `собеседов` gets the interview plan.
pub proof fn law_interview_plan(lowered: Seq<char>, prompt: Seq<char>)
    requires
        has_infix(lowered, "rust"@) && has_infix(lowered, "собеседов"@),
    ensures
        subtasks_for(lowered, prompt) == seq![
            "Повторить концепции владения (Ownership) и заимствования (Borrowing)"@,
            "Разобрать правила времени жизни ссылок (Lifetimes) и работу с трейтами"@,
            "Потренироваться в решении задач на многопоточность и асинхронность (Tokio)"@,
            "Повторить устройство стандартной библиотеки (Vec, HashMap, Box, Rc, Arc)"@,
            "Подготовить рассказ о своем коммерческом опыте и проектах"@,
        ],
{
}

/// A goal mentioning `rust` but not `собеседов` gets the Rust plan.
pub proof fn law_rust_plan(lowered: Seq<char>, prompt: Seq<char>)
    requires
        has_infix(lowered, "rust"@) && !has_infix(lowered, "собеседов"@),
    ensures
        subtasks_for(lowered, prompt) == seq![
            "Изучить требования к программе и спроектировать архитектуру решения"@,
            "Создать каркас проекта на Rust с помощью cargo init"@,
            "Реализовать основную логику с использованием безопасных типов данных"@,
            "Написать модульные тесты для проверки корректности функций"@,
            "Запустить cargo clippy и исправить все предупреждения линтера"@,
        ],
{
}

/// A goal mentioning one of `поездк`, `путешеств`, `выходн`, `отпуск`,
/// and no word of an earlier category, gets the trip plan.
pub proof fn law_trip_plan(lowered: Seq<char>, prompt: Seq<char>)
    requires
        !(has_infix(lowered, "rust"@))
            && (has_infix(lowered, "поездк"@)
            || has_infix(lowered, "путешеств"@)
            || has_infix(lowered, "выходн"@)
            || has_infix(lowered, "отпуск"@)),
    ensures
        subtasks_for(lowered, prompt) == seq![
            "Определить бюджет, направление и забронировать жилье"@,
            "Составить список необходимых вещей и собрать дорожную сумку"@,
            "Спланировать маршрут перемещений и список достопримечательностей"@,
            "Купить билеты на транспорт или подготовить автомобиль к поездке"@,
            "Проверить прогноз погоды и скорректировать планы при необходимости"@,
        ],
{
}

/// A goal mentioning one of `уборк`, `квартир`, `комнат`, `порядок`,
/// and no word of an earlier category, gets the cleaning plan.
pub proof fn law_cleaning_plan(lowered: Seq<char>, prompt: Seq<char>)
    requires
        !(has_infix(lowered, "rust"@)
            || has_infix(lowered, "поездк"@)
            || has_infix(lowered, "путешеств"@)
            || has_infix(lowered, "выходн"@)
            || has_infix(lowered, "отпуск"@))
            && (has_infix(lowered, "уборк"@)
            || has_infix(lowered, "квартир"@)
            || has_infix(lowered, "комнат"@)
            || has_infix(lowered, "порядок"@)),
    ensures
        subtasks_for(lowered, prompt) == seq![
            "Собрать и разложить все разбросанные вещи по своим местам"@,
            "Протереть пыль со всех открытых поверхностей и мебели"@,
            "Пропылесосить ковры и тщательно вымыть полы"@,
            "Вымыть посуду на кухне и протереть сантехнику"@,
            "Вынести накопившийся мусор и проветрить помещения"@,
        ],
{
}

/// A goal mentioning one of `куп`, `покупк`, `магазин`, `продукт`,
/// and no word of an earlier category, gets the shopping plan.
pub proof fn law_shopping_plan(lowered: Seq<char>, prompt: Seq<char>)
    requires
        !(has_infix(lowered, "rust"@)
            || has_infix(lowered, "поездк"@)
            || has_infix(lowered, "путешеств"@)
            || has_infix(lowered, "выходн"@)
            || has_infix(lowered, "отпуск"@)
            || has_infix(lowered, "уборк"@)
            || has_infix(lowered, "квартир"@)
            || has_infix(lowered, "комнат"@)
            || has_infix(lowered, "порядок"@))
            && (has_infix(lowered, "куп"@)
            || has_infix(lowered, "покупк"@)
            || has_infix(lowered, "магазин"@)
            || has_infix(lowered, "продукт"@)),
    ensures
        subtasks_for(lowered, prompt) == seq![
            "Составить подробный список необходимых покупок"@,
            "Сравнить цены в различных магазинах или интернет-площадках"@,
            "Выбрать качественные товары и проверить сроки годности"@,
            "Совершить покупку и получить чеки/гарантийные талоны"@,
            "Разложить купленные вещи по местам хранения дома"@,
        ],
{
}

/// A goal mentioning one of `учи`, `изучи`, `учеб`, `книг`, `курс`, `экзамен`,
/// and no word of an earlier category, gets the study plan.
pub proof fn law_study_plan(lowered: Seq<char>, prompt: Seq<char>)
    requires
        !(has_infix(lowered, "rust"@)
            || has_infix(lowered, "поездк"@)
            || has_infix(lowered, "путешеств"@)
            || has_infix(lowered, "выходн"@)
            || has_infix(lowered, "отпуск"@)
            || has_infix(lowered, "уборк"@)
            || has_infix(lowered, "квартир"@)
            || has_infix(lowered, "комнат"@)
            || has_infix(lowered, "порядок"@)
            || has_infix(lowered, "куп"@)
            || has_infix(lowered, "покупк"@)
            || has_infix(lowered, "магазин"@)
            || has_infix(lowered, "продукт"@))
            && (has_infix(lowered, "учи"@)
            || has_infix(lowered, "изучи"@)
            || has_infix(lowered, "учеб"@)
            || has_infix(lowered, "книг"@)
            || has_infix(lowered, "курс"@)
            || has_infix(lowered, "экзамен"@)),
    ensures
        subtasks_for(lowered, prompt) == seq![
            "Выбрать качественный учебный материал, курс или книгу"@,
            "Составить график регулярных занятий без перегрузок"@,
            "Изучить теоретическую часть и составить конспект ключевых тем"@,
            "Выполнить практические упражнения для закрепления материала"@,
            "Повторить изученное и пройти проверочный тест или экзамен"@,
        ],
{
}

/// A goal mentioning one of `спорт`, `тренировк`, `бег`, `зал`,
/// and no word of an earlier category, gets the sport plan.
pub proof fn law_sport_plan(lowered: Seq<char>, prompt: Seq<char>)
    requires
        !(has_infix(lowered, "rust"@)
            || has_infix(lowered, "поездк"@)
            || has_infix(lowered, "путешеств"@)
            || has_infix(lowered, "выходн"@)
            || has_infix(lowered, "отпуск"@)
            || has_infix(lowered, "уборк"@)
            || has_infix(lowered, "квартир"@)
            || has_infix(lowered, "комнат"@)
            || has_infix(lowered, "порядок"@)
            || has_infix(lowered, "куп"@)
            || has_infix(lowered, "покупк"@)
            || has_infix(lowered, "магазин"@)
            || has_infix(lowered, "продукт"@)
            || has_infix(lowered, "учи"@)
            || has_infix(lowered, "изучи"@)
            || has_infix(lowered, "учеб"@)
            || has_infix(lowered, "книг"@)
            || has_infix(lowered, "курс"@)
            || has_infix(lowered, "экзамен"@))
            && (has_infix(lowered, "спорт"@)
            || has_infix(lowered, "тренировк"@)
            || has_infix(lowered, "бег"@)
            || has_infix(lowered, "зал"@)),
    ensures
        subtasks_for(lowered, prompt) == seq![
            "Выбрать направление тренировки и составить план упражнений"@,
            "Подготовить спортивную форму, обувь и инвентарь"@,
            "Провести качественную разминку всех групп мышц"@,
            "Выполнить запланированный комплекс упражнений с правильной техникой"@,
            "Сделать растяжку, заминку и восстановить водный баланс"@,
        ],
{
}

/// A goal mentioning one of `сайт`, `web`, `дизайн`, `интерфейс`,
/// and no word of an earlier category, gets the web plan.
pub proof fn law_web_plan(lowered: Seq<char>, prompt: Seq<char>)
    requires
        !(has_infix(lowered, "rust"@)
            || has_infix(lowered, "поездк"@)
            || has_infix(lowered, "путешеств"@)
            || has_infix(lowered, "выходн"@)
            || has_infix(lowered, "отпуск"@)
            || has_infix(lowered, "уборк"@)
            || has_infix(lowered, "квартир"@)
            || has_infix(lowered, "комнат"@)
            || has_infix(lowered, "порядок"@)
            || has_infix(lowered, "куп"@)
            || has_infix(lowered, "покупк"@)
            || has_infix(lowered, "магазин"@)
            || has_infix(lowered, "продукт"@)
            || has_infix(lowered, "учи"@)
            || has_infix(lowered, "изучи"@)
            || has_infix(lowered, "учеб"@)
            || has_infix(lowered, "книг"@)
            || has_infix(lowered, "курс"@)
            || has_infix(lowered, "экзамен"@)
            || has_infix(lowered, "спорт"@)
            || has_infix(lowered, "тренировк"@)
            || has_infix(lowered, "бег"@)
            || has_infix(lowered, "зал"@))
            && (has_infix(lowered, "сайт"@)
            || has_infix(lowered, "web"@)
            || has_infix(lowered, "дизайн"@)
            || has_infix(lowered, "интерфейс"@)),
    ensures
        subtasks_for(lowered, prompt) == seq![
            "Разработать прототип интерфейса и макеты страниц"@,
            "Создать структуру проекта и настроить сборщик"@,
            "Реализовать адаптивную верстку по макету"@,
            "Написать логику работы интерактивных элементов"@,
            "Протестировать отображение на различных устройствах"@,
        ],
{
}

/// A goal mentioning one of `врач`, `лечен`, `зуб`, `больниц`,
/// and no word of an earlier category, gets the health plan.
pub proof fn law_health_plan(lowered: Seq<char>, prompt: Seq<char>)
    requires
        !(has_infix(lowered, "rust"@)
            || has_infix(lowered, "поездк"@)
            || has_infix(lowered, "путешеств"@)
            || has_infix(lowered, "выходн"@)
            || has_infix(lowered, "отпуск"@)
            || has_infix(lowered, "уборк"@)
            || has_infix(lowered, "квартир"@)
            || has_infix(lowered, "комнат"@)
            || has_infix(lowered, "порядок"@)
            || has_infix(lowered, "куп"@)
            || has_infix(lowered, "покупк"@)
            || has_infix(lowered, "магазин"@)
            || has_infix(lowered, "продукт"@)
            || has_infix(lowered, "учи"@)
            || has_infix(lowered, "изучи"@)
            || has_infix(lowered, "учеб"@)
            || has_infix(lowered, "книг"@)
            || has_infix(lowered, "курс"@)
            || has_infix(lowered, "экзамен"@)
            || has_infix(lowered, "спорт"@)
            || has_infix(lowered, "тренировк"@)
            || has_infix(lowered, "бег"@)
            || has_infix(lowered, "зал"@)
            || has_infix(lowered, "сайт"@)
            || has_infix(lowered, "web"@)
            || has_infix(lowered, "дизайн"@)
            || has_infix(lowered, "интерфейс"@))
            && (has_infix(lowered, "врач"@)
            || has_infix(lowered, "лечен"@)
            || has_infix(lowered, "зуб"@)
            || has_infix(lowered, "больниц"@)),
    ensures
        subtasks_for(lowered, prompt) == seq![
            "Записаться на прием к профильному специалисту в клинику"@,
            "Собрать результаты прошлых анализов и медицинскую карту"@,
            "Пройти осмотр и подробно описать симптомы врачу"@,
            "Приобрести назначенные лекарственные препараты в аптеке"@,
            "Начать курс лечения строго по инструкции специалиста"@,
        ],
{
}

/// A goal mentioning no keyword of any category gets the general plan,
/// whose first step quotes the goal as it was written.
pub proof fn law_general_plan(lowered: Seq<char>, prompt: Seq<char>)
    requires
        !(has_infix(lowered, "rust"@)
            || has_infix(lowered, "поездк"@)
            || has_infix(lowered, "путешеств"@)
            || has_infix(lowered, "выходн"@)
            || has_infix(lowered, "отпуск"@)
            || has_infix(lowered, "уборк"@)
            || has_infix(lowered, "квартир"@)
            || has_infix(lowered, "комнат"@)
            || has_infix(lowered, "порядок"@)
            || has_infix(lowered, "куп"@)
            || has_infix(lowered, "покупк"@)
            || has_infix(lowered, "магазин"@)
            || has_infix(lowered, "продукт"@)
            || has_infix(lowered, "учи"@)
            || has_infix(lowered, "изучи"@)
            || has_infix(lowered, "учеб"@)
            || has_infix(lowered, "книг"@)
            || has_infix(lowered, "курс"@)
            || has_infix(lowered, "экзамен"@)
            || has_infix(lowered, "спорт"@)
            || has_infix(lowered, "тренировк"@)
            || has_infix(lowered, "бег"@)
            || has_infix(lowered, "зал"@)
            || has_infix(lowered, "сайт"@)
            || has_infix(lowered, "web"@)
            || has_infix(lowered, "дизайн"@)
            || has_infix(lowered, "интерфейс"@)
            || has_infix(lowered, "врач"@)
            || has_infix(lowered, "лечен"@)
            || has_infix(lowered, "зуб"@)
            || has_infix(lowered, "больниц"@)),
    ensures
        subtasks_for(lowered, prompt) == seq![
            "Сформулировать конечную цель для задачи «"@ + prompt + "» и составить план"@,
            "Собрать все необходимые материалы и источники информации"@,
            "Выполнить основную часть задачи шаг за шагом"@,
            "Проверить полученный результат на ошибки и неточности"@,
            "Внести финальные правки и завершить работу"@,
        ],
{
}

/// The values of a vector of strings.
pub open spec fn views_of(v: Seq<String>) -> Seq<Seq<char>> {
    v.map_values(|s: String| s@)
}

fn five(a: String, b: &str, c: &str, d: &str, e: &str) -> (r: Vec<String>)
    ensures
        views_of(r@) == seq![a@, b@, c@, d@, e@],
{
    let mut r: Vec<String> = Vec::new();
    r.push(a);
    r.push(String::from_str(b));
    r.push(String::from_str(c));
    r.push(String::from_str(d));
    r.push(String::from_str(e));
    assert(views_of(r@) =~= seq![a@, b@, c@, d@, e@]);
    r
}

fn has(lowered: &Vec<char>, word: &str) -> (r: bool)
    ensures
        r == has_infix(lowered@, word@),
{
    let w = chars_of(word);
    contains_chars(lowered.as_slice(), w.as_slice())
}

/// The five steps for `prompt`, whose lower-cased form is `lowered`.
pub fn subtasks_for_lowered(prompt: &str, lowered: &str) -> (r: Vec<String>)
    ensures
        views_of(r@) == subtasks_for(lowered@, prompt@),
{
    let l = chars_of(lowered);
    if has(&l, "rust") && has(&l, "собеседов") {
        five(
            String::from_str("Повторить концепции владения (Ownership) и заимствования (Borrowing)"),
            "Разобрать правила времени жизни ссылок (Lifetimes) и работу с трейтами",
            "Потренироваться в решении задач на многопоточность и асинхронность (Tokio)",
            "Повторить устройство стандартной библиотеки (Vec, HashMap, Box, Rc, Arc)",
            "Подготовить рассказ о своем коммерческом опыте и проектах",
        )
    } else if has(&l, "rust") {
        five(
            String::from_str("Изучить требования к программе и спроектировать архитектуру решения"),
            "Создать каркас проекта на Rust с помощью cargo init",
            "Реализовать основную логику с использованием безопасных типов данных",
            "Написать модульные тесты для проверки корректности функций",
            "Запустить cargo clippy и исправить все предупреждения линтера",
        )
    } else if has(&l, "поездк") || has(&l, "путешеств") || has(&l, "выходн") || has(&l, "отпуск") {
        five(
            String::from_str("Определить бюджет, направление и забронировать жилье"),
            "Составить список необходимых вещей и собрать дорожную сумку",
            "Спланировать маршрут перемещений и список достопримечательностей",
            "Купить билеты на транспорт или подготовить автомобиль к поездке",
            "Проверить прогноз погоды и скорректировать планы при необходимости",
        )
    } else if has(&l, "уборк") || has(&l, "квартир") || has(&l, "комнат") || has(&l, "порядок") {
        five(
            String::from_str("Собрать и разложить все разбросанные вещи по своим местам"),
            "Протереть пыль со всех открытых поверхностей и мебели",
            "Пропылесосить ковры и тщательно вымыть полы",
            "Вымыть посуду на кухне и протереть сантехнику",
            "Вынести накопившийся мусор и проветрить помещения",
        )
    } else if has(&l, "куп") || has(&l, "покупк") || has(&l, "магазин") || has(&l, "продукт") {
        five(
            String::from_str("Составить подробный список необходимых покупок"),
            "Сравнить цены в различных магазинах или интернет-площадках",
            "Выбрать качественные товары и проверить сроки годности",
            "Совершить покупку и получить чеки/гарантийные талоны",
            "Разложить купленные вещи по местам хранения дома",
        )
    } else if has(&l, "учи") || has(&l, "изучи") || has(&l, "учеб") || has(&l, "книг") || has(
        &l,
        "курс",
    ) || has(&l, "экзамен") {
        five(
            String::from_str("Выбрать качественный учебный материал, курс или книгу"),
            "Составить график регулярных занятий без перегрузок",
            "Изучить теоретическую часть и составить конспект ключевых тем",
            "Выполнить практические упражнения для закрепления материала",
            "Повторить изученное и пройти проверочный тест или экзамен",
        )
    } else if has(&l, "спорт") || has(&l, "тренировк") || has(&l, "бег") || has(&l, "зал") {
        five(
            String::from_str("Выбрать направление тренировки и составить план упражнений"),
            "Подготовить спортивную форму, обувь и инвентарь",
            "Провести качественную разминку всех групп мышц",
            "Выполнить запланированный комплекс упражнений с правильной техникой",
            "Сделать растяжку, заминку и восстановить водный баланс",
        )
    } else if has(&l, "сайт") || has(&l, "web") || has(&l, "дизайн") || has(&l, "интерфейс") {
        five(
            String::from_str("Разработать прототип интерфейса и макеты страниц"),
            "Создать структуру проекта и настроить сборщик",
            "Реализовать адаптивную верстку по макету",
            "Написать логику работы интерактивных элементов",
            "Протестировать отображение на различных устройствах",
        )
    } else if has(&l, "врач") || has(&l, "лечен") || has(&l, "зуб") || has(&l, "больниц") {
        five(
            String::from_str("Записаться на прием к профильному специалисту в клинику"),
            "Собрать результаты прошлых анализов и медицинскую карту",
            "Пройти осмотр и подробно описать симптомы врачу",
            "Приобрести назначенные лекарственные препараты в аптеке",
            "Начать курс лечения строго по инструкции специалиста",
        )
    } else {
        let mut first = String::from_str("Сформулировать конечную цель для задачи «");
        first.append(prompt);
        first.append("» и составить план");
        five(
            first,
            "Собрать все необходимые материалы и источники информации",
            "Выполнить основную часть задачи шаг за шагом",
            "Проверить полученный результат на ошибки и неточности",
            "Внести финальные правки и завершить работу",
        )
    }
}

/// Splits a goal into five steps. It never fails.
pub fn generate_subtasks(user_prompt: &str) -> (r: Result<Vec<String>, String>)
    ensures
        r matches Ok(v) && views_of(v@) == subtasks_for(lowercase(user_prompt@), user_prompt@),
        r matches Ok(v) && v@.len() == 5,
{
    let lowered = to_lowercase(user_prompt);
    let v = subtasks_for_lowered(user_prompt, lowered.as_str());
    assert(views_of(v@).len() == v@.len());
    Ok(v)
}

} // verus!
