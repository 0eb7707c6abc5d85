use leptos_demo::age::{parse_age, INITIAL_AGE};
use leptos_demo::counter::{load_result, CounterState, FIRST_DELAY_SECS, SECOND_DELAY_SECS};
use leptos_demo::entries::{can_increment_all, increment_all, initial_entries, value_at, DatabaseEntry};
use leptos_demo::forms::{city_options, BoundForm, Toggle, UploadForm};
use leptos_demo::search::{fetch_search, has_search, pet_key, search_key, Pet};
use leptos_demo::todo::{todo_status, todo_text};

#[test]
fn initial_entries_are_foo_and_bar() {
    let e = initial_entries();
    assert_eq!(e.len(), 2);
    assert_eq!(e[0].key, "foo");
    assert_eq!(e[0].value, 1);
    assert_eq!(e[1].key, "bar");
    assert_eq!(e[1].value, 2);
}

#[test]
fn increment_all_raises_every_row() {
    let mut e = initial_entries();
    increment_all(&mut e);
    assert_eq!(value_at(&e, 0), 2);
    assert_eq!(value_at(&e, 1), 3);
    increment_all(&mut e);
    assert_eq!(value_at(&e, 0), 3);
    assert_eq!(value_at(&e, 1), 4);
    assert_eq!(e[0].key, "foo");
    assert_eq!(e[1].key, "bar");
}

#[test]
fn value_past_the_end_is_zero() {
    let e = initial_entries();
    assert_eq!(value_at(&e, 2), 0);
    assert_eq!(value_at(&Vec::new(), 0), 0);
}

#[test]
fn increment_all_on_empty_list() {
    let mut e: Vec<DatabaseEntry> = Vec::new();
    assert!(can_increment_all(&e));
    increment_all(&mut e);
    assert!(e.is_empty());
}

#[test]
fn increment_refused_at_the_largest_value() {
    let mut e = initial_entries();
    assert!(can_increment_all(&e));
    e[1].value = i32::MAX;
    assert!(!can_increment_all(&e));
    e[1].value = i32::MAX - 1;
    assert!(can_increment_all(&e));
}

#[test]
fn counter_steps_by_one_and_two() {
    let mut c = CounterState::new();
    assert_eq!((c.count, c.count2), (1, 0));
    c.increment();
    assert_eq!((c.count, c.count2), (2, 2));
    c.increment();
    assert_eq!((c.count, c.count2), (3, 4));
}

#[test]
fn counter_refuses_overflow() {
    let c = CounterState { count: i32::MAX, count2: 0 };
    assert!(!c.can_increment());
    let c = CounterState { count: 0, count2: i32::MAX - 1 };
    assert!(!c.can_increment());
    let c = CounterState { count: i32::MAX - 1, count2: i32::MAX - 2 };
    assert!(c.can_increment());
}

#[test]
fn load_multiplies_by_twenty() {
    assert_eq!(load_result(1), Some(20));
    assert_eq!(load_result(0), Some(0));
    assert_eq!(load_result(-3), Some(-60));
    assert_eq!(load_result(i32::MAX / 20), Some(i32::MAX / 20 * 20));
    assert_eq!(load_result(i32::MAX / 20 + 1), None);
    assert_eq!(load_result(i32::MIN / 20), Some(i32::MIN / 20 * 20));
    assert_eq!(load_result(i32::MIN / 20 - 1), None);
    assert_eq!((FIRST_DELAY_SECS, SECOND_DELAY_SECS), (1, 4));
}

#[test]
fn todo_text_quotes_the_job() {
    assert_eq!(todo_text("walk"), "TODO: \"walk\"");
    assert_eq!(todo_text(""), "TODO: \"\"");
    assert_eq!(todo_text("a\"b"), "TODO: \"a\\\"b\"");
}

#[test]
fn todo_status_prefers_loading() {
    assert_eq!(todo_status(true, Some("TODO: \"x\"".to_string())), Some("loading...".to_string()));
    assert_eq!(todo_status(true, None), Some("loading...".to_string()));
    assert_eq!(todo_status(false, Some("done".to_string())), Some("done".to_string()));
    assert_eq!(todo_status(false, None), None);
}

#[test]
fn search_key_defaults_to_empty() {
    assert_eq!(search_key(Some("cat".to_string())), "cat");
    assert_eq!(search_key(None), "");
}

#[test]
fn results_shown_only_for_non_empty_query() {
    assert!(has_search(&Some("cat".to_string())));
    assert!(!has_search(&Some(String::new())));
    assert!(!has_search(&None));
}

#[test]
fn fetch_search_names_embed_the_key() {
    let pets = fetch_search("cat");
    assert_eq!(pets.len(), 2);
    assert_eq!(pets[0].id, 10);
    assert_eq!(pets[0].name, "<cat> 豆子");
    assert_eq!(pets[1].id, 20);
    assert_eq!(pets[1].name, "<cat ok> 王立");
}

#[test]
fn pet_key_joins_id_and_name() {
    let pet = Pet { id: 10, name: "<cat> 豆子".to_string() };
    assert_eq!(pet_key(&pet), "10_<cat> 豆子");
    let pet = Pet { id: 0, name: String::new() };
    assert_eq!(pet_key(&pet), "0_");
    let pet = Pet { id: u32::MAX, name: "x".to_string() };
    assert_eq!(pet_key(&pet), "4294967295_x");
}

#[test]
fn upload_form_submit_and_reset() {
    let mut f = UploadForm::new();
    assert_eq!(f.name, "");
    assert_eq!(f.msg, "guud");
    assert_eq!(f.city, "北京");
    assert!(!f.shows_name());
    f.city = "广州".to_string();
    f.submit("Ann".to_string());
    assert_eq!(f.name, "Ann");
    assert!(f.shows_name());
    f.reset_city();
    assert_eq!(f.city, "北京");
    assert_eq!(f.name, "Ann");
}

#[test]
fn city_options_in_order() {
    assert_eq!(city_options(), vec!["北京".to_string(), "上海".to_string(), "广州".to_string()]);
}

#[test]
fn bound_form_starts_ticked() {
    let mut f = BoundForm::new();
    assert_eq!(f.name, "");
    assert_eq!(f.email, "");
    assert!(f.shows_bonus());
    f.spam_me = false;
    assert!(!f.shows_bonus());
}

#[test]
fn toggle_flips_each_press() {
    let mut t = Toggle::new();
    assert!(!t.on);
    t.flip();
    assert!(t.on);
    t.flip();
    assert!(!t.on);
}

#[test]
fn parse_age_accepts_u8_text() {
    assert_eq!(INITIAL_AGE, 10);
    assert_eq!(parse_age("42"), Ok(42));
    assert_eq!(parse_age("+7"), Ok(7));
    assert_eq!(parse_age("255"), Ok(255));
    assert_eq!(parse_age("007"), Ok(7));
}

#[test]
fn parse_age_rejects_other_text() {
    assert!(parse_age("").is_err());
    assert!(parse_age("256").is_err());
    assert!(parse_age("-1").is_err());
    assert!(parse_age("+").is_err());
    assert!(parse_age(" 1").is_err());
    assert!(parse_age("abc").is_err());
}
