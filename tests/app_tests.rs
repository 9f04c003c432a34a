use foo_fight::app::{App, AppState};
use foo_fight::dict::{DictItem, DictMeta, Dictionary, LoadError};

fn item(id: &str, prompt: &str, answer: &str, aliases: &[&str]) -> DictItem {
    DictItem {
        id: id.to_string(),
        prompt: prompt.to_string(),
        answer: answer.to_string(),
        aliases: aliases.iter().map(|a| a.to_string()).collect(),
        tags: vec![],
        difficulty: 0,
    }
}

fn one_item_set() -> Dictionary {
    Dictionary {
        name: "git".to_string(),
        version: 1,
        language: "en".to_string(),
        items: vec![item("1", "Show status", "git status", &["git st"])],
    }
}

fn catalog() -> Vec<DictMeta> {
    vec![
        DictMeta { path: "a.toml".to_string(), name: "A".to_string() },
        DictMeta { path: "b.toml".to_string(), name: "B".to_string() },
    ]
}

fn type_text(app: &mut App, s: &str) {
    for c in s.chars() {
        app.add_char(c);
    }
}

#[test]
fn empty_catalog_selection_creates_no_session() {
    let mut app = App::new(vec![]);
    assert!(app.select_dictionary(Ok(one_item_set())).is_ok());
    assert_eq!(app.state, AppState::SelectDictionary);
    assert!(app.session.is_none());
    assert!(app.current_dictionary.is_none());
    app.next_dictionary();
    app.previous_dictionary();
    assert_eq!(app.selected_dict_index, 0);
}

#[test]
fn navigation_clamps() {
    let mut app = App::new(catalog());
    app.previous_dictionary();
    assert_eq!(app.selected_dict_index, 0);
    app.next_dictionary();
    assert_eq!(app.selected_dict_index, 1);
    app.next_dictionary();
    assert_eq!(app.selected_dict_index, 1);
    app.previous_dictionary();
    assert_eq!(app.selected_dict_index, 0);
}

#[test]
fn failed_load_changes_nothing() {
    let mut app = App::new(catalog());
    let r = app.select_dictionary(Err(LoadError::Malformed("bad".to_string())));
    assert!(matches!(r, Err(LoadError::Malformed(ref m)) if m == "bad"));
    assert_eq!(app.state, AppState::SelectDictionary);
    assert!(app.session.is_none());

    let mut empty = one_item_set();
    empty.items.clear();
    let r = app.select_dictionary(Ok(empty));
    assert!(matches!(r, Err(LoadError::NoItems)));
    assert_eq!(app.state, AppState::SelectDictionary);
    assert!(app.session.is_none());
}

#[test]
fn correct_answer_then_acknowledge_completes() {
    let mut app = App::new(catalog());
    assert!(app.select_dictionary(Ok(one_item_set())).is_ok());
    assert_eq!(app.state, AppState::Training);
    assert_eq!(app.get_current_prompt(), Some("Show status"));
    type_text(&mut app, "  git status ");
    app.validate_answer();
    assert!(app.show_feedback);
    assert!(app.is_correct);
    assert_eq!(app.feedback_message, "✓ Correct!");
    assert_eq!(app.session.as_ref().unwrap().correct_count, 1);
    app.validate_answer();
    assert_eq!(app.state, AppState::SelectDictionary);
    assert!(app.session.is_none());
    assert!(app.get_current_prompt().is_none());
}

#[test]
fn incorrect_answer_retry_and_skip() {
    let mut app = App::new(catalog());
    let mut set = one_item_set();
    set.items.push(item("2", "Stage all", "git add .", &[]));
    assert!(app.select_dictionary(Ok(set)).is_ok());
    type_text(&mut app, "gti");
    app.delete_char();
    app.add_char('t');
    assert_eq!(app.input, "gtt");
    app.validate_answer();
    assert!(!app.is_correct);
    assert!(app.feedback_message.starts_with("✗ Incorrect. Expected: "));
    assert_eq!(app.session.as_ref().unwrap().incorrect_count, 1);
    assert_eq!(app.session.as_ref().unwrap().streak, 0);
    // typing is ignored while feedback is shown; Enter does not advance
    app.add_char('x');
    assert_eq!(app.input, "gtt");
    app.validate_answer();
    assert!(app.show_feedback);
    assert_eq!(app.session.as_ref().unwrap().current_index, 0);
    app.retry();
    assert!(!app.show_feedback);
    assert_eq!(app.input, "");
    assert_eq!(app.feedback_message, "");
    app.skip();
    assert_eq!(app.state, AppState::Training);
    assert_eq!(app.session.as_ref().unwrap().current_index, 1);
    app.skip();
    assert_eq!(app.state, AppState::SelectDictionary);
}

#[test]
fn incorrect_message_names_answer() {
    let mut app = App::new(catalog());
    assert!(app.select_dictionary(Ok(one_item_set())).is_ok());
    type_text(&mut app, "git");
    app.validate_answer();
    assert_eq!(app.feedback_message, "✗ Incorrect. Expected: git status");
}

#[test]
fn empty_input_is_not_submitted() {
    let mut app = App::new(catalog());
    assert!(app.select_dictionary(Ok(one_item_set())).is_ok());
    app.validate_answer();
    assert!(!app.show_feedback);
    assert_eq!(app.session.as_ref().unwrap().incorrect_count, 0);
}

#[test]
fn back_discards_session() {
    let mut app = App::new(catalog());
    assert!(app.select_dictionary(Ok(one_item_set())).is_ok());
    type_text(&mut app, "git");
    app.back_to_selection();
    assert_eq!(app.state, AppState::SelectDictionary);
    assert!(app.session.is_none());
    assert!(app.current_dictionary.is_none());
    assert_eq!(app.input, "");
}

#[test]
fn set_with_empty_answer_is_refused() {
    let mut app = App::new(catalog());
    let mut set = one_item_set();
    set.items[0].answer = String::new();
    let r = app.select_dictionary(Ok(set));
    assert!(matches!(r, Err(LoadError::Malformed(_))));
    assert_eq!(app.state, AppState::SelectDictionary);
    assert!(app.session.is_none());
}
