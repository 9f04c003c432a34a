use foo_fight::dictionary::{Dictionary, DictionaryItem};
use foo_fight::ui::{App, AppState, Key, Stats};

fn question(q: &str, c: &str, aliases: &[&str]) -> DictionaryItem {
    DictionaryItem {
        question: q.to_string(),
        command: c.to_string(),
        aliases: aliases.iter().map(|a| a.to_string()).collect(),
    }
}

fn git_set() -> Dictionary {
    Dictionary {
        name: "git".to_string(),
        description: "git basics".to_string(),
        items: vec![
            question("Show status", "git status", &["git st"]),
            question("Stage all", "git add .", &[]),
        ],
    }
}

fn type_text(app: &mut App, s: &str) {
    for c in s.chars() {
        app.input.push(c);
    }
}

#[test]
fn stats_accuracy() {
    let s = Stats::new();
    assert_eq!(s.accuracy(), 0);
    let s = Stats { correct: 1, incorrect: 1, total: 2 };
    assert_eq!(s.accuracy(), 50);
    let s = Stats { correct: 2, incorrect: 1, total: 3 };
    assert_eq!(s.accuracy(), 66);
}

#[test]
fn selecting_from_empty_catalog_stays_in_selection() {
    let mut app = App::new(vec![]);
    app.select_dictionary();
    app.next_dict();
    app.prev_dict();
    assert_eq!(app.state, AppState::SelectDictionary);
    assert!(app.current_dict.is_none());
    assert_eq!(app.selected_dict_index, 0);
}

#[test]
fn navigation_wraps() {
    let mut app = App::new(vec![("a".to_string(), git_set()), ("b".to_string(), git_set())]);
    app.prev_dict();
    assert_eq!(app.selected_dict_index, 1);
    app.next_dict();
    assert_eq!(app.selected_dict_index, 0);
    app.next_dict();
    assert_eq!(app.selected_dict_index, 1);
}

#[test]
fn set_without_questions_is_not_started() {
    let mut empty = git_set();
    empty.items.clear();
    let mut app = App::new(vec![("a".to_string(), empty)]);
    app.select_dictionary();
    assert_eq!(app.state, AppState::SelectDictionary);
    assert!(app.current_dict.is_none());
}

#[test]
fn full_pass_reaches_results() {
    let mut app = App::new(vec![("a".to_string(), git_set())]);
    app.select_dictionary();
    assert_eq!(app.state, AppState::Training);
    assert_eq!(app.current_dict.as_ref().unwrap().name, "git");
    type_text(&mut app, " git st ");
    app.submit_answer();
    assert_eq!(app.feedback, Some((true, "Correct!".to_string())));
    assert_eq!(app.input, "");
    // a second submit while feedback is shown does nothing
    type_text(&mut app, "x");
    app.submit_answer();
    assert_eq!(app.stats.total, 1);
    app.input.clear();
    app.next_question();
    assert_eq!(app.feedback, None);
    assert_eq!(app.current_item_index, 1);
    type_text(&mut app, "git add");
    app.submit_answer();
    assert_eq!(app.feedback, Some((false, "Wrong! Expected: git add .".to_string())));
    app.next_question();
    assert_eq!(app.state, AppState::Results);
    assert_eq!(app.stats.correct, 1);
    assert_eq!(app.stats.incorrect, 1);
    assert_eq!(app.stats.total, 2);
    assert_eq!(app.stats.accuracy(), 50);
    app.back_to_menu();
    assert_eq!(app.state, AppState::SelectDictionary);
    assert_eq!(app.stats.total, 0);
    assert!(app.current_dict.is_none());
}

#[test]
fn empty_answer_is_not_submitted() {
    let mut app = App::new(vec![("a".to_string(), git_set())]);
    app.select_dictionary();
    app.submit_answer();
    assert!(app.feedback.is_none());
    assert_eq!(app.stats.total, 0);
}

#[test]
fn keys_drive_a_full_pass() {
    let mut app = App::new(vec![("a".to_string(), git_set()), ("b".to_string(), git_set())]);
    app.handle_key(Key::Down);
    assert_eq!(app.selected_dict_index, 1);
    app.handle_key(Key::Up);
    assert_eq!(app.selected_dict_index, 0);
    app.handle_key(Key::Enter);
    assert_eq!(app.state, AppState::Training);
    for c in "git sx".chars() {
        app.handle_key(Key::Char(c));
    }
    app.handle_key(Key::Backspace);
    app.handle_key(Key::Char('t'));
    assert_eq!(app.input, "git st");
    app.handle_key(Key::Enter);
    assert_eq!(app.feedback, Some((true, "Correct!".to_string())));
    // while feedback is shown, characters are ignored
    app.handle_key(Key::Char('z'));
    assert_eq!(app.input, "");
    app.handle_key(Key::Enter);
    assert_eq!(app.current_item_index, 1);
    assert!(app.feedback.is_none());
    // 'q' is an ordinary character while typing
    app.handle_key(Key::Char('q'));
    assert!(!app.should_quit);
    app.handle_key(Key::Enter);
    assert_eq!(app.feedback, Some((false, "Wrong! Expected: git add .".to_string())));
    app.handle_key(Key::Enter);
    assert_eq!(app.state, AppState::Results);
    assert_eq!(app.stats.accuracy(), 50);
    app.handle_key(Key::Enter);
    assert_eq!(app.state, AppState::SelectDictionary);
    app.handle_key(Key::Char('q'));
    assert!(app.should_quit);
}

#[test]
fn escape_leaves_the_pass() {
    let mut app = App::new(vec![("a".to_string(), git_set())]);
    app.handle_key(Key::Enter);
    app.handle_key(Key::Char('g'));
    app.handle_key(Key::Esc);
    assert_eq!(app.state, AppState::SelectDictionary);
    assert!(app.current_dict.is_none());
    assert_eq!(app.input, "");
    app.handle_key(Key::Other);
    assert_eq!(app.state, AppState::SelectDictionary);
}
