use foo_fight::dict::{default_language, DictItem, DictMeta, Dictionary, LoadError};
use foo_fight::dictionary::DictionaryItem;

fn single_item_set(aliases: Vec<String>) -> Dictionary {
    Dictionary {
        name: "test".to_string(),
        version: 1,
        language: "en".to_string(),
        items: vec![DictItem {
            id: "test1".to_string(),
            prompt: "Test prompt".to_string(),
            answer: "git status".to_string(),
            aliases,
            tags: vec![],
            difficulty: 1,
        }],
    }
}

#[test]
fn test_validate_answer_exact() {
    let dict = single_item_set(vec![]);
    assert!(dict.validate_answer(0, "git status"));
    assert!(dict.validate_answer(0, "  git status  "));
    assert!(!dict.validate_answer(0, "git"));
}

#[test]
fn test_validate_answer_with_aliases() {
    let dict = single_item_set(vec!["git st".to_string()]);
    assert!(dict.validate_answer(0, "git status"));
    assert!(dict.validate_answer(0, "git st"));
    assert!(!dict.validate_answer(0, "git"));
}

#[test]
fn validate_answer_out_of_range_is_false() {
    let dict = single_item_set(vec![]);
    assert!(!dict.validate_answer(1, "git status"));
}

#[test]
fn matching_is_case_and_spacing_sensitive() {
    let dict = single_item_set(vec!["git st".to_string()]);
    assert!(!dict.validate_answer(0, "Git Status"));
    assert!(!dict.validate_answer(0, "git  status"));
    assert!(!dict.validate_answer(0, "GIT ST"));
    assert!(!dict.validate_answer(0, ""));
}

#[test]
fn trimmed_alias_matches() {
    let dict = single_item_set(vec!["  git st\t".to_string()]);
    assert!(dict.validate_answer(0, "git st"));
    assert!(dict.items[0].matches("\n git st "));
}

#[test]
fn trimmed_answer_on_item_side() {
    let mut dict = single_item_set(vec![]);
    dict.items[0].answer = "  git status\n".to_string();
    assert!(dict.validate_answer(0, "git status"));
}

#[test]
fn default_language_is_en() {
    assert_eq!(default_language(), "en");
}

#[test]
fn empty_set_is_refused() {
    let mut dict = single_item_set(vec![]);
    dict.items.clear();
    assert!(matches!(dict.into_usable(), Err(LoadError::NoItems)));
    let dict = single_item_set(vec![]);
    let usable = dict.into_usable();
    assert!(matches!(usable, Ok(ref d) if d.items.len() == 1 && d.name == "test"));
}

#[test]
fn meta_name_fallbacks() {
    let m = DictMeta::from_scan("a.toml".to_string(), Some("Git".to_string()), Some("a".to_string()));
    assert_eq!(m.name, "Git");
    assert_eq!(m.path, "a.toml");
    let m = DictMeta::from_scan("a.toml".to_string(), None, Some("a".to_string()));
    assert_eq!(m.name, "a");
    let m = DictMeta::from_scan("x".to_string(), None, None);
    assert_eq!(m.name, "Unknown");
}

#[test]
fn question_item_matching() {
    let item = DictionaryItem {
        question: "Show the working tree status".to_string(),
        command: "git status".to_string(),
        aliases: vec!["git st".to_string()],
    };
    assert!(item.is_correct("  git status "));
    assert!(item.is_correct("git st"));
    assert!(!item.is_correct("git"));
    assert!(!item.is_correct("Git Status"));
    let copy = item.duplicate();
    assert_eq!(copy.question, item.question);
    assert_eq!(copy.command, item.command);
    assert_eq!(copy.aliases, item.aliases);
}

#[test]
fn incomplete_item_is_malformed() {
    let mut dict = single_item_set(vec![]);
    dict.items[0].answer = String::new();
    assert!(matches!(dict.into_usable(), Err(LoadError::Malformed(_))));
    let mut dict = single_item_set(vec![]);
    dict.items[0].id = String::new();
    assert!(matches!(dict.into_usable(), Err(LoadError::Malformed(_))));
    let mut dict = single_item_set(vec![]);
    let second = DictItem { prompt: String::new(), ..dict.items[0].clone() };
    dict.items.push(second);
    assert!(matches!(dict.into_usable(), Err(LoadError::Malformed(_))));
}
