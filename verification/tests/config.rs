use git_ai::config::{ConfigManager, KeyStep, FILE_NAME, KEY_NAME, KEY_PROMPT};
use ini::Ini;

#[test]
fn the_names_of_the_configuration() {
    assert_eq!(FILE_NAME, "git_ai.ini");
    assert_eq!(KEY_NAME, "OPENAI_API_KEY");
    assert_eq!(KEY_PROMPT, "Please enter your OpenAI API key: ");
}

#[test]
fn init_stores_the_trimmed_entry() {
    let conf = ConfigManager::init("  sk-test-123 \n");
    assert_eq!(conf.get_from(None::<String>, "OPENAI_API_KEY"), Some("sk-test-123"));
    assert_eq!(conf.general_section().len(), 1);
    assert_eq!(conf.len(), 1);
}

#[test]
fn init_writes_one_line() {
    let conf = ConfigManager::init("abc\n");
    let mut written: Vec<u8> = Vec::new();
    conf.write_to(&mut written).unwrap();
    let text = String::from_utf8(written).unwrap();
    assert_eq!(text.trim_end(), "OPENAI_API_KEY=abc");
}

#[test]
fn a_stored_key_is_read_back() {
    let conf = ConfigManager::init("abc\n");
    assert_eq!(ConfigManager::api_key(Some(&conf)), Some(String::from("abc")));
}

#[test]
fn api_key_reads_the_general_section_only() {
    let conf = Ini::load_from_str("OPENAI_API_KEY=first\n[other]\nOPENAI_API_KEY=second\n").unwrap();
    assert_eq!(ConfigManager::api_key(Some(&conf)), Some(String::from("first")));
    let sectioned = Ini::load_from_str("[other]\nOPENAI_API_KEY=second\n").unwrap();
    assert_eq!(ConfigManager::api_key(Some(&sectioned)), None);
}

#[test]
fn api_key_is_missing_without_file_or_key() {
    assert_eq!(ConfigManager::api_key(None), None);
    assert_eq!(ConfigManager::api_key(Some(&Ini::new())), None);
    let other = Ini::load_from_str("SOME_KEY=value\n").unwrap();
    assert_eq!(ConfigManager::api_key(Some(&other)), None);
}

#[test]
fn get_open_api_key_uses_asks_or_gives_up() {
    let conf = ConfigManager::init("abc");
    assert_eq!(ConfigManager::get_open_api_key(Some(&conf), false), KeyStep::Use(String::from("abc")));
    assert_eq!(ConfigManager::get_open_api_key(Some(&conf), true), KeyStep::Use(String::from("abc")));
    assert_eq!(ConfigManager::get_open_api_key(None, false), KeyStep::Ask);
    assert_eq!(ConfigManager::get_open_api_key(Some(&Ini::new()), false), KeyStep::Ask);
    assert_eq!(ConfigManager::get_open_api_key(None, true), KeyStep::GiveUp);
    assert_eq!(ConfigManager::get_open_api_key(Some(&Ini::new()), true), KeyStep::GiveUp);
}
