use s21_hijack::help::{
    available_languages, english, english_template_json, help, key_id, language_name,
    load_locales, locale_file_code, locale_from_entries, parse_locale, set_active_language,
    HelpState, Locale, LocaleError, ENGLISH_CODE,
};
use s21_hijack::help_catalog::{all_keys, HelpKey};
use std::collections::HashSet;

fn locale(code: &str, name: &str, entries: &[(&str, &str)]) -> Locale {
    Locale {
        code: code.to_string(),
        name: name.to_string(),
        map: entries.iter().map(|(k, v)| (k.to_string(), v.to_string())).collect(),
    }
}

#[test]
fn key_ids_are_unique_and_nonempty() {
    let mut seen = HashSet::new();
    for key in all_keys() {
        let id = key_id(key);
        assert!(!id.is_empty(), "{key:?} has an empty id");
        assert!(seen.insert(id), "duplicate help id: {id}");
        assert!(!english(key).is_empty(), "{key:?} has empty English text");
    }
}

#[test]
fn active_language_resolution_and_fallback() {
    let mut state = HelpState::new();
    set_active_language(&mut state, "");
    assert_eq!(help(&state, HelpKey::CueUndo), english(HelpKey::CueUndo));

    state.active = Some(locale("fr", "Français", &[(key_id(HelpKey::CueUndo), "Annuler")]));

    assert_eq!(help(&state, HelpKey::CueUndo), "Annuler");
    assert_eq!(help(&state, HelpKey::CueGo), english(HelpKey::CueGo));

    set_active_language(&mut state, "zz");
    assert_eq!(help(&state, HelpKey::CueUndo), english(HelpKey::CueUndo));
    set_active_language(&mut state, ENGLISH_CODE);
    assert_eq!(help(&state, HelpKey::CueUndo), english(HelpKey::CueUndo));
}

#[test]
fn parse_locale_extracts_name_and_translations() {
    let json = r#"{ "_name": "Français", "cue.undo": "Annuler" }"#;
    let loc = parse_locale("fr", json).ok().unwrap();
    assert_eq!(loc.code, "fr");
    assert_eq!(loc.name, "Français");
    assert_eq!(loc.get(key_id(HelpKey::CueUndo)), Some("Annuler"));
    assert_eq!(loc.get(key_id(HelpKey::CueGo)), None);
}

#[test]
fn parse_locale_without_name_uses_code() {
    let loc = parse_locale("de", "{}").ok().unwrap();
    assert_eq!(loc.name, "de");
}

#[test]
fn parse_locale_rejects_non_string_objects() {
    assert!(matches!(parse_locale("fr", "[1, 2]"), Err(LocaleError::Json(_))));
    assert!(matches!(parse_locale("fr", r#"{ "cue.undo": 3 }"#), Err(LocaleError::Json(_))));
    assert!(matches!(parse_locale("fr", "{ not json"), Err(LocaleError::Json(_))));
}

#[test]
fn entries_build_a_locale_without_json() {
    let loc = locale_from_entries(
        "fr",
        vec![("_name".to_string(), "Français".to_string()), ("cue.undo".to_string(), "Annuler".to_string())],
    );
    assert_eq!(loc.name, "Français");
    assert_eq!(loc.get("cue.undo"), Some("Annuler"));
}

#[test]
fn english_template_is_valid_json_with_every_key() {
    let json = english_template_json();
    let parsed: std::collections::HashMap<String, String> =
        serde_json::from_str(&json).expect("template must be valid JSON");
    assert_eq!(parsed.len(), all_keys().len() + 1);
    for key in all_keys() {
        assert_eq!(parsed.get(key_id(key)).map(String::as_str), Some(english(key)), "template missing/mismatched for {key:?}");
    }
}

#[test]
fn english_template_parses_back_as_a_complete_locale() {
    let loc = parse_locale("en-copy", &english_template_json()).ok().unwrap();
    assert_eq!(loc.name, "English");
    for key in all_keys() {
        assert_eq!(loc.get(key_id(key)), Some(english(key)));
    }
}

#[test]
fn reference_files_are_not_loaded_as_languages() {
    assert_eq!(locale_file_code(Some("json"), Some("template")), None);
    assert_eq!(locale_file_code(Some("json"), Some("Template")), None);
    assert_eq!(locale_file_code(Some("json"), Some("en")), None);
    assert_eq!(locale_file_code(Some("json"), Some("EN")), None);
    assert_eq!(locale_file_code(Some("txt"), Some("fr")), None);
    assert_eq!(locale_file_code(None, Some("fr")), None);
    assert_eq!(locale_file_code(Some("json"), Some("fr")), Some("fr".to_string()));
}

#[test]
fn later_locale_file_wins_and_list_is_sorted_by_name() {
    let mut state = HelpState::new();
    load_locales(
        &mut state,
        vec![
            locale("fr", "Français (old)", &[]),
            locale("de", "Deutsch", &[]),
            locale("FR", "Français", &[("cue.go", "Rappeler le cue suivant.")]),
            locale("es", "español", &[]),
        ],
    );
    let codes: Vec<&str> = state.locales.iter().map(|l| l.code.as_str()).collect();
    assert_eq!(codes, vec!["de", "es", "FR"]);
    let langs = available_languages(&state);
    assert_eq!(langs[0], ("en".to_string(), "English".to_string()));
    assert_eq!(langs.len(), 4);
    assert_eq!(language_name(&state, "fr"), "Français");
    assert_eq!(language_name(&state, "EN"), "English");
    assert_eq!(language_name(&state, "xx"), "xx");
    set_active_language(&mut state, "fr");
    assert_eq!(help(&state, HelpKey::CueGo), "Rappeler le cue suivant.");
    load_locales(&mut state, vec![locale("it", "Italiano", &[])]);
    assert_eq!(state.locales.len(), 3);
}

#[test]
fn duplicate_entry_last_wins() {
    let loc = locale_from_entries(
        "fr",
        vec![
            ("cue.go".to_string(), "un".to_string()),
            ("_name".to_string(), "A".to_string()),
            ("cue.go".to_string(), "deux".to_string()),
            ("_name".to_string(), "B".to_string()),
        ],
    );
    assert_eq!(loc.get("cue.go"), Some("deux"));
    assert_eq!(loc.name, "B");
    assert_eq!(loc.get("_name"), None);
}

#[test]
fn english_template_is_sorted_by_id_with_name_first() {
    let json = english_template_json();
    let name_at = json.find("\"_name\"").unwrap();
    let first_id = json.find("\"advanced.diagnostics\"").unwrap();
    assert!(name_at < first_id);
    assert!(json.find("\"app.dismiss\"").unwrap() > first_id);
}
