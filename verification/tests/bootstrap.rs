use kill_zen_all::bootstrap::{
    config_root, create_default_config, Provision, CONFIG_DIR_NAME, DEFAULT_EXCLUSIONS,
    DEFAULT_REPLACEMENTS,
};
use kill_zen_all::config::{
    load_exclusion_list, load_replacements, EXCLUSIONS_FILE_NAME, REPLACEMENTS_FILE_NAME,
};

#[test]
fn config_root_prefers_the_override() {
    assert_eq!(config_root(Some("/x"), Some("/home/u/.config")), Some("/x"));
    assert_eq!(config_root(None, Some("/home/u/.config")), Some("/home/u/.config"));
    assert_eq!(config_root(Some("/x"), None), Some("/x"));
    assert_eq!(config_root::<&str>(None, None), None);
    assert_eq!(CONFIG_DIR_NAME, "kill-zen-all");
}

#[test]
fn first_run_creates_what_is_missing() {
    assert_eq!(
        create_default_config(false, false, false),
        vec![
            Provision::CreateDirectory,
            Provision::WriteReplacements,
            Provision::WriteExclusions
        ]
    );
    assert_eq!(create_default_config(true, true, true), vec![]);
    assert_eq!(
        create_default_config(true, false, true),
        vec![Provision::WriteReplacements]
    );
    assert_eq!(
        create_default_config(true, true, false),
        vec![Provision::WriteExclusions]
    );
    assert_eq!(
        create_default_config(false, true, true),
        vec![Provision::CreateDirectory]
    );
}

#[test]
fn provisions_carry_their_content() {
    assert_eq!(Provision::CreateDirectory.content(), None);
    assert_eq!(Provision::WriteReplacements.content(), Some(DEFAULT_REPLACEMENTS));
    assert_eq!(Provision::WriteExclusions.content(), Some(DEFAULT_EXCLUSIONS));
    assert_eq!(REPLACEMENTS_FILE_NAME, "replacements.json");
    assert_eq!(EXCLUSIONS_FILE_NAME, "exclusions.json");
}

#[test]
fn test_create_default_config() {
    let steps = create_default_config(false, false, false);
    assert!(steps.contains(&Provision::WriteReplacements), "replacements.json is not written");
    assert!(steps.contains(&Provision::WriteExclusions), "exclusions.json is not written");

    let expected_replacements_content = r#"[
  { "original": "，", "replacement": ", " },
  { "original": "．", "replacement": ". " },
  { "original": "CRLF", "replacement": "。" },
  { "original": "頚", "replacement": "頸" }
]"#
    .trim();
    assert_eq!(DEFAULT_REPLACEMENTS.trim(), expected_replacements_content);

    let expected_exclusions_content = r#"{
  "exclude": ["　", "！", "？", "〜", "～"]
}"#
    .trim();
    assert_eq!(DEFAULT_EXCLUSIONS.trim(), expected_exclusions_content);
}

#[test]
fn default_files_load() {
    let rules = load_replacements(Ok(DEFAULT_REPLACEMENTS)).unwrap();
    assert_eq!(rules.len(), 4);
    assert_eq!(rules[0].original, "，");
    assert_eq!(rules[0].replacement, ", ");
    assert_eq!(rules[3].original, "頚");
    assert_eq!(rules[3].replacement, "頸");
    let exclusions = load_exclusion_list(Ok(DEFAULT_EXCLUSIONS)).unwrap();
    assert_eq!(exclusions, vec!['　', '！', '？', '〜', '～']);
}
