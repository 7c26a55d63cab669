use kill_zen_all::config::{
    char_from_json, exclusions_from_json, load_exclusion_list, load_replacements, rule_from_json,
    rules_from_json, ConfigError,
};
use kill_zen_all::fingerprint::calculate_hash;
use kill_zen_all::json::{Field, Json};
use kill_zen_all::rules::Replacement;

fn text(s: &str) -> Json {
    Json::Text(s.to_string())
}

fn field(name: &str, value: Json) -> Field {
    Field {
        name: name.to_string(),
        value,
    }
}

#[test]
fn test_load_replacements() {
    let test_data = r#"
        [
            {"original": "foo", "replacement": "bar"},
            {"original": "baz", "replacement": "qux"}
        ]
        "#;

    let replacements = load_replacements(Ok(test_data)).unwrap();
    assert_eq!(replacements.len(), 2);
    assert_eq!(replacements[0].original, "foo");
    assert_eq!(replacements[0].replacement, "bar");
    assert_eq!(replacements[1].original, "baz");
    assert_eq!(replacements[1].replacement, "qux");
}

#[test]
fn test_load_replacements_no_file() {
    let file_path = "nonexistent.json";
    let result = load_replacements(Err(file_path));
    assert!(result.is_err());
}

#[test]
fn test_load_replacements_invalid_json() {
    let test_data = r#"
        [
            {"original": "foo", "replacement": "bar"},
            {"original": "baz", "replacement": "qux"}
        "#;

    let result = load_replacements(Ok(test_data));
    println!("{:?}", result);
    assert!(result.is_err());
}

#[test]
fn test_load_exclusion_list() {
    let test_data = r#"
        {
            "exclude": ["！", "？"]
        }
        "#;

    let exclusions = load_exclusion_list(Ok(test_data)).unwrap();
    assert_eq!(exclusions.len(), 2);
    assert_eq!(exclusions[0], '！');
    assert_eq!(exclusions[1], '？');
}

#[test]
fn test_load_exclusion_list_no_file() {
    let file_path = "nonexistent.json";
    let result = load_exclusion_list(Err(file_path));
    assert!(result.is_err());
}

#[test]
fn test_load_exclusion_list_invalid_json() {
    let test_data = r#"
        {
            "exclude": ["！", "？
        }
        "#;

    let result = load_exclusion_list(Ok(test_data));
    assert!(result.is_err());
}

#[test]
fn unread_files_are_read_errors() {
    assert_eq!(load_replacements(Err("denied")).unwrap_err(), ConfigError::Read);
    assert_eq!(load_exclusion_list(Err("denied")).unwrap_err(), ConfigError::Read);
}

#[test]
fn malformed_documents_are_parse_errors() {
    assert_eq!(load_replacements(Ok("[")).unwrap_err(), ConfigError::Parse);
    assert_eq!(load_replacements(Ok("")).unwrap_err(), ConfigError::Parse);
    assert_eq!(load_replacements(Ok("[] x")).unwrap_err(), ConfigError::Parse);
    assert_eq!(load_exclusion_list(Ok("{\"exclude\": [")).unwrap_err(), ConfigError::Parse);
}

#[test]
fn documents_of_another_shape_are_parse_errors() {
    assert_eq!(load_replacements(Ok("{}")).unwrap_err(), ConfigError::Parse);
    assert_eq!(load_replacements(Ok("[1]")).unwrap_err(), ConfigError::Parse);
    assert_eq!(
        load_replacements(Ok(r#"[{"original": "a"}]"#)).unwrap_err(),
        ConfigError::Parse
    );
    assert_eq!(
        load_replacements(Ok(r#"[{"original": "a", "replacement": 1}]"#)).unwrap_err(),
        ConfigError::Parse
    );
    assert_eq!(
        load_replacements(Ok(r#"[{"original": "a", "replacement": null}]"#)).unwrap_err(),
        ConfigError::Parse
    );
    assert_eq!(load_exclusion_list(Ok("[]")).unwrap_err(), ConfigError::Parse);
    assert_eq!(load_exclusion_list(Ok("{}")).unwrap_err(), ConfigError::Parse);
    assert_eq!(
        load_exclusion_list(Ok(r#"{"exclude": "!"}"#)).unwrap_err(),
        ConfigError::Parse
    );
    assert_eq!(
        load_exclusion_list(Ok(r#"{"exclude": ["ab"]}"#)).unwrap_err(),
        ConfigError::Parse
    );
    assert_eq!(
        load_exclusion_list(Ok(r#"{"exclude": [""]}"#)).unwrap_err(),
        ConfigError::Parse
    );
    assert_eq!(
        load_exclusion_list(Ok(r#"{"exclude": [1]}"#)).unwrap_err(),
        ConfigError::Parse
    );
}

#[test]
fn empty_documents_of_the_right_shape_load() {
    assert!(load_replacements(Ok("[]")).unwrap().is_empty());
    assert!(load_exclusion_list(Ok(r#"{"exclude": []}"#)).unwrap().is_empty());
}

#[test]
fn other_fields_are_ignored() {
    let rules = load_replacements(Ok(
        r#"[{"note": [1, 2.5, true, null, {"x": "y"}], "replacement": "b", "original": "a"}]"#,
    ))
    .unwrap();
    assert_eq!(rules.len(), 1);
    assert_eq!(rules[0].original, "a");
    assert_eq!(rules[0].replacement, "b");
    let exclusions =
        load_exclusion_list(Ok(r#"{"comment": "kept wide", "exclude": ["　", "〜"]}"#)).unwrap();
    assert_eq!(exclusions, vec!['　', '〜']);
}

#[test]
fn escapes_are_decoded_before_the_shape_is_checked() {
    let exclusions = load_exclusion_list(Ok(r#"{"exclude": ["！", "\n"]}"#)).unwrap();
    assert_eq!(exclusions, vec!['！', '\n']);
    let rules =
        load_replacements(Ok(r#"[{"original": "、", "replacement": ", "}]"#)).unwrap();
    assert_eq!(rules[0].original, "、");
}

#[test]
fn duplicate_rules_are_kept_in_order() {
    let rules = load_replacements(Ok(
        r#"[{"original": "a", "replacement": "b"}, {"original": "a", "replacement": "c"}]"#,
    ))
    .unwrap();
    assert_eq!(rules.len(), 2);
    assert_eq!(rules[1].replacement, "c");
}

#[test]
fn rules_are_decoded_from_a_tree() {
    let doc = Json::List(vec![Json::Object(vec![
        field("original", text("foo")),
        field("replacement", text("bar")),
    ])]);
    let rules = rules_from_json(&doc).unwrap();
    assert_eq!(rules.len(), 1);
    assert_eq!(rules[0].original, "foo");
    assert_eq!(rules[0].replacement, "bar");

    let first_wins = Json::Object(vec![
        field("original", text("one")),
        field("original", text("two")),
        field("replacement", text("r")),
    ]);
    assert_eq!(rule_from_json(&first_wins).unwrap().original, "one");

    assert!(rule_from_json(&Json::Null).is_none());
    assert!(rule_from_json(&Json::Object(vec![field("original", text("a"))])).is_none());
    assert_eq!(rules_from_json(&Json::Null).unwrap_err(), ConfigError::Parse);
    assert_eq!(
        rules_from_json(&Json::List(vec![Json::Bool(true)])).unwrap_err(),
        ConfigError::Parse
    );
    assert_eq!(
        rules_from_json(&Json::Object(vec![])).unwrap_err(),
        ConfigError::Parse
    );
}

#[test]
fn exclusions_are_decoded_from_a_tree() {
    let doc = Json::Object(vec![field(
        "exclude",
        Json::List(vec![text("！"), text("？")]),
    )]);
    assert_eq!(exclusions_from_json(&doc).unwrap(), vec!['！', '？']);
    assert_eq!(char_from_json(&text("a")), Some('a'));
    assert_eq!(char_from_json(&text("")), None);
    assert_eq!(char_from_json(&text("ab")), None);
    assert_eq!(char_from_json(&Json::Number("1".to_string())), None);
    let wrong = Json::Object(vec![field("exclude", Json::List(vec![text("a"), text("bc")]))]);
    assert_eq!(exclusions_from_json(&wrong).unwrap_err(), ConfigError::Parse);
    assert_eq!(
        exclusions_from_json(&Json::List(vec![])).unwrap_err(),
        ConfigError::Parse
    );
}

#[test]
fn equal_content_has_equal_fingerprints() {
    let a = load_replacements(Ok(r#"[{"original": "a", "replacement": "b"}]"#)).unwrap();
    let b = load_replacements(Ok(
        "[\n  { \"replacement\": \"b\", \"original\": \"a\" }\n]\n",
    ))
    .unwrap();
    assert_eq!(calculate_hash(&a), calculate_hash(&b));
    assert_eq!(calculate_hash(&vec!['！', '？']), calculate_hash(&vec!['！', '？']));
}

#[test]
fn fingerprints_tell_contents_apart() {
    let one = vec![Replacement {
        original: "ab".to_string(),
        replacement: "c".to_string(),
    }];
    let other = vec![Replacement {
        original: "a".to_string(),
        replacement: "bc".to_string(),
    }];
    assert_ne!(calculate_hash(&one), calculate_hash(&other));
    let none: Vec<Replacement> = vec![];
    assert_ne!(calculate_hash(&none), calculate_hash(&one));
    assert_ne!(calculate_hash(&vec!['！', '？']), calculate_hash(&vec!['？', '！']));
    assert_ne!(calculate_hash(&vec!['！']), calculate_hash(&vec!['！', '！']));
    let no_chars: Vec<char> = vec![];
    assert_ne!(calculate_hash(&no_chars), calculate_hash(&vec!['\0']));
}
