use dox::naming::NamingRule;
use dox::naming::apply_rule;
use dox::naming::parse_rule;
use dox::naming::rename_field;
use dox::naming::resolve_name;

#[test]
fn test_rename_field() {
    assert_eq!(rename_field("test_field", "lowercase"), "test_field");
    assert_eq!(rename_field("test_field", "UPPERCASE"), "TEST_FIELD");
    assert_eq!(rename_field("test_field", "PascalCase"), "TestField");
    assert_eq!(rename_field("test_field", "camelCase"), "testField");
    assert_eq!(rename_field("test_field", "snake_case"), "test_field");
    assert_eq!(rename_field("test_field", "SCREAMING_SNAKE_CASE"), "TEST_FIELD");
    assert_eq!(rename_field("test_field", "kebab-case"), "test-field");
    assert_eq!(rename_field("test_field", "SCREAMING-KEBAB-CASE"), "TEST-FIELD");
    assert_eq!(rename_field("TestField", "snake_case"), "test_field");
    assert_eq!(rename_field("testField", "snake_case"), "test_field");
    assert_eq!(rename_field("TestField", "SCREAMING_SNAKE_CASE"), "TEST_FIELD");
}

#[test]
fn test_apply_rule_empty() {
    let rules = [
        NamingRule::Lower,
        NamingRule::Upper,
        NamingRule::Pascal,
        NamingRule::Camel,
        NamingRule::Snake,
        NamingRule::ScreamingSnake,
        NamingRule::Kebab,
        NamingRule::ScreamingKebab,
    ];
    for rule in rules {
        assert_eq!(apply_rule("", rule), "");
    }
}

#[test]
fn test_apply_rule_pairs() {
    assert_eq!(apply_rule("test_field", NamingRule::Upper), "TEST_FIELD");
    assert_eq!(apply_rule("test_field", NamingRule::Pascal), "TestField");
    assert_eq!(apply_rule("test_field", NamingRule::Camel), "testField");
    assert_eq!(apply_rule("TestField", NamingRule::Snake), "test_field");
    assert_eq!(apply_rule("testField", NamingRule::Snake), "test_field");
    assert_eq!(apply_rule("test_field", NamingRule::Kebab), "test-field");
    assert_eq!(apply_rule("test_field", NamingRule::ScreamingKebab), "TEST-FIELD");
    assert_eq!(apply_rule("TEST_FIELD", NamingRule::Lower), "test_field");
}

#[test]
fn test_snake_idempotent_examples() {
    let inputs = ["TestField", "testField", "already_snake", "HTTPServer", "test_Field", "A", ""];
    for x in inputs {
        let once = apply_rule(x, NamingRule::Snake);
        let twice = apply_rule(&once, NamingRule::Snake);
        assert_eq!(twice, once);
    }
}

#[test]
fn test_resolve_name_priority() {
    // explicit override wins over a rule
    assert_eq!(resolve_name("test_field", Some("renamed"), Some(NamingRule::Upper)), "renamed");
    // explicit override wins with no rule set
    assert_eq!(resolve_name("test_field", Some("renamed"), None), "renamed");
    // no override: the rule applies
    assert_eq!(resolve_name("test_field", None, Some(NamingRule::Upper)), "TEST_FIELD");
    // neither: the identifier passes through unchanged
    assert_eq!(resolve_name("test_field", None, None), "test_field");
}

#[test]
fn test_rename_field_unknown_rule() {
    // a malformed directive falls back to the identity transform
    assert_eq!(rename_field("test_field", "no_such_rule"), "test_field");
    assert_eq!(rename_field("test_field", ""), "test_field");
    assert_eq!(rename_field("test_field", "Snake_Case"), "test_field");
}

#[test]
fn test_parse_rule() {
    assert_eq!(parse_rule("lowercase"), Some(NamingRule::Lower));
    assert_eq!(parse_rule("UPPERCASE"), Some(NamingRule::Upper));
    assert_eq!(parse_rule("PascalCase"), Some(NamingRule::Pascal));
    assert_eq!(parse_rule("camelCase"), Some(NamingRule::Camel));
    assert_eq!(parse_rule("snake_case"), Some(NamingRule::Snake));
    assert_eq!(parse_rule("SCREAMING_SNAKE_CASE"), Some(NamingRule::ScreamingSnake));
    assert_eq!(parse_rule("kebab-case"), Some(NamingRule::Kebab));
    assert_eq!(parse_rule("SCREAMING-KEBAB-CASE"), Some(NamingRule::ScreamingKebab));
    assert_eq!(parse_rule("PASCALCASE"), None);
    assert_eq!(parse_rule(""), None);
}

#[test]
fn test_non_ascii_passes_through() {
    // case folding is ASCII-only: other characters pass through unchanged
    assert_eq!(apply_rule("héllo", NamingRule::Upper), "HéLLO");
    assert_eq!(apply_rule("héllo", NamingRule::Snake), "héllo");
}
