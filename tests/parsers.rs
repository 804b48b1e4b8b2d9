use buildor::commands::{Commands, CommandsParser};
use buildor::document::{AttributeValue, Document};
use buildor::project::ProjectParser;
use buildor::user::UsersParser;

fn text(v: &str) -> AttributeValue {
    AttributeValue::S(v.to_string())
}

#[test]
fn parse_fails_on_missing_pre_build_command() {
    let input = Document::new();
    match CommandsParser::parse(input) {
        Err(error) => assert_eq!(error.to_string(), "Missing required command: pre_build"),
        _ => assert_eq!("", "Should have panicked but it did not"),
    }
}

#[test]
fn parse_fails_on_missing_build_command() {
    let mut input = Document::new();
    input.insert("pre_build".to_owned(), AttributeValue::L(vec![text("command1")]));
    match CommandsParser::parse(input) {
        Err(error) => assert_eq!(error.to_string(), "Missing required command: build"),
        _ => assert_eq!("", "Should have panicked but it did not"),
    }
}

#[test]
fn projects_fails_on_missing_uuid() {
    let input = Document::new();
    match ProjectParser::parse(input) {
        Err(error) => assert_eq!(error.to_string(), "Missing model property: uuid"),
        _ => assert_eq!("", "Should have panicked but it did not"),
    }
}

#[test]
fn fails_on_missing_name() {
    let mut input = Document::new();
    input.insert("uuid".to_string(), text("uuid-value"));
    match ProjectParser::parse(input) {
        Err(error) => assert_eq!(error.to_string(), "Missing model property: name"),
        _ => assert_eq!("", "Should have panicked but it did not"),
    }
}

#[test]
fn fails_on_missing_repository() {
    let mut input = Document::new();
    input.insert("uuid".to_string(), text("uuid-value"));
    input.insert("name".to_string(), text("name-value"));
    match ProjectParser::parse(input) {
        Err(error) => assert_eq!(error.to_string(), "Missing model property: repository"),
        _ => assert_eq!("", "Should have panicked but it did not"),
    }
}

#[test]
fn fails_on_missing_commands() {
    let mut input = Document::new();
    input.insert("uuid".to_string(), text("uuid-value"));
    input.insert("name".to_string(), text("name-value"));
    input.insert("repository".to_string(), text("repository-value"));
    match ProjectParser::parse(input) {
        Err(error) => assert_eq!(error.to_string(), "Missing model property: commands"),
        _ => assert_eq!("", "Should have panicked but it did not"),
    }
}

#[test]
fn fails_on_missing_output_folder() {
    let mut input = Document::new();
    input.insert("uuid".to_string(), text("uuid-value"));
    input.insert("name".to_string(), text("name-value"));
    input.insert("repository".to_string(), text("repository-value"));
    input.insert("commands".to_string(), AttributeValue::M(Commands::defaults().as_hashmap()));
    match ProjectParser::parse(input) {
        Err(error) => assert_eq!(error.to_string(), "Missing model property: output_folder"),
        _ => assert_eq!("", "Should have panicked but it did not"),
    }
}

#[test]
fn fails_on_missing_last_published() {
    let mut input = Document::new();
    input.insert("uuid".to_string(), text("uuid-value"));
    input.insert("name".to_string(), text("name-value"));
    input.insert("repository".to_string(), text("repository-value"));
    input.insert("commands".to_string(), AttributeValue::M(Commands::defaults().as_hashmap()));
    input.insert("output_folder".to_string(), text("output-folder-value"));
    match ProjectParser::parse(input) {
        Err(error) => assert_eq!(error.to_string(), "Missing model property: last_published"),
        _ => assert_eq!("", "Should have panicked but it did not"),
    }
}

#[test]
fn users_fails_on_missing_uuid() {
    let input = Document::new();
    match UsersParser::parse(input) {
        Err(error) => assert_eq!(error.to_string(), "Missing model property: uuid"),
        _ => assert_eq!("", "Should have panicked but it did not"),
    }
}

#[test]
fn fails_on_missing_fname() {
    let mut input = Document::new();
    input.insert("uuid".to_string(), text("uuid-value"));
    match UsersParser::parse(input) {
        Err(error) => assert_eq!(error.to_string(), "Missing model property: fname"),
        _ => assert_eq!("", "Should have panicked but it did not"),
    }
}

#[test]
fn fails_on_missing_lname() {
    let mut input = Document::new();
    input.insert("uuid".to_string(), text("uuid-value"));
    input.insert("fname".to_string(), text("fname-value"));
    match UsersParser::parse(input) {
        Err(error) => assert_eq!(error.to_string(), "Missing model property: lname"),
        _ => assert_eq!("", "Should have panicked but it did not"),
    }
}

#[test]
fn fail_fast_names_first_of_two_missing_fields() {
    // `repository` and `last_published` are both absent: the earlier one is named.
    let mut input = Document::new();
    input.insert("uuid".to_string(), text("u"));
    input.insert("name".to_string(), text("n"));
    input.insert("commands".to_string(), AttributeValue::M(Commands::defaults().as_hashmap()));
    input.insert("output_folder".to_string(), text("out"));
    match ProjectParser::parse(input) {
        Err(error) => assert_eq!(error.name, "repository"),
        Ok(_) => panic!("a document without repository parsed"),
    }
}

#[test]
fn nested_commands_failure_is_dotted() {
    let mut commands = Document::new();
    commands.insert("pre_build".to_string(), AttributeValue::L(vec![text("a")]));
    let mut input = Document::new();
    input.insert("uuid".to_string(), text("u"));
    input.insert("name".to_string(), text("n"));
    input.insert("repository".to_string(), text("r"));
    input.insert("commands".to_string(), AttributeValue::M(commands));
    match ProjectParser::parse(input) {
        Err(error) => assert_eq!(error.to_string(), "Missing model property: commands.build"),
        Ok(_) => panic!("commands without build parsed"),
    }
}

#[test]
fn wrong_shape_counts_as_missing() {
    let mut input = Document::new();
    input.insert("uuid".to_string(), AttributeValue::N("7".to_string()));
    match UsersParser::parse(input) {
        Err(error) => assert_eq!(error.name, "uuid"),
        Ok(_) => panic!("a numeric uuid parsed"),
    }
}

#[test]
fn empty_command_lists_fall_back_to_defaults() {
    let mut input = Document::new();
    input.insert("pre_build".to_string(), AttributeValue::L(vec![]));
    input.insert("build".to_string(), AttributeValue::L(vec![text("make")]));
    let commands = CommandsParser::parse(input).unwrap();
    assert_eq!(commands.pre_build, vec!["npm install".to_string()]);
    assert_eq!(commands.build, vec!["make".to_string()]);
    let defaults = Commands::new(None, Some(vec![]));
    assert_eq!(defaults.pre_build, vec!["npm install".to_string()]);
    assert_eq!(defaults.build, vec!["npm run build".to_string()]);
}

#[test]
fn user_parses_and_lists_skip_bad_records() {
    let mut good = Document::new();
    for (k, v) in [("uuid", "1"), ("fname", "Ada"), ("lname", "L"), ("updated_at", "t"), ("created_at", "t")] {
        good.insert(k.to_string(), text(v));
    }
    let bad = Document::new();
    let users = UsersParser::parse_items(&vec![bad, good]);
    assert_eq!(users.len(), 1);
    assert_eq!(users[0].fname, "Ada");
}

#[test]
fn document_insert_replaces_value() {
    let mut d = Document::new();
    d.insert("k".to_string(), text("a"));
    d.insert("k".to_string(), text("b"));
    assert_eq!(d.len(), 1);
    match d.get("k") {
        Some(AttributeValue::S(s)) => assert_eq!(s, "b"),
        _ => panic!("value lost"),
    }
    assert!(d.get("missing").is_none());
}
