use libmcptool::args::{ArgValue, ArgumentSet};
use libmcptool::calltool::cmdline::parse_command_line_arguments;
use libmcptool::calltool::interactive::{Answer, Prompter};
use libmcptool::calltool::json::{arguments_from_document, parse_json_arguments, JsonDocument};
use libmcptool::calltool::ArgumentMode;
use libmcptool::connect::Rendering;
use libmcptool::error::Error;
use libmcptool::protocol::{Parameter, ToolSchema};

fn strings(list: &[&str]) -> Vec<String> {
    list.iter().map(|s| s.to_string()).collect()
}

fn text(s: &str) -> ArgValue {
    ArgValue::Text(s.to_string())
}

fn none_selected() -> Error {
    Error::Other("Must specify one of: --interactive, --json, or --arg key=value arguments".to_string())
}

fn several_selected() -> Error {
    Error::Other("Cannot combine --interactive, --json, and --arg modes".to_string())
}

#[test]
fn exactly_one_mode_is_accepted() {
    assert_eq!(
        ArgumentMode::select(strings(&["a=b"]), false, false),
        Ok(ArgumentMode::Inline(strings(&["a=b"])))
    );
    assert_eq!(ArgumentMode::select(vec![], true, false), Ok(ArgumentMode::Interactive));
    assert_eq!(ArgumentMode::select(vec![], false, true), Ok(ArgumentMode::Json));
}

#[test]
fn no_mode_is_a_usage_error() {
    assert_eq!(ArgumentMode::select(vec![], false, false), Err(none_selected()));
}

#[test]
fn more_than_one_mode_is_a_usage_error() {
    assert_eq!(ArgumentMode::select(strings(&["a=b"]), true, false), Err(several_selected()));
    assert_eq!(ArgumentMode::select(strings(&["a=b"]), false, true), Err(several_selected()));
    assert_eq!(ArgumentMode::select(vec![], true, true), Err(several_selected()));
    assert_eq!(ArgumentMode::select(strings(&["a=b"]), true, true), Err(several_selected()));
}

#[test]
fn malformed_inline_entries_do_not_hide_a_mode_conflict() {
    assert_eq!(ArgumentMode::select(strings(&["not-a-pair"]), true, false), Err(several_selected()));
    assert_eq!(
        ArgumentMode::select(strings(&["not-a-pair"]), false, false),
        Ok(ArgumentMode::Inline(strings(&["not-a-pair"])))
    );
}

#[test]
fn command_line_arguments_are_key_value_pairs() {
    let set = parse_command_line_arguments(strings(&["message=hi there", "count=3", "message=bye"])).unwrap();
    assert_eq!(set.len(), 2);
    assert_eq!(set.get("message"), Some(&text("bye")));
    assert_eq!(set.get("count"), Some(&text("3")));
}

#[test]
fn a_malformed_command_line_argument_discards_everything() {
    assert_eq!(
        parse_command_line_arguments(strings(&["good=1", "bad"])).unwrap_err(),
        Error::Format("Invalid argument format: 'bad'. Expected key=value".to_string())
    );
}

#[test]
fn a_json_object_gives_its_members() {
    let set = parse_json_arguments("{\"a\":\"b\"}").unwrap();
    assert_eq!(set.len(), 1);
    assert_eq!(set.get("a"), Some(&text("b")));
}

#[test]
fn a_json_object_agrees_with_the_inline_form_on_strings() {
    let from_json = parse_json_arguments(" { \"name\" : \"Ada\", \"city\" : \"London\" } ").unwrap();
    let inline = parse_command_line_arguments(strings(&["city=London", "name=Ada"])).unwrap();
    assert_eq!(from_json.len(), inline.len());
    assert_eq!(from_json.get("name"), inline.get("name"));
    assert_eq!(from_json.get("city"), inline.get("city"));
}

#[test]
fn json_members_keep_their_types() {
    let set = parse_json_arguments(
        "{\"n\": 42, \"f\": 1.5, \"b\": true, \"z\": null, \"l\": [1, \"two\"], \"o\": {\"k\": \"v\"}, \"s\": \"text\"}",
    )
    .unwrap();
    assert_eq!(set.len(), 7);
    let value = |t: &str| ArgValue::Json(serde_json::from_str::<serde_json::Value>(t).unwrap());
    assert_eq!(set.get("n"), Some(&value("42")));
    assert_eq!(set.get("f"), Some(&value("1.5")));
    assert_eq!(set.get("b"), Some(&value("true")));
    assert_eq!(set.get("z"), Some(&value("null")));
    assert_eq!(set.get("l"), Some(&value("[1, \"two\"]")));
    assert_eq!(set.get("o"), Some(&value("{\"k\": \"v\"}")));
    assert_eq!(set.get("s"), Some(&text("text")));
}

#[test]
fn an_empty_json_object_gives_the_empty_set() {
    let set = parse_json_arguments("{}").unwrap();
    assert!(set.is_empty());
}

#[test]
fn a_repeated_json_key_keeps_the_last_value() {
    let set = parse_json_arguments("{\"a\": \"first\", \"a\": \"second\"}").unwrap();
    assert_eq!(set.len(), 1);
    assert_eq!(set.get("a"), Some(&text("second")));
}

#[test]
fn a_json_array_is_a_format_error() {
    assert_eq!(
        parse_json_arguments("[1,2,3]").unwrap_err(),
        Error::Format("JSON arguments must be an object, found an array".to_string())
    );
}

#[test]
fn a_json_scalar_is_a_format_error() {
    assert_eq!(
        parse_json_arguments("\"x\"").unwrap_err(),
        Error::Format("JSON arguments must be an object, found a string".to_string())
    );
    assert_eq!(
        parse_json_arguments("17").unwrap_err(),
        Error::Format("JSON arguments must be an object, found a number".to_string())
    );
    assert_eq!(
        parse_json_arguments("true").unwrap_err(),
        Error::Format("JSON arguments must be an object, found a boolean".to_string())
    );
    assert_eq!(
        parse_json_arguments("null").unwrap_err(),
        Error::Format("JSON arguments must be an object, found null".to_string())
    );
}

#[test]
fn malformed_json_is_a_format_error() {
    let texts = ["", "{", "{\"a\":}", "{\"a\":\"b\"} trailing", "{'a': 'b'}", "a=b"];
    for t in texts {
        match parse_json_arguments(t) {
            Err(Error::Format(msg)) => {
                assert!(msg.starts_with("Invalid JSON: "), "{:?}: {}", t, msg);
                assert!(msg.len() > "Invalid JSON: ".len(), "{:?}", t);
            }
            other => panic!("{:?} gave {:?}", t, other),
        }
    }
}

#[test]
fn malformed_json_is_described_by_the_decoder() {
    let expected = serde_json::from_str::<serde_json::Value>("{\"a\":").unwrap_err().to_string();
    assert_eq!(
        parse_json_arguments("{\"a\":").unwrap_err(),
        Error::Format(format!("Invalid JSON: {}", expected))
    );
}

#[test]
fn documents_resolve_by_their_top_level() {
    let members = vec![
        ("a".to_string(), text("1")),
        ("b".to_string(), ArgValue::Json(serde_json::Value::Null)),
        ("a".to_string(), text("2")),
    ];
    let set = arguments_from_document(JsonDocument::Object(members)).unwrap();
    assert_eq!(set.len(), 2);
    assert_eq!(set.get("a"), Some(&text("2")));
    assert_eq!(set.get("b"), Some(&ArgValue::Json(serde_json::Value::Null)));
    let not_objects = [
        (JsonDocument::Null, "null"),
        (JsonDocument::Bool, "a boolean"),
        (JsonDocument::Number, "a number"),
        (JsonDocument::String, "a string"),
        (JsonDocument::Array, "an array"),
    ];
    for (doc, found) in not_objects {
        assert_eq!(
            arguments_from_document(doc).unwrap_err(),
            Error::Format(format!("JSON arguments must be an object, found {}", found))
        );
    }
}

fn schema() -> ToolSchema {
    ToolSchema {
        name: "greet".to_string(),
        parameters: vec![
            Parameter {
                name: "name".to_string(),
                description: Some("who to greet".to_string()),
                required: true,
            },
            Parameter { name: "title".to_string(), description: None, required: false },
            Parameter {
                name: "language".to_string(),
                description: Some("two letters".to_string()),
                required: false,
            },
        ],
    }
}

fn finished(prompter: Prompter) -> ArgumentSet {
    prompter.finish().unwrap()
}

#[test]
fn parameters_are_asked_in_schema_order_with_their_description() {
    let mut prompter = Prompter::new(schema());
    assert_eq!(prompter.prompt(), Some("name (who to greet): ".to_string()));
    assert_eq!(prompter.current().map(|p| p.name.as_str()), Some("name"));
    assert_eq!(prompter.answer("Ada"), Answer::Stored);
    assert_eq!(prompter.prompt(), Some("title: ".to_string()));
    assert_eq!(prompter.answer("Countess"), Answer::Stored);
    assert_eq!(prompter.prompt(), Some("language (two letters): ".to_string()));
    assert!(!prompter.is_done());
    assert_eq!(prompter.answer("en"), Answer::Stored);
    assert!(prompter.is_done());
    assert_eq!(prompter.prompt(), None);
    assert_eq!(prompter.current(), None);
    let set = finished(prompter);
    assert_eq!(set.len(), 3);
    assert_eq!(set.get("name"), Some(&text("Ada")));
    assert_eq!(set.get("title"), Some(&text("Countess")));
    assert_eq!(set.get("language"), Some(&text("en")));
}

#[test]
fn an_optional_parameter_left_blank_is_left_out() {
    let mut prompter = Prompter::new(schema());
    assert_eq!(prompter.answer("Ada"), Answer::Stored);
    assert_eq!(prompter.answer(""), Answer::Omitted);
    assert_eq!(prompter.answer("   "), Answer::Omitted);
    let set = finished(prompter);
    assert_eq!(set.len(), 1);
    assert_eq!(set.get("name"), Some(&text("Ada")));
    assert!(!set.contains_key("title"));
    assert!(!set.contains_key("language"));
    assert_eq!(set.get("title"), None);
}

#[test]
fn a_required_parameter_left_blank_is_asked_again() {
    let mut prompter = Prompter::new(schema());
    assert_eq!(prompter.answer(""), Answer::Refused);
    assert_eq!(prompter.prompt(), Some("name (who to greet): ".to_string()));
    assert_eq!(prompter.answer(" \t"), Answer::Refused);
    assert_eq!(prompter.prompt(), Some("name (who to greet): ".to_string()));
    assert!(!prompter.is_done());
    assert_eq!(prompter.answer("Grace"), Answer::Stored);
    assert_eq!(prompter.prompt(), Some("title: ".to_string()));
}

#[test]
fn a_refusal_is_rendered_as_an_error() {
    let parameter = Parameter { name: "name".to_string(), description: None, required: true };
    assert_eq!(
        Prompter::required_notice(&parameter),
        Rendering::Error("Parameter 'name' is required".to_string())
    );
}

#[test]
fn answers_are_stored_trimmed() {
    let mut prompter = Prompter::new(schema());
    assert_eq!(prompter.answer("  Ada Lovelace \n"), Answer::Stored);
    prompter.answer("");
    prompter.answer("");
    assert_eq!(finished(prompter).get("name"), Some(&text("Ada Lovelace")));
}

#[test]
fn nothing_is_handed_out_before_every_parameter_is_settled() {
    let mut prompter = Prompter::new(schema());
    prompter.answer("Ada");
    prompter.answer("Countess");
    assert!(prompter.finish().is_none());
    assert!(Prompter::new(schema()).finish().is_none());
}

#[test]
fn a_tool_without_parameters_is_done_at_once() {
    let mut prompter = Prompter::new(ToolSchema { name: "noop".to_string(), parameters: vec![] });
    assert!(prompter.is_done());
    assert_eq!(prompter.prompt(), None);
    assert_eq!(prompter.answer("stray"), Answer::Unasked);
    assert!(finished(prompter).is_empty());
}

#[test]
fn an_answer_after_the_last_parameter_is_not_stored() {
    let mut prompter = Prompter::new(schema());
    prompter.answer("Ada");
    prompter.answer("");
    prompter.answer("");
    assert_eq!(prompter.answer("late"), Answer::Unasked);
    let set = finished(prompter);
    assert_eq!(set.len(), 1);
}

#[test]
fn no_blank_value_is_ever_stored() {
    let answers = ["", " ", "x", "", "\t", "y", "  ", "z", ""];
    let mut start = 0;
    while start < answers.len() {
        let mut prompter = Prompter::new(schema());
        let mut k = start;
        while !prompter.is_done() && k < answers.len() {
            prompter.answer(answers[k]);
            k += 1;
        }
        if let Some(set) = prompter.finish() {
            assert!(set.contains_key("name"));
            for (_, value) in set.entries() {
                match value {
                    ArgValue::Text(t) => assert!(!t.trim().is_empty()),
                    other => panic!("stored {:?}", other),
                }
            }
        }
        start += 1;
    }
}

#[test]
fn a_run_of_answers_is_taken_in_turn() {
    let mut prompter = Prompter::new(schema());
    prompter.answer_all(&strings(&["", " ", "Ada", "", "en", "late"]));
    let set = finished(prompter);
    assert_eq!(set.len(), 2);
    assert_eq!(set.get("name"), Some(&text("Ada")));
    assert_eq!(set.get("language"), Some(&text("en")));
    assert!(!set.contains_key("title"));

    let mut prompter = Prompter::new(schema());
    prompter.answer_all(&strings(&["", ""]));
    assert_eq!(prompter.current().map(|p| p.name.as_str()), Some("name"));
    assert!(prompter.finish().is_none());
}
