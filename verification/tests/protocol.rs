use libmcptool::protocol::{
    display_notification, LoggingLevel, Notification, ProgressToken, RequestId,
};

#[derive(Debug)]
enum Shape {
    String(String),
    Number(i64),
}

fn json(text: &str) -> serde_json::Value {
    serde_json::from_str(text).unwrap()
}

#[test]
fn logging_message_names_level_logger_and_data() {
    let n = Notification::LoggingMessage {
        level: LoggingLevel::Warning,
        logger: Some("db".to_string()),
        data: json("{\"message\": \"slow query\", \"ms\": 1500}"),
    };
    assert_eq!(
        display_notification(&n),
        "[NOTIFICATION] Warning [db]: {\"message\":\"slow query\",\"ms\":1500}"
    );
}

#[test]
fn logging_message_without_logger_says_server() {
    let n = Notification::LoggingMessage {
        level: LoggingLevel::Info,
        logger: None,
        data: serde_json::Value::String("started".to_string()),
    };
    assert_eq!(display_notification(&n), "[NOTIFICATION] Info [server]: \"started\"");
}

#[test]
fn logging_message_data_is_compact_json() {
    let data = json("[1, 2.5, null, true, {\"k\": [\"v\"]}]");
    let n = Notification::LoggingMessage {
        level: LoggingLevel::Debug,
        logger: None,
        data: data.clone(),
    };
    assert_eq!(
        display_notification(&n),
        format!("[NOTIFICATION] Debug [server]: {}", data)
    );
    assert_eq!(
        display_notification(&n),
        "[NOTIFICATION] Debug [server]: [1,2.5,null,true,{\"k\":[\"v\"]}]"
    );
}

#[test]
fn every_level_is_shown_by_its_name() {
    let levels = [
        (LoggingLevel::Debug, "Debug"),
        (LoggingLevel::Info, "Info"),
        (LoggingLevel::Notice, "Notice"),
        (LoggingLevel::Warning, "Warning"),
        (LoggingLevel::Error, "Error"),
        (LoggingLevel::Critical, "Critical"),
        (LoggingLevel::Alert, "Alert"),
        (LoggingLevel::Emergency, "Emergency"),
    ];
    for (level, name) in levels {
        assert_eq!(level.name(), name);
        assert_eq!(format!("{:?}", level), name);
        let n = Notification::LoggingMessage {
            level,
            logger: Some("l".to_string()),
            data: serde_json::Value::Null,
        };
        assert_eq!(display_notification(&n), format!("[NOTIFICATION] {} [l]: null", name));
    }
}

#[test]
fn levels_are_found_by_lowercase_name() {
    assert_eq!(LoggingLevel::from_name("debug"), Some(LoggingLevel::Debug));
    assert_eq!(LoggingLevel::from_name("info"), Some(LoggingLevel::Info));
    assert_eq!(LoggingLevel::from_name("notice"), Some(LoggingLevel::Notice));
    assert_eq!(LoggingLevel::from_name("warning"), Some(LoggingLevel::Warning));
    assert_eq!(LoggingLevel::from_name("error"), Some(LoggingLevel::Error));
    assert_eq!(LoggingLevel::from_name("critical"), Some(LoggingLevel::Critical));
    assert_eq!(LoggingLevel::from_name("alert"), Some(LoggingLevel::Alert));
    assert_eq!(LoggingLevel::from_name("emergency"), Some(LoggingLevel::Emergency));
}

#[test]
fn other_words_name_no_level() {
    assert_eq!(LoggingLevel::from_name("Debug"), None);
    assert_eq!(LoggingLevel::from_name("warn"), None);
    assert_eq!(LoggingLevel::from_name(""), None);
    assert_eq!(LoggingLevel::from_name("debug "), None);
}

#[test]
fn resource_updated_shows_the_uri() {
    let n = Notification::ResourceUpdated { uri: "file:///tmp/a.txt".to_string() };
    assert_eq!(display_notification(&n), "[NOTIFICATION] Resource updated: file:///tmp/a.txt");
}

#[test]
fn list_changes_have_fixed_lines() {
    assert_eq!(
        display_notification(&Notification::ResourceListChanged),
        "[NOTIFICATION] Resource list changed"
    );
    assert_eq!(
        display_notification(&Notification::ToolListChanged),
        "[NOTIFICATION] Tool list changed"
    );
    assert_eq!(
        display_notification(&Notification::PromptListChanged),
        "[NOTIFICATION] Prompt list changed"
    );
}

#[test]
fn cancelled_shows_id_and_reason() {
    let n = Notification::Cancelled {
        request_id: RequestId::Number(42),
        reason: Some("timeout".to_string()),
    };
    assert_eq!(display_notification(&n), "[NOTIFICATION] Request cancelled: Number(42) (timeout)");
}

#[test]
fn cancelled_without_reason_says_so() {
    let n = Notification::Cancelled {
        request_id: RequestId::String("req-1".to_string()),
        reason: None,
    };
    assert_eq!(
        display_notification(&n),
        "[NOTIFICATION] Request cancelled: String(\"req-1\") (no reason given)"
    );
}

#[test]
fn progress_with_total_and_message() {
    let n = Notification::Progress {
        progress_token: ProgressToken::String("job".to_string()),
        progress: format!("{}", 3.5),
        total: Some(format!("{}", 10.0)),
        message: Some("copying".to_string()),
    };
    assert_eq!(display_notification(&n), "[NOTIFICATION] Progress String(\"job\"): 3.5/10 - copying");
}

#[test]
fn progress_without_total_and_message() {
    let n = Notification::Progress {
        progress_token: ProgressToken::Number(-7),
        progress: "0.25".to_string(),
        total: None,
        message: None,
    };
    assert_eq!(display_notification(&n), "[NOTIFICATION] Progress Number(-7): 0.25 - ");
}

#[test]
fn identifiers_are_written_as_std_writes_them() {
    let texts = ["", "plain", "with \"quotes\"", "back\\slash", "new\nline", "tab\t", "é\u{1F600}", "\u{7f}\u{0}"];
    for t in texts {
        assert_eq!(
            RequestId::String(t.to_string()).to_notation(),
            format!("{:?}", Shape::String(t.to_string()))
        );
        assert_eq!(
            ProgressToken::String(t.to_string()).to_notation(),
            format!("{:?}", Shape::String(t.to_string()))
        );
    }
    let numbers = [0, 1, -1, 99, i64::MAX, i64::MIN];
    for n in numbers {
        assert_eq!(RequestId::Number(n).to_notation(), format!("{:?}", Shape::Number(n)));
        assert_eq!(ProgressToken::Number(n).to_notation(), format!("{:?}", Shape::Number(n)));
    }
}

#[test]
fn quoted_identifier_is_not_the_bare_string() {
    assert_eq!(RequestId::String("a\"b".to_string()).to_notation(), "String(\"a\\\"b\")");
}
