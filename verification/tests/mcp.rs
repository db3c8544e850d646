use libmcptool::args::ArgValue;
use libmcptool::calltool::ArgumentMode;
use libmcptool::error::Error;
use libmcptool::mcp::{
    calltool, complete, dispatch, get_prompt, listprompts, listresources, listresourcetemplates,
    listtools, ping, read_resource, set_level, set_level_call, subscribe_resource,
    unsubscribe_resource, Call, Dispatch, McpCommand, Plan, Request,
};
use libmcptool::protocol::{LoggingLevel, Parameter, Reference, ToolSchema};

fn strings(list: &[&str]) -> Vec<String> {
    list.iter().map(|s| s.to_string()).collect()
}

fn plain(call: &Call, label: &str) {
    assert_eq!(call.timer_label, label);
    assert_eq!(call.confirmation, None);
}

#[test]
fn ping_announces_and_pings() {
    let plan = ping();
    assert_eq!(plan.announcement, "Pinging");
    let call = plan.call.unwrap();
    assert!(matches!(call.request, Request::Ping));
    plain(&call, "   response");
}

#[test]
fn the_listings_announce_and_list() {
    let plan = listtools();
    assert_eq!(plan.announcement, "Listing tools");
    let call = plan.call.unwrap();
    assert!(matches!(call.request, Request::ListTools));
    plain(&call, "    response");

    let plan = listresources();
    assert_eq!(plan.announcement, "Listing resources");
    let call = plan.call.unwrap();
    assert!(matches!(call.request, Request::ListResources));
    plain(&call, "    response");

    let plan = listprompts();
    assert_eq!(plan.announcement, "Listing prompts");
    let call = plan.call.unwrap();
    assert!(matches!(call.request, Request::ListPrompts));
    plain(&call, "    response");

    let plan = listresourcetemplates();
    assert_eq!(plan.announcement, "Listing resource templates");
    let call = plan.call.unwrap();
    assert!(matches!(call.request, Request::ListResourceTemplates));
    plain(&call, "    response");
}

#[test]
fn set_level_names_the_level_without_regard_to_case() {
    let cases = [
        ("debug", LoggingLevel::Debug),
        ("INFO", LoggingLevel::Info),
        ("Notice", LoggingLevel::Notice),
        ("wArNiNg", LoggingLevel::Warning),
        ("error", LoggingLevel::Error),
        ("CRITICAL", LoggingLevel::Critical),
        ("Alert", LoggingLevel::Alert),
        ("emergency", LoggingLevel::Emergency),
    ];
    for (word, level) in cases {
        let plan = set_level(word);
        assert_eq!(plan.announcement, format!("Setting logging level to: {}", word));
        let call = plan.call.unwrap();
        match call.request {
            Request::SetLevel { level: l } => assert_eq!(l, level),
            other => panic!("{:?}", other),
        }
        assert_eq!(call.timer_label, "    response");
        assert_eq!(call.confirmation, Some(format!("Set logging level to: {}", word)));
    }
}

#[test]
fn set_level_refuses_an_unknown_level_after_announcing() {
    let plan = set_level("verbose");
    assert_eq!(plan.announcement, "Setting logging level to: verbose");
    assert_eq!(
        plan.call.unwrap_err(),
        Error::Other(
            "Invalid logging level: verbose. Valid levels are: debug, info, notice, warning, error, critical, alert, emergency"
                .to_string()
        )
    );
    assert!(set_level("").call.is_err());
    assert!(set_level(" debug").call.is_err());
}

#[test]
fn set_level_call_takes_the_lowered_word() {
    let call = set_level_call("WARNING", "warning").unwrap();
    assert!(matches!(call.request, Request::SetLevel { level: LoggingLevel::Warning }));
    assert_eq!(call.confirmation, Some("Set logging level to: WARNING".to_string()));
    assert_eq!(
        set_level_call("WARNING", "WARNING").unwrap_err(),
        Error::Other(
            "Invalid logging level: WARNING. Valid levels are: debug, info, notice, warning, error, critical, alert, emergency"
                .to_string()
        )
    );
}

#[test]
fn read_resource_reads_the_uri() {
    let plan = read_resource("file:///etc/hosts");
    assert_eq!(plan.announcement, "Reading resource: file:///etc/hosts");
    let call = plan.call.unwrap();
    match &call.request {
        Request::ReadResource { uri } => assert_eq!(uri, "file:///etc/hosts"),
        other => panic!("{:?}", other),
    }
    plain(&call, "    response");
}

#[test]
fn get_prompt_resolves_its_arguments() {
    let plan = get_prompt("greet", strings(&["name=Ada", "lang=en"]));
    assert_eq!(plan.announcement, "Getting prompt: greet");
    let call = plan.call.unwrap();
    match &call.request {
        Request::GetPrompt { name, arguments } => {
            assert_eq!(name, "greet");
            assert_eq!(arguments.len(), 2);
            assert_eq!(arguments.get("name"), Some(&ArgValue::Text("Ada".to_string())));
            assert_eq!(arguments.get("lang"), Some(&ArgValue::Text("en".to_string())));
        }
        other => panic!("{:?}", other),
    }
    plain(&call, "    response");
}

#[test]
fn get_prompt_without_arguments_sends_none() {
    let call = get_prompt("greet", vec![]).call.unwrap();
    match &call.request {
        Request::GetPrompt { name, arguments } => {
            assert_eq!(name, "greet");
            assert!(arguments.is_empty());
        }
        other => panic!("{:?}", other),
    }
}

#[test]
fn get_prompt_fails_on_a_malformed_argument_after_announcing() {
    let plan = get_prompt("greet", strings(&["name=Ada", "lang"]));
    assert_eq!(plan.announcement, "Getting prompt: greet");
    assert_eq!(
        plan.call.unwrap_err(),
        Error::Format("Invalid argument format: 'lang'. Expected key=value".to_string())
    );
}

#[test]
fn subscribe_and_unsubscribe_confirm() {
    let plan = subscribe_resource("file:///a");
    assert_eq!(plan.announcement, "Subscribing to resource: file:///a");
    let call = plan.call.unwrap();
    match &call.request {
        Request::Subscribe { uri } => assert_eq!(uri, "file:///a"),
        other => panic!("{:?}", other),
    }
    assert_eq!(call.timer_label, "    response");
    assert_eq!(call.confirmation, Some("Successfully subscribed to resource: file:///a".to_string()));

    let plan = unsubscribe_resource("file:///a");
    assert_eq!(plan.announcement, "Unsubscribing from resource: file:///a");
    let call = plan.call.unwrap();
    match &call.request {
        Request::Unsubscribe { uri } => assert_eq!(uri, "file:///a"),
        other => panic!("{:?}", other),
    }
    assert_eq!(call.timer_label, "    response");
    assert_eq!(
        call.confirmation,
        Some("Successfully unsubscribed from resource: file:///a".to_string())
    );
}

#[test]
fn complete_keeps_a_resource_reference_whole() {
    let plan = complete("resource://docs/{id}", "id");
    assert_eq!(plan.announcement, "Getting completions for: resource://docs/{id}/id");
    let call = plan.call.unwrap();
    match &call.request {
        Request::Complete { reference, argument } => {
            assert_eq!(reference, &Reference::Resource { uri: "resource://docs/{id}".to_string() });
            assert_eq!(argument.name, "id");
            assert_eq!(argument.value, "");
        }
        other => panic!("{:?}", other),
    }
    plain(&call, "    response");
}

#[test]
fn complete_names_a_prompt_by_what_follows_the_prefix() {
    let call = complete("prompt://greet", "name").call.unwrap();
    match &call.request {
        Request::Complete { reference, argument } => {
            assert_eq!(reference, &Reference::Prompt { name: "greet".to_string() });
            assert_eq!(argument.name, "name");
            assert_eq!(argument.value, "");
        }
        other => panic!("{:?}", other),
    }
    let call = complete("prompt://", "x").call.unwrap();
    match &call.request {
        Request::Complete { reference, .. } => {
            assert_eq!(reference, &Reference::Prompt { name: "".to_string() })
        }
        other => panic!("{:?}", other),
    }
}

#[test]
fn complete_refuses_any_other_reference_after_announcing() {
    let plan = complete("greet", "name");
    assert_eq!(plan.announcement, "Getting completions for: greet/name");
    assert_eq!(
        plan.call.unwrap_err(),
        Error::Other(
            "Invalid reference format: 'greet'. Expected resource:// or prompt:// prefix".to_string()
        )
    );
    assert!(complete("Resource://x", "a").call.is_err());
    assert!(complete("prompt:/x", "a").call.is_err());
    assert!(complete("", "a").call.is_err());
}

#[test]
fn calltool_chooses_the_mode_first() {
    assert_eq!(
        calltool("echo", vec![], false, false).unwrap_err(),
        Error::Other("Must specify one of: --interactive, --json, or --arg key=value arguments".to_string())
    );
    assert_eq!(
        calltool("echo", strings(&["a=b"]), true, false).unwrap_err(),
        Error::Other("Cannot combine --interactive, --json, and --arg modes".to_string())
    );
    assert_eq!(
        calltool("echo", vec![], true, true).unwrap_err(),
        Error::Other("Cannot combine --interactive, --json, and --arg modes".to_string())
    );
    assert_eq!(
        calltool("echo", strings(&["a=b"]), true, true).unwrap_err(),
        Error::Other("Cannot combine --interactive, --json, and --arg modes".to_string())
    );
}

#[test]
fn calltool_announces_and_fetches_the_tools() {
    let call = calltool("echo", strings(&["message=hi"]), false, false).unwrap();
    assert_eq!(call.tool_name, "echo");
    assert_eq!(call.announcement, "Calling tool: echo");
    assert_eq!(call.mode, ArgumentMode::Inline(strings(&["message=hi"])));
    assert!(matches!(call.lookup.request, Request::ListTools));
    assert_eq!(call.lookup.timer_label, "   fetching tools");
    assert_eq!(call.lookup.confirmation, None);
    assert_eq!(calltool("echo", vec![], true, false).unwrap().mode, ArgumentMode::Interactive);
    assert_eq!(calltool("echo", vec![], false, true).unwrap().mode, ArgumentMode::Json);
}

fn tools() -> Vec<ToolSchema> {
    vec![
        ToolSchema { name: "add".to_string(), parameters: vec![] },
        ToolSchema {
            name: "echo".to_string(),
            parameters: vec![Parameter {
                name: "message".to_string(),
                description: None,
                required: true,
            }],
        },
        ToolSchema { name: "echo".to_string(), parameters: vec![] },
    ]
}

#[test]
fn the_first_tool_of_that_name_is_found() {
    let call = calltool("echo", vec![], true, false).unwrap();
    let offered = tools();
    let tool = call.find_tool(&offered).unwrap();
    assert_eq!(tool.name, "echo");
    assert_eq!(tool.parameters.len(), 1);
}

#[test]
fn a_tool_that_is_not_offered_fails_the_call() {
    let call = calltool("missing", vec![], true, false).unwrap();
    assert_eq!(
        call.find_tool(&tools()).unwrap_err(),
        Error::Other("Tool 'missing' not found".to_string())
    );
    assert_eq!(
        call.find_tool(&vec![]).unwrap_err(),
        Error::Other("Tool 'missing' not found".to_string())
    );
    let call = calltool("Echo", vec![], true, false).unwrap();
    assert!(call.find_tool(&tools()).is_err());
}

#[test]
fn the_tool_is_invoked_with_the_resolved_arguments() {
    let call = calltool("echo", strings(&["message=hi"]), false, false).unwrap();
    let arguments = match &call.mode {
        ArgumentMode::Inline(entries) => {
            libmcptool::calltool::cmdline::parse_command_line_arguments(entries.clone()).unwrap()
        }
        other => panic!("{:?}", other),
    };
    let invocation = call.invoke(arguments);
    match &invocation.request {
        Request::CallTool { name, arguments } => {
            assert_eq!(name, "echo");
            assert_eq!(arguments.len(), 1);
            assert_eq!(arguments.get("message"), Some(&ArgValue::Text("hi".to_string())));
        }
        other => panic!("{:?}", other),
    }
    assert_eq!(invocation.timer_label, "   response");
    assert_eq!(invocation.confirmation, None);
}

fn single(command: McpCommand) -> Plan {
    match dispatch(command) {
        Dispatch::Single(plan) => plan,
        other => panic!("{:?}", other),
    }
}

#[test]
fn init_is_dispatched_to_the_captured_handshake() {
    assert!(matches!(dispatch(McpCommand::Init), Dispatch::Handshake));
}

#[test]
fn each_command_is_dispatched_to_its_one_operation() {
    let plan = single(McpCommand::Ping);
    assert_eq!(plan.announcement, "Pinging");
    assert!(matches!(plan.call.unwrap().request, Request::Ping));

    assert!(matches!(single(McpCommand::Listtools).call.unwrap().request, Request::ListTools));
    assert!(matches!(single(McpCommand::Listresources).call.unwrap().request, Request::ListResources));
    assert!(matches!(single(McpCommand::Listprompts).call.unwrap().request, Request::ListPrompts));
    assert!(matches!(
        single(McpCommand::Listresourcetemplates).call.unwrap().request,
        Request::ListResourceTemplates
    ));

    let plan = single(McpCommand::SetLevel { level: "Error".to_string() });
    assert_eq!(plan.announcement, "Setting logging level to: Error");
    assert!(matches!(plan.call.unwrap().request, Request::SetLevel { level: LoggingLevel::Error }));

    let plan = single(McpCommand::ReadResource { uri: "file:///x".to_string() });
    match plan.call.unwrap().request {
        Request::ReadResource { uri } => assert_eq!(uri, "file:///x"),
        other => panic!("{:?}", other),
    }

    let plan = single(McpCommand::GetPrompt { name: "greet".to_string(), args: strings(&["a=b"]) });
    match plan.call.unwrap().request {
        Request::GetPrompt { name, arguments } => {
            assert_eq!(name, "greet");
            assert_eq!(arguments.get("a"), Some(&ArgValue::Text("b".to_string())));
        }
        other => panic!("{:?}", other),
    }

    let plan = single(McpCommand::SubscribeResource { uri: "u".to_string() });
    assert!(matches!(plan.call.unwrap().request, Request::Subscribe { .. }));
    let plan = single(McpCommand::UnsubscribeResource { uri: "u".to_string() });
    assert!(matches!(plan.call.unwrap().request, Request::Unsubscribe { .. }));

    let plan = single(McpCommand::Complete {
        reference: "prompt://greet".to_string(),
        argument: "name".to_string(),
    });
    assert_eq!(plan.announcement, "Getting completions for: prompt://greet/name");
    assert!(matches!(plan.call.unwrap().request, Request::Complete { .. }));
}

#[test]
fn a_failing_command_is_dispatched_to_its_failure() {
    let plan = single(McpCommand::SetLevel { level: "loud".to_string() });
    assert_eq!(plan.announcement, "Setting logging level to: loud");
    assert!(plan.call.is_err());
    let plan = single(McpCommand::Complete { reference: "x".to_string(), argument: "y".to_string() });
    assert!(plan.call.is_err());
}

#[test]
fn a_tool_call_is_dispatched_with_its_mode_chosen() {
    let command = McpCommand::Calltool {
        tool_name: "echo".to_string(),
        args: strings(&["message=hi"]),
        interactive: false,
        json: false,
    };
    match dispatch(command) {
        Dispatch::Tool(Ok(call)) => {
            assert_eq!(call.tool_name, "echo");
            assert_eq!(call.announcement, "Calling tool: echo");
            assert_eq!(call.mode, ArgumentMode::Inline(strings(&["message=hi"])));
        }
        other => panic!("{:?}", other),
    }
    let command = McpCommand::Calltool {
        tool_name: "echo".to_string(),
        args: vec![],
        interactive: true,
        json: true,
    };
    match dispatch(command) {
        Dispatch::Tool(Err(e)) => {
            assert_eq!(e, Error::Other("Cannot combine --interactive, --json, and --arg modes".to_string()))
        }
        other => panic!("{:?}", other),
    }
}
