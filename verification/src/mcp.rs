//! The command dispatcher: what each protocol command announces, which
//! one request it sends, and what it confirms.
//!
//! The functions here send nothing. They turn a command and its fields
//! into a [`Call`], which the caller carries out against the open
//! connection, timing it under the call's label.

use vstd::prelude::*;
use vstd::string::*;
use crate::args::{inline_result, texts, ArgValueView, ArgumentParser, ArgumentSet};
use crate::calltool::{selected_modes, selection, ArgumentMode, ArgumentModeView};
use crate::error::{result_view, usage_failure, Error, ErrorView};
use crate::protocol::{ArgumentInfo, LoggingLevel, Reference, ToolSchema};
use crate::text::{has_prefix, lowercase, same_text, skip_chars, to_lowercase};

verus! {

/// One protocol operation with the fields it is invoked with.
#[derive(Clone, Debug)]
pub enum Request {
    Ping,
    ListTools,
    ListResources,
    ListPrompts,
    ListResourceTemplates,
    SetLevel { level: LoggingLevel },
    CallTool { name: String, arguments: ArgumentSet },
    ReadResource { uri: String },
    GetPrompt { name: String, arguments: ArgumentSet },
    Subscribe { uri: String },
    Unsubscribe { uri: String },
    Complete { reference: Reference, argument: ArgumentInfo },
}

/// Mathematical content of a [`Request`]. A completion request is told
/// apart by what it refers to; `typed` is what has been typed of the
/// argument's value.
pub enum RequestView {
    Ping,
    ListTools,
    ListResources,
    ListPrompts,
    ListResourceTemplates,
    SetLevel { level: LoggingLevel },
    CallTool { name: Seq<char>, arguments: Map<Seq<char>, ArgValueView> },
    ReadResource { uri: Seq<char> },
    GetPrompt { name: Seq<char>, arguments: Map<Seq<char>, ArgValueView> },
    Subscribe { uri: Seq<char> },
    Unsubscribe { uri: Seq<char> },
    CompleteResource { uri: Seq<char>, argument: Seq<char>, typed: Seq<char> },
    CompletePrompt { name: Seq<char>, argument: Seq<char>, typed: Seq<char> },
}

impl View for Request {
    type V = RequestView;

    open spec fn view(&self) -> RequestView {
        match self {
            Request::Ping => RequestView::Ping,
            Request::ListTools => RequestView::ListTools,
            Request::ListResources => RequestView::ListResources,
            Request::ListPrompts => RequestView::ListPrompts,
            Request::ListResourceTemplates => RequestView::ListResourceTemplates,
            Request::SetLevel { level } => RequestView::SetLevel { level: *level },
            Request::CallTool { name, arguments } => RequestView::CallTool {
                name: name@,
                arguments: arguments@,
            },
            Request::ReadResource { uri } => RequestView::ReadResource { uri: uri@ },
            Request::GetPrompt { name, arguments } => RequestView::GetPrompt {
                name: name@,
                arguments: arguments@,
            },
            Request::Subscribe { uri } => RequestView::Subscribe { uri: uri@ },
            Request::Unsubscribe { uri } => RequestView::Unsubscribe { uri: uri@ },
            Request::Complete { reference, argument } => match reference {
                Reference::Resource { uri } => RequestView::CompleteResource {
                    uri: uri@,
                    argument: argument.name@,
                    typed: argument.value@,
                },
                Reference::Prompt { name } => RequestView::CompletePrompt {
                    name: name@,
                    argument: argument.name@,
                    typed: argument.value@,
                },
            },
        }
    }
}

/// One request, ready to be sent.
#[derive(Clone, Debug)]
pub struct Call {
    /// The request.
    pub request: Request,
    /// The label under which the time of the call is shown.
    pub timer_label: String,
    /// The success trace to render once the call has succeeded, for the
    /// commands whose result is nothing but success.
    pub confirmation: Option<String>,
}

/// Mathematical content of a [`Call`].
pub struct CallView {
    pub request: RequestView,
    pub timer_label: Seq<char>,
    pub confirmation: Option<Seq<char>>,
}

impl View for Call {
    type V = CallView;

    open spec fn view(&self) -> CallView {
        CallView {
            request: self.request@,
            timer_label: self.timer_label@,
            confirmation: match self.confirmation {
                Some(s) => Some(s@),
                None => None,
            },
        }
    }
}

/// What a command does: the line that announces it, then its one call, or
/// the failure that kept the call from being made.
#[derive(Debug)]
pub struct Plan {
    /// The line to render first.
    pub announcement: String,
    /// The call to make, or why none is made.
    pub call: Result<Call, Error>,
}

/// Mathematical content of a [`Plan`].
pub struct PlanView {
    pub announcement: Seq<char>,
    pub call: Result<CallView, ErrorView>,
}

impl View for Plan {
    type V = PlanView;

    open spec fn view(&self) -> PlanView {
        PlanView { announcement: self.announcement@, call: result_view(self.call) }
    }
}

/// The label under which most calls are timed.
pub open spec fn response_label() -> Seq<char> {
    "    response"@
}

/// The call of a command whose result the caller renders.
pub open spec fn plain_call(request: RequestView, label: Seq<char>) -> CallView {
    CallView { request, timer_label: label, confirmation: None }
}

/// The call of a command whose result is nothing but success, which is
/// confirmed with a success trace.
pub open spec fn confirmed_call(request: RequestView, confirmation: Seq<char>) -> CallView {
    CallView { request, timer_label: response_label(), confirmation: Some(confirmation) }
}

/// The plan of a command that always comes to its call.
pub open spec fn sure_plan(announcement: Seq<char>, call: CallView) -> PlanView {
    PlanView { announcement, call: Ok(call) }
}

/// What pinging does.
pub open spec fn ping_plan() -> PlanView {
    sure_plan("Pinging"@, plain_call(RequestView::Ping, "   response"@))
}

/// What listing the tools does.
pub open spec fn listtools_plan() -> PlanView {
    sure_plan("Listing tools"@, plain_call(RequestView::ListTools, response_label()))
}

/// What listing the resources does.
pub open spec fn listresources_plan() -> PlanView {
    sure_plan("Listing resources"@, plain_call(RequestView::ListResources, response_label()))
}

/// What listing the prompts does.
pub open spec fn listprompts_plan() -> PlanView {
    sure_plan("Listing prompts"@, plain_call(RequestView::ListPrompts, response_label()))
}

/// What listing the resource templates does.
pub open spec fn listresourcetemplates_plan() -> PlanView {
    sure_plan(
        "Listing resource templates"@,
        plain_call(RequestView::ListResourceTemplates, response_label()),
    )
}

/// What is said of a word that names no logging level.
pub open spec fn invalid_level_message(level: Seq<char>) -> Seq<char> {
    "Invalid logging level: "@ + level
        + ". Valid levels are: debug, info, notice, warning, error, critical, alert, emergency"@
}

/// The call that sets the logging level, for the word `level` whose
/// lowercase form is `lowered`: the level that `lowered` names is set and
/// confirmed under the word as it was given, or the call fails if
/// `lowered` names no level.
pub open spec fn level_call(level: Seq<char>, lowered: Seq<char>) -> Result<CallView, ErrorView> {
    match LoggingLevel::named(lowered) {
        Some(l) => Ok(
            confirmed_call(RequestView::SetLevel { level: l }, "Set logging level to: "@ + level),
        ),
        None => Err(usage_failure(invalid_level_message(level))),
    }
}

/// What setting the logging level does. The announcement comes first,
/// whether or not the word names a level.
pub open spec fn set_level_plan(level: Seq<char>, lowered: Seq<char>) -> PlanView {
    PlanView {
        announcement: "Setting logging level to: "@ + level,
        call: level_call(level, lowered),
    }
}

/// What reading a resource does.
pub open spec fn read_resource_plan(uri: Seq<char>) -> PlanView {
    sure_plan(
        "Reading resource: "@ + uri,
        plain_call(RequestView::ReadResource { uri }, response_label()),
    )
}

/// What getting a prompt does: the entries are resolved as inline
/// `key=value` arguments, and the first entry of another form fails the
/// command after its announcement.
pub open spec fn get_prompt_plan(name: Seq<char>, args: Seq<Seq<char>>) -> PlanView {
    PlanView {
        announcement: "Getting prompt: "@ + name,
        call: match inline_result(args) {
            Ok(arguments) => Ok(
                plain_call(RequestView::GetPrompt { name, arguments }, response_label()),
            ),
            Err(e) => Err(e),
        },
    }
}

/// What subscribing to a resource does.
pub open spec fn subscribe_resource_plan(uri: Seq<char>) -> PlanView {
    sure_plan(
        "Subscribing to resource: "@ + uri,
        confirmed_call(
            RequestView::Subscribe { uri },
            "Successfully subscribed to resource: "@ + uri,
        ),
    )
}

/// What ending a subscription does.
pub open spec fn unsubscribe_resource_plan(uri: Seq<char>) -> PlanView {
    sure_plan(
        "Unsubscribing from resource: "@ + uri,
        confirmed_call(
            RequestView::Unsubscribe { uri },
            "Successfully unsubscribed from resource: "@ + uri,
        ),
    )
}

/// What is said of a reference that has neither of the two prefixes.
pub open spec fn invalid_reference_message(reference: Seq<char>) -> Seq<char> {
    "Invalid reference format: '"@ + reference + "'. Expected resource:// or prompt:// prefix"@
}

/// The completion request for `reference` and `argument`, with nothing
/// typed of the value yet. A reference that begins with `resource://` is
/// a resource's URI and is kept whole; one that begins with `prompt://`
/// names the prompt by what follows the prefix; any other fails.
pub open spec fn completion_call(reference: Seq<char>, argument: Seq<char>) -> Result<
    CallView,
    ErrorView,
> {
    if "resource://"@.is_prefix_of(reference) {
        Ok(
            plain_call(
                RequestView::CompleteResource { uri: reference, argument, typed: Seq::empty() },
                response_label(),
            ),
        )
    } else if "prompt://"@.is_prefix_of(reference) {
        Ok(
            plain_call(
                RequestView::CompletePrompt {
                    name: reference.skip("prompt://"@.len() as int),
                    argument,
                    typed: Seq::empty(),
                },
                response_label(),
            ),
        )
    } else {
        Err(usage_failure(invalid_reference_message(reference)))
    }
}

/// What asking for completions does. The announcement comes first,
/// whatever the reference.
pub open spec fn complete_plan(reference: Seq<char>, argument: Seq<char>) -> PlanView {
    PlanView {
        announcement: "Getting completions for: "@ + reference + "/"@ + argument,
        call: completion_call(reference, argument),
    }
}

fn plain(request: Request, label: &str) -> (c: Call)
    ensures
        c@ == plain_call(request@, label@),
{
    Call { request, timer_label: label.to_owned(), confirmation: None }
}

fn confirmed(request: Request, head: &str, tail: &str) -> (c: Call)
    ensures
        c@ == confirmed_call(request@, head@ + tail@),
{
    Call {
        request,
        timer_label: "    response".to_owned(),
        confirmation: Some(join(head, tail)),
    }
}

fn join(head: &str, tail: &str) -> (s: String)
    ensures
        s@ == head@ + tail@,
{
    let mut s = head.to_owned();
    s.append(tail);
    s
}

/// Pings the endpoint.
pub fn ping() -> (p: Plan)
    ensures
        p@ == ping_plan(),
{
    Plan { announcement: "Pinging".to_owned(), call: Ok(plain(Request::Ping, "   response")) }
}

/// Lists the tools that the endpoint offers.
pub fn listtools() -> (p: Plan)
    ensures
        p@ == listtools_plan(),
{
    Plan {
        announcement: "Listing tools".to_owned(),
        call: Ok(plain(Request::ListTools, "    response")),
    }
}

/// Lists the resources that the endpoint offers.
pub fn listresources() -> (p: Plan)
    ensures
        p@ == listresources_plan(),
{
    Plan {
        announcement: "Listing resources".to_owned(),
        call: Ok(plain(Request::ListResources, "    response")),
    }
}

/// Lists the prompts that the endpoint offers.
pub fn listprompts() -> (p: Plan)
    ensures
        p@ == listprompts_plan(),
{
    Plan {
        announcement: "Listing prompts".to_owned(),
        call: Ok(plain(Request::ListPrompts, "    response")),
    }
}

/// Lists the resource templates that the endpoint offers.
pub fn listresourcetemplates() -> (p: Plan)
    ensures
        p@ == listresourcetemplates_plan(),
{
    Plan {
        announcement: "Listing resource templates".to_owned(),
        call: Ok(plain(Request::ListResourceTemplates, "    response")),
    }
}

/// The call that sets the logging level to what `lowered`, the lowercase
/// form of `level`, names.
pub fn set_level_call(level: &str, lowered: &str) -> (r: Result<Call, Error>)
    ensures
        result_view(r) == level_call(level@, lowered@),
{
    match LoggingLevel::from_name(lowered) {
        Some(l) => Ok(confirmed(Request::SetLevel { level: l }, "Set logging level to: ", level)),
        None => {
            let mut msg = "Invalid logging level: ".to_owned();
            msg.append(level);
            msg.append(
                ". Valid levels are: debug, info, notice, warning, error, critical, alert, emergency",
            );
            Err(Error::Other(msg))
        },
    }
}

/// Sets the logging level of the endpoint. The level is named without
/// regard to case.
pub fn set_level(level: &str) -> (p: Plan)
    ensures
        p@ == set_level_plan(level@, lowercase(level@)),
{
    let lowered = to_lowercase(level);
    Plan {
        announcement: join("Setting logging level to: ", level),
        call: set_level_call(level, lowered.as_str()),
    }
}

/// Reads a resource.
pub fn read_resource(uri: &str) -> (p: Plan)
    ensures
        p@ == read_resource_plan(uri@),
{
    Plan {
        announcement: join("Reading resource: ", uri),
        call: Ok(plain(Request::ReadResource { uri: uri.to_owned() }, "    response")),
    }
}

/// Gets a prompt, with arguments given as `key=value` entries.
pub fn get_prompt(name: &str, args: Vec<String>) -> (p: Plan)
    ensures
        p@ == get_prompt_plan(name@, texts(args@)),
{
    let announcement = join("Getting prompt: ", name);
    let call = match ArgumentParser::parse_key_value_args(args) {
        Ok(arguments) => Ok(
            plain(Request::GetPrompt { name: name.to_owned(), arguments }, "    response"),
        ),
        Err(e) => Err(e),
    };
    Plan { announcement, call }
}

/// Subscribes to the updates of a resource.
pub fn subscribe_resource(uri: &str) -> (p: Plan)
    ensures
        p@ == subscribe_resource_plan(uri@),
{
    Plan {
        announcement: join("Subscribing to resource: ", uri),
        call: Ok(
            confirmed(
                Request::Subscribe { uri: uri.to_owned() },
                "Successfully subscribed to resource: ",
                uri,
            ),
        ),
    }
}

/// Ends the subscription to the updates of a resource.
pub fn unsubscribe_resource(uri: &str) -> (p: Plan)
    ensures
        p@ == unsubscribe_resource_plan(uri@),
{
    Plan {
        announcement: join("Unsubscribing from resource: ", uri),
        call: Ok(
            confirmed(
                Request::Unsubscribe { uri: uri.to_owned() },
                "Successfully unsubscribed from resource: ",
                uri,
            ),
        ),
    }
}

/// Gets completions for an argument of a resource or a prompt.
pub fn complete(reference: &str, argument: &str) -> (p: Plan)
    ensures
        p@ == complete_plan(reference@, argument@),
{
    let mut announcement = join("Getting completions for: ", reference);
    announcement.append("/");
    announcement.append(argument);
    let found = if has_prefix(reference, "resource://") {
        Some(Reference::Resource { uri: reference.to_owned() })
    } else if has_prefix(reference, "prompt://") {
        let prefix_len = "prompt://".unicode_len();
        Some(Reference::Prompt { name: skip_chars(reference, prefix_len) })
    } else {
        None
    };
    let call = match found {
        Some(r) => {
            let info = ArgumentInfo { name: argument.to_owned(), value: String::new() };
            Ok(plain(Request::Complete { reference: r, argument: info }, "    response"))
        },
        None => {
            let mut msg = "Invalid reference format: '".to_owned();
            msg.append(reference);
            msg.append("'. Expected resource:// or prompt:// prefix");
            Err(Error::Other(msg))
        },
    };
    Plan { announcement, call }
}

/// A tool call whose source of arguments is chosen and whose arguments
/// are not resolved yet.
#[derive(Clone, Debug)]
pub struct ToolCall {
    /// The tool's name.
    pub tool_name: String,
    /// Where the arguments come from.
    pub mode: ArgumentMode,
    /// The line to render first.
    pub announcement: String,
    /// The call that fetches the tools, to find the tool's parameters.
    pub lookup: Call,
}

/// Mathematical content of a [`ToolCall`].
pub struct ToolCallView {
    pub tool_name: Seq<char>,
    pub mode: ArgumentModeView,
    pub announcement: Seq<char>,
    pub lookup: CallView,
}

impl View for ToolCall {
    type V = ToolCallView;

    open spec fn view(&self) -> ToolCallView {
        ToolCallView {
            tool_name: self.tool_name@,
            mode: self.mode@,
            announcement: self.announcement@,
            lookup: self.lookup@,
        }
    }
}

/// How a tool call starts: with the source of its arguments chosen it is
/// announced and the tools are fetched; without, it fails and nothing is
/// announced.
pub open spec fn tool_call(
    tool_name: Seq<char>,
    entries: Seq<Seq<char>>,
    interactive: bool,
    json: bool,
) -> Result<ToolCallView, ErrorView> {
    match selection(entries, interactive, json) {
        Ok(mode) => Ok(
            ToolCallView {
                tool_name,
                mode,
                announcement: "Calling tool: "@ + tool_name,
                lookup: plain_call(RequestView::ListTools, "   fetching tools"@),
            },
        ),
        Err(e) => Err(e),
    }
}

/// What is said of a tool that the endpoint does not offer.
pub open spec fn tool_not_found_message(tool_name: Seq<char>) -> Seq<char> {
    "Tool '"@ + tool_name + "' not found"@
}

/// Index of the first of `tools` at or after `from` that is named `name`,
/// or the number of tools if none is.
pub open spec fn first_named(tools: Seq<ToolSchema>, name: Seq<char>, from: int) -> int
    decreases tools.len() - from,
{
    if 0 <= from < tools.len() && tools[from].name@ != name {
        first_named(tools, name, from + 1)
    } else {
        from
    }
}

/// The call that invokes the tool `tool_name` with `arguments`.
pub open spec fn invocation(
    tool_name: Seq<char>,
    arguments: Map<Seq<char>, ArgValueView>,
) -> CallView {
    plain_call(RequestView::CallTool { name: tool_name, arguments }, "   response"@)
}

/// Starts a tool call.
///
/// The source of the arguments is chosen first: exactly one of inline
/// entries, interactive prompting and a JSON document has to be selected,
/// else the call fails with a usage error and nothing is announced,
/// fetched or asked.
pub fn calltool(tool_name: &str, args: Vec<String>, interactive: bool, json: bool) -> (r: Result<
    ToolCall,
    Error,
>)
    ensures
        r is Ok <==> selected_modes(args@.len() > 0, interactive, json) == 1,
        result_view(r) == tool_call(tool_name@, texts(args@), interactive, json),
{
    match ArgumentMode::select(args, interactive, json) {
        Err(e) => Err(e),
        Ok(mode) => Ok(
            ToolCall {
                tool_name: tool_name.to_owned(),
                mode,
                announcement: join("Calling tool: ", tool_name),
                lookup: plain(Request::ListTools, "   fetching tools"),
            },
        ),
    }
}

impl ToolCall {
    /// Finds the tool among those that the endpoint offers: the first one
    /// with the tool's name. If there is none the call fails.
    pub fn find_tool<'a>(&self, tools: &'a Vec<ToolSchema>) -> (r: Result<&'a ToolSchema, Error>)
        ensures
            match r {
                Ok(tool) => {
                    let at = first_named(tools@, self.tool_name@, 0);
                    &&& 0 <= at < tools@.len()
                    &&& *tool == tools@[at]
                    &&& tool.name@ == self.tool_name@
                },
                Err(e) => {
                    &&& forall|i: int|
                        0 <= i < tools@.len() ==> (#[trigger] tools@[i]).name@ != self.tool_name@
                    &&& e@ == usage_failure(tool_not_found_message(self.tool_name@))
                },
            },
    {
        let mut i: usize = 0;
        while i < tools.len()
            invariant
                0 <= i <= tools@.len(),
                first_named(tools@, self.tool_name@, 0) == first_named(
                    tools@,
                    self.tool_name@,
                    i as int,
                ),
                forall|k: int| 0 <= k < i ==> (#[trigger] tools@[k]).name@ != self.tool_name@,
            decreases tools.len() - i,
        {
            if same_text(tools[i].name.as_str(), self.tool_name.as_str()) {
                return Ok(&tools[i]);
            }
            i = i + 1;
        }
        let mut msg = "Tool '".to_owned();
        msg.append(self.tool_name.as_str());
        msg.append("' not found");
        Err(Error::Other(msg))
    }

    /// The call that invokes the tool with the resolved arguments.
    pub fn invoke(self, arguments: ArgumentSet) -> (c: Call)
        ensures
            c@ == invocation(self@.tool_name, arguments@),
    {
        plain(Request::CallTool { name: self.tool_name, arguments }, "   response")
    }
}

/// A protocol command as it was parsed, with its fields.
#[derive(Clone, Debug, PartialEq, Eq)]
pub enum McpCommand {
    Ping,
    Listtools,
    Init,
    Listresources,
    Listprompts,
    Listresourcetemplates,
    SetLevel { level: String },
    Calltool { tool_name: String, args: Vec<String>, interactive: bool, json: bool },
    ReadResource { uri: String },
    GetPrompt { name: String, args: Vec<String> },
    SubscribeResource { uri: String },
    UnsubscribeResource { uri: String },
    Complete { reference: String, argument: String },
}

/// What carrying out a command begins with.
#[derive(Debug)]
pub enum Dispatch {
    /// The handshake result captured at connection time is shown; nothing
    /// is sent.
    Handshake,
    /// The command is announced and makes its one call.
    Single(Plan),
    /// The command is a tool call, which fetches the tools and resolves
    /// its arguments before its one call, or fails before anything else.
    Tool(Result<ToolCall, Error>),
}

/// Mathematical content of a [`Dispatch`].
pub enum DispatchView {
    Handshake,
    Single(PlanView),
    Tool(Result<ToolCallView, ErrorView>),
}

impl View for Dispatch {
    type V = DispatchView;

    open spec fn view(&self) -> DispatchView {
        match self {
            Dispatch::Handshake => DispatchView::Handshake,
            Dispatch::Single(plan) => DispatchView::Single(plan@),
            Dispatch::Tool(start) => DispatchView::Tool(result_view(*start)),
        }
    }
}

/// What each command is dispatched to.
pub open spec fn dispatched(command: McpCommand) -> DispatchView {
    match command {
        McpCommand::Ping => DispatchView::Single(ping_plan()),
        McpCommand::Listtools => DispatchView::Single(listtools_plan()),
        McpCommand::Init => DispatchView::Handshake,
        McpCommand::Listresources => DispatchView::Single(listresources_plan()),
        McpCommand::Listprompts => DispatchView::Single(listprompts_plan()),
        McpCommand::Listresourcetemplates => DispatchView::Single(listresourcetemplates_plan()),
        McpCommand::SetLevel { level } => DispatchView::Single(
            set_level_plan(level@, lowercase(level@)),
        ),
        McpCommand::Calltool { tool_name, args, interactive, json } => DispatchView::Tool(
            tool_call(tool_name@, texts(args@), interactive, json),
        ),
        McpCommand::ReadResource { uri } => DispatchView::Single(read_resource_plan(uri@)),
        McpCommand::GetPrompt { name, args } => DispatchView::Single(
            get_prompt_plan(name@, texts(args@)),
        ),
        McpCommand::SubscribeResource { uri } => DispatchView::Single(
            subscribe_resource_plan(uri@),
        ),
        McpCommand::UnsubscribeResource { uri } => DispatchView::Single(
            unsubscribe_resource_plan(uri@),
        ),
        McpCommand::Complete { reference, argument } => DispatchView::Single(
            complete_plan(reference@, argument@),
        ),
    }
}

/// Maps a parsed command to the one protocol operation that carries it
/// out, with the command's own fields.
pub fn dispatch(command: McpCommand) -> (d: Dispatch)
    ensures
        d@ == dispatched(command),
{
    match command {
        McpCommand::Ping => Dispatch::Single(ping()),
        McpCommand::Listtools => Dispatch::Single(listtools()),
        McpCommand::Init => Dispatch::Handshake,
        McpCommand::Listresources => Dispatch::Single(listresources()),
        McpCommand::Listprompts => Dispatch::Single(listprompts()),
        McpCommand::Listresourcetemplates => Dispatch::Single(listresourcetemplates()),
        McpCommand::SetLevel { level } => Dispatch::Single(set_level(level.as_str())),
        McpCommand::Calltool { tool_name, args, interactive, json } => Dispatch::Tool(
            calltool(tool_name.as_str(), args, interactive, json),
        ),
        McpCommand::ReadResource { uri } => Dispatch::Single(read_resource(uri.as_str())),
        McpCommand::GetPrompt { name, args } => Dispatch::Single(get_prompt(name.as_str(), args)),
        McpCommand::SubscribeResource { uri } => Dispatch::Single(
            subscribe_resource(uri.as_str()),
        ),
        McpCommand::UnsubscribeResource { uri } => Dispatch::Single(
            unsubscribe_resource(uri.as_str()),
        ),
        McpCommand::Complete { reference, argument } => Dispatch::Single(
            complete(reference.as_str(), argument.as_str()),
        ),
    }
}

} // verus!
