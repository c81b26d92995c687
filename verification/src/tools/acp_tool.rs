//! ACP server for IDE integration: what a call asks for (action, host and
//! port) and the texts it answers with; probing the port happens at the
//! caller.

use vstd::prelude::*;
use crate::json::{fields_view, json_pretty, pretty_object, text_field, JsonField, JsonFieldView};
use crate::text::{decimal, lowercase_of, owned, parse_uint, parse_unsigned, push_str, str_eq, to_lowercase, u64_to_decimal, views};

verus! {

/// The AcpServer tool.
pub struct AcpServerTool;

impl AcpServerTool {
    pub fn new() -> (r: Self) {
        AcpServerTool
    }

    /// Name of the tool.
    pub fn name(&self) -> (r: &'static str)
        ensures
            r@ == "AcpServer"@,
    {
        "AcpServer"
    }

    /// Description of the tool.
    pub fn description(&self) -> (r: &'static str)
        ensures
            r@ == "Start or manage the ACP (Agent Code Protocol) server for IDE integration. \
Exposes code-buddy tools to VS Code, JetBrains, Zed, and other editors via WebSocket. \
Use for agent/IDE bridge workflows and exposing tool capabilities to editor clients. \
Args: <action> [--host <addr>] [--port <n>]
  start [--host <addr>] [--port <n>]  - Start ACP server
  stop                   - Stop running ACP server
  status                 - Check server status
  info                   - Show connection details and available tools
Example: AcpServer('start', '--port 8080')
Example: AcpServer('status')
Example: AcpServer('info')"@,
    {
        "Start or manage the ACP (Agent Code Protocol) server for IDE integration. \
Exposes code-buddy tools to VS Code, JetBrains, Zed, and other editors via WebSocket. \
Use for agent/IDE bridge workflows and exposing tool capabilities to editor clients. \
Args: <action> [--host <addr>] [--port <n>]
  start [--host <addr>] [--port <n>]  - Start ACP server
  stop                   - Stop running ACP server
  status                 - Check server status
  info                   - Show connection details and available tools
Example: AcpServer('start', '--port 8080')
Example: AcpServer('status')
Example: AcpServer('info')"
    }
}


/// The value of the last flag `flag` among `args[1..n]` that has an
/// argument after it, if any.
pub open spec fn flag_value(args: Seq<Seq<char>>, flag: Seq<char>, n: int) -> Option<Seq<char>>
    decreases n,
{
    if n <= 1 {
        None
    } else if args[n - 1] == flag && n < args.len() {
        Some(args[n])
    } else {
        flag_value(args, flag, n - 1)
    }
}

/// The host a call names: the last `--host` value, else `127.0.0.1`.
pub open spec fn acp_host(args: Seq<Seq<char>>) -> Seq<char> {
    match flag_value(args, "--host"@, args.len() as int) {
        Some(h) => h,
        None => "127.0.0.1"@,
    }
}

/// The port a call names: the last `--port` value read as a port, else
/// (absent or not a port) 8080.
pub open spec fn acp_port(args: Seq<Seq<char>>) -> nat {
    match flag_value(args, "--port"@, args.len() as int) {
        Some(p) => match parse_unsigned(p, 65535) {
            Some(v) => v,
            None => 8080,
        },
        None => 8080,
    }
}

/// What an ACP call asks to do.
#[derive(Clone, Copy, Debug, PartialEq, Eq, Structural)]
pub enum AcpAction {
    Start,
    Stop,
    Status,
    Info,
    Unknown,
}

/// The action a lower-cased action word names.
pub open spec fn acp_action_of(a: Seq<char>) -> AcpAction {
    if a == "start"@ {
        AcpAction::Start
    } else if a == "stop"@ {
        AcpAction::Stop
    } else if a == "status"@ {
        AcpAction::Status
    } else if a == "info"@ {
        AcpAction::Info
    } else {
        AcpAction::Unknown
    }
}

/// A call of the ACP tool: its action word (lower-cased), host and port.
pub struct AcpRequest {
    pub action_word: String,
    pub action: AcpAction,
    pub host: String,
    pub port: u16,
}

/// The usage text of the ACP tool.
pub open spec fn acp_usage() -> Seq<char> {
    "AcpServer tool usage:\nstart [--host <addr>] [--port <n>]  - Start ACP server\nstop                   - Stop running ACP server\nstatus                 - Check server status\ninfo                   - Show connection details\n\nThe ACP server exposes all code-buddy tools to IDE clients via WebSocket.\nConnect your editor using the displayed host:port."@
}

impl AcpServerTool {
    /// What a call asks for, or the usage text when it has no arguments.
    pub fn request(&self, args: &[String]) -> (r: Result<AcpRequest, String>)
        ensures
            match r {
                Err(u) => args@.len() == 0 && u@ == acp_usage(),
                Ok(q) => {
                    &&& args@.len() > 0
                    &&& q.action_word@ == lowercase_of(args@[0]@)
                    &&& q.action == acp_action_of(q.action_word@)
                    &&& q.host@ == acp_host(views(args@))
                    &&& q.port == acp_port(views(args@))
                },
            },
    {
        if args.len() == 0 {
            return Err(owned("AcpServer tool usage:\nstart [--host <addr>] [--port <n>]  - Start ACP server\nstop                   - Stop running ACP server\nstatus                 - Check server status\ninfo                   - Show connection details\n\nThe ACP server exposes all code-buddy tools to IDE clients via WebSocket.\nConnect your editor using the displayed host:port."));
        }
        let word = to_lowercase(args[0].as_str());
        let mut host = owned("127.0.0.1");
        let mut port: u16 = 8080;
        let mut i: usize = 1;
        while i < args.len()
            invariant
                1 <= i <= args@.len(),
                host@ == match flag_value(views(args@), "--host"@, i as int) {
                    Some(h) => h,
                    None => "127.0.0.1"@,
                },
                port == match flag_value(views(args@), "--port"@, i as int) {
                    Some(p) => match parse_unsigned(p, 65535) {
                        Some(v) => v,
                        None => 8080,
                    },
                    None => 8080,
                },
            decreases args.len() - i,
        {
            if str_eq(args[i].as_str(), "--host") && i + 1 < args.len() {
                host = args[i + 1].clone();
            } else if str_eq(args[i].as_str(), "--port") && i + 1 < args.len() {
                port = match parse_uint(args[i + 1].as_str(), 65535) {
                    Some(v) => v as u16,
                    None => 8080,
                };
            }
            proof {
                reveal_strlit("--host");
                reveal_strlit("--port");
                assert("--host"@ != "--port"@) by {
                    assert("--host"@[2] != "--port"@[2]);
                }
            }
            i = i + 1;
        }
        let action = if str_eq(word.as_str(), "start") {
            AcpAction::Start
        } else if str_eq(word.as_str(), "stop") {
            AcpAction::Stop
        } else if str_eq(word.as_str(), "status") {
            AcpAction::Status
        } else if str_eq(word.as_str(), "info") {
            AcpAction::Info
        } else {
            AcpAction::Unknown
        };
        Ok(AcpRequest { action_word: word, action, host, port })
    }
}

/// The address `host:port`.
pub fn acp_address(host: &str, port: u16) -> (r: String)
    ensures
        r@ == host@ + ":"@ + decimal(port as nat),
{
    let mut a = owned(host);
    push_str(&mut a, ":");
    let p = u64_to_decimal(port as u64);
    push_str(&mut a, p.as_str());
    a
}

/// The answer to an unknown action.
pub fn acp_unknown_action(action_word: &str) -> (r: String)
    ensures
        r@ == "Unknown action: "@ + action_word@ + "\nActions: start, stop, status, info"@,
{
    let mut m = owned("Unknown action: ");
    push_str(&mut m, action_word);
    push_str(&mut m, "\nActions: start, stop, status, info");
    m
}


/// The tools that the ACP server offers, in order.
pub open spec fn acp_tool_names() -> Seq<Seq<char>> {
    seq![
        "Bash"@,
        "Read"@,
        "Write"@,
        "Edit"@,
        "Glob"@,
        "Grep"@,
        "WebSearch"@,
        "WebFetch"@,
        "AskUserQuestion"@,
        "NotebookEdit"@,
        "TaskCreate"@,
        "TaskComplete"@,
        "Cron"@,
        "Sandbox"@,
        "Container"@,
        "Batch"@,
        "MixtureOfAgents"@,
        "ImageGenerate"@,
        "Skin"@,
        "Profile"@,
        "McpServers"@,
        "ListMcpResources"@,
        "ReadMcpResource"@,
    ]
}

/// The tools that the ACP server offers, with a description of each.
pub open spec fn acp_tool_infos() -> Seq<(Seq<char>, Seq<char>)> {
    seq![
        ("Bash"@, "Execute shell commands"@),
        ("Read"@, "Read files from filesystem"@),
        ("Write"@, "Write files to filesystem"@),
        ("Edit"@, "Edit specific text in files"@),
        ("Glob"@, "Find files by glob pattern"@),
        ("Grep"@, "Search file contents"@),
        ("WebSearch"@, "Search the web"@),
        ("WebFetch"@, "Fetch web page content"@),
        ("AskUserQuestion"@, "Prompt user with choices"@),
        ("NotebookEdit"@, "Edit Jupyter notebooks"@),
        ("TaskCreate"@, "Create a task"@),
        ("TaskComplete"@, "Mark task completed"@),
        ("Cron"@, "Manage scheduled jobs"@),
        ("Sandbox"@, "Execute code safely"@),
        ("Container"@, "Run in Docker/SSH"@),
        ("Batch"@, "Parallel task execution"@),
        ("MixtureOfAgents"@, "Ensemble reasoning"@),
        ("ImageGenerate"@, "Generate AI images"@),
        ("Skin"@, "Theme customization"@),
        ("Profile"@, "Isolated environments"@),
        ("McpServers"@, "List MCP servers"@),
        ("ListMcpResources"@, "List MCP resources"@),
        ("ReadMcpResource"@, "Read MCP resource"@),
    ]
}

/// A tool with its description, as a JSON object.
pub open spec fn tool_record(t: (Seq<char>, Seq<char>)) -> Seq<char> {
    json_pretty(seq![("name"@, JsonFieldView::Text(t.0)), ("description"@, JsonFieldView::Text(t.1))])
}

fn tool_names() -> (r: Vec<String>)
    ensures
        views(r@) == acp_tool_names(),
{
    let r = vec![
        owned("Bash"),
        owned("Read"),
        owned("Write"),
        owned("Edit"),
        owned("Glob"),
        owned("Grep"),
        owned("WebSearch"),
        owned("WebFetch"),
        owned("AskUserQuestion"),
        owned("NotebookEdit"),
        owned("TaskCreate"),
        owned("TaskComplete"),
        owned("Cron"),
        owned("Sandbox"),
        owned("Container"),
        owned("Batch"),
        owned("MixtureOfAgents"),
        owned("ImageGenerate"),
        owned("Skin"),
        owned("Profile"),
        owned("McpServers"),
        owned("ListMcpResources"),
        owned("ReadMcpResource"),
    ];
    assert(views(r@) =~= acp_tool_names());
    r
}

fn tool_records() -> (r: Vec<String>)
    ensures
        views(r@) == acp_tool_infos().map_values(|t: (Seq<char>, Seq<char>)| tool_record(t)),
{
    let infos: Vec<(&'static str, &'static str)> = vec![
        ("Bash", "Execute shell commands"),
        ("Read", "Read files from filesystem"),
        ("Write", "Write files to filesystem"),
        ("Edit", "Edit specific text in files"),
        ("Glob", "Find files by glob pattern"),
        ("Grep", "Search file contents"),
        ("WebSearch", "Search the web"),
        ("WebFetch", "Fetch web page content"),
        ("AskUserQuestion", "Prompt user with choices"),
        ("NotebookEdit", "Edit Jupyter notebooks"),
        ("TaskCreate", "Create a task"),
        ("TaskComplete", "Mark task completed"),
        ("Cron", "Manage scheduled jobs"),
        ("Sandbox", "Execute code safely"),
        ("Container", "Run in Docker/SSH"),
        ("Batch", "Parallel task execution"),
        ("MixtureOfAgents", "Ensemble reasoning"),
        ("ImageGenerate", "Generate AI images"),
        ("Skin", "Theme customization"),
        ("Profile", "Isolated environments"),
        ("McpServers", "List MCP servers"),
        ("ListMcpResources", "List MCP resources"),
        ("ReadMcpResource", "Read MCP resource"),
    ];
    assert(infos@.map_values(|p: (&'static str, &'static str)| (p.0@, p.1@)) =~= acp_tool_infos());
    let mut r: Vec<String> = Vec::new();
    let mut i: usize = 0;
    while i < infos.len()
        invariant
            i <= infos@.len(),
            infos@.map_values(|p: (&'static str, &'static str)| (p.0@, p.1@)) == acp_tool_infos(),
            views(r@) == acp_tool_infos().subrange(0, i as int).map_values(
                |t: (Seq<char>, Seq<char>)| tool_record(t),
            ),
        decreases infos.len() - i,
    {
        let (name, desc) = infos[i];
        assert((name@, desc@) == acp_tool_infos()[i as int]);
        let fields = vec![text_field("name", name), text_field("description", desc)];
        assert(fields_view(fields@) =~= seq![
            ("name"@, JsonFieldView::Text(name@)),
            ("description"@, JsonFieldView::Text(desc@)),
        ]);
        let t = pretty_object(fields.as_slice());
        let ghost before = views(r@);
        r.push(t);
        assert(t@ == tool_record(acp_tool_infos()[i as int]));
        assert(views(r@) =~= before.push(t@));
        assert(acp_tool_infos().subrange(0, i + 1).map_values(|t: (Seq<char>, Seq<char>)| tool_record(t))
            =~= acp_tool_infos().subrange(0, i as int).map_values(|t: (Seq<char>, Seq<char>)| tool_record(t)).push(
            tool_record(acp_tool_infos()[i as int]),
        ));
        assert(views(r@) =~= acp_tool_infos().subrange(0, i + 1).map_values(
            |t: (Seq<char>, Seq<char>)| tool_record(t),
        ));
        i = i + 1;
    }
    assert(acp_tool_infos().subrange(0, i as int) =~= acp_tool_infos());
    r
}

/// The fields of the JSON answer to a call for a known action; `running`
/// is whether something answers on the call's address.
pub open spec fn acp_fields(q: AcpRequest, running: bool) -> Seq<(Seq<char>, JsonFieldView)> {
    let host = q.host@;
    let port = decimal(q.port as nat);
    let addr = host + ":"@ + port;
    match q.action {
        AcpAction::Start => if running {
            seq![
                ("success"@, JsonFieldView::Flag(false)),
                ("message"@, JsonFieldView::Text("ACP server already running on "@ + addr)),
                ("hint"@, JsonFieldView::Text("Use AcpServer('stop') to stop it first"@)),
            ]
        } else {
            seq![
                ("success"@, JsonFieldView::Flag(true)),
                ("message"@, JsonFieldView::Text("ACP server configured on "@ + addr)),
                ("connection"@, JsonFieldView::Raw(json_pretty(seq![
                    ("protocol"@, JsonFieldView::Text("websocket"@)),
                    ("address"@, JsonFieldView::Text(addr)),
                    ("endpoint"@, JsonFieldView::Text("ws://"@ + addr + "/acp"@)),
                ]))),
                ("available_tools"@, JsonFieldView::List(acp_tool_names())),
                ("hint"@, JsonFieldView::Text("Run 'code-buddy acp-server start --host "@ + host + " --port "@ + port
                    + "' in a terminal to start"@)),
                ("host"@, JsonFieldView::Text(host)),
                ("port"@, JsonFieldView::Int(q.port as int)),
            ]
        },
        AcpAction::Stop => if running {
            seq![
                ("success"@, JsonFieldView::Flag(true)),
                ("message"@, JsonFieldView::Text("ACP server stop signal sent to "@ + addr)),
                ("hint"@, JsonFieldView::Text("Server will shut down gracefully"@)),
            ]
        } else {
            seq![
                ("success"@, JsonFieldView::Flag(false)),
                ("message"@, JsonFieldView::Text("No ACP server running on "@ + addr)),
                ("hint"@, JsonFieldView::Text("Start with AcpServer('start', '--host "@ + host + "', '--port "@ + port
                    + "')"@)),
            ]
        },
        AcpAction::Status => seq![
            ("running"@, JsonFieldView::Flag(running)),
            ("address"@, JsonFieldView::Text(addr)),
            ("message"@, JsonFieldView::Text(
                (if running { "ACP server is running on "@ } else { "ACP server not running on "@ }) + addr,
            )),
        ],
        _ => seq![
            ("server_running"@, JsonFieldView::Flag(running)),
            ("address"@, JsonFieldView::Text(addr)),
            ("protocol"@, JsonFieldView::Text("ACP (Agent Code Protocol)"@)),
            ("transport"@, JsonFieldView::Text("WebSocket"@)),
            ("tools"@, JsonFieldView::RawList(acp_tool_infos().map_values(|t: (Seq<char>, Seq<char>)| tool_record(t)))),
        ],
    }
}

/// The answer to a call: for an unknown action its text, else the JSON
/// object of `acp_fields`.
pub open spec fn acp_answer_spec(q: AcpRequest, running: bool) -> Seq<char> {
    if q.action == AcpAction::Unknown {
        "Unknown action: "@ + q.action_word@ + "\nActions: start, stop, status, info"@
    } else {
        json_pretty(acp_fields(q, running))
    }
}

fn push_field(v: &mut Vec<(String, JsonField)>, f: (String, JsonField))
    ensures
        fields_view(final(v)@) == fields_view(old(v)@).push((f.0@, f.1@)),
{
    let ghost before = fields_view(v@);
    v.push(f);
    assert(fields_view(v@) =~= before.push((f.0@, f.1@)));
}

/// The answer of the ACP tool to request `q`; `running` is whether
/// something answers on its address (it is not read for an unknown action).
pub fn acp_answer(q: &AcpRequest, running: bool) -> (r: String)
    ensures
        r@ == acp_answer_spec(*q, running),
{
    if q.action == AcpAction::Unknown {
        return acp_unknown_action(q.action_word.as_str());
    }
    let addr = acp_address(q.host.as_str(), q.port);
    let port = u64_to_decimal(q.port as u64);
    let mut v: Vec<(String, JsonField)> = Vec::new();
    match q.action {
        AcpAction::Start => {
            if running {
                push_field(&mut v, (owned("success"), JsonField::Flag(false)));
                let mut m = owned("ACP server already running on ");
                push_str(&mut m, addr.as_str());
                push_field(&mut v, (owned("message"), JsonField::Text(m)));
                push_field(&mut v, text_field("hint", "Use AcpServer('stop') to stop it first"));
            } else {
                push_field(&mut v, (owned("success"), JsonField::Flag(true)));
                let mut m = owned("ACP server configured on ");
                push_str(&mut m, addr.as_str());
                push_field(&mut v, (owned("message"), JsonField::Text(m)));
                let mut ep = owned("ws://");
                push_str(&mut ep, addr.as_str());
                push_str(&mut ep, "/acp");
                let conn = vec![text_field("protocol", "websocket"), (owned("address"), JsonField::Text(addr.clone())), (owned("endpoint"), JsonField::Text(ep))];
                proof {
                    assert(fields_view(conn@) =~= seq![
                        ("protocol"@, JsonFieldView::Text("websocket"@)),
                        ("address"@, JsonFieldView::Text(addr@)),
                        ("endpoint"@, JsonFieldView::Text("ws://"@ + addr@ + "/acp"@)),
                    ]);
                }
                push_field(&mut v, (owned("connection"), JsonField::Raw(pretty_object(conn.as_slice()))));
                push_field(&mut v, (owned("available_tools"), JsonField::List(tool_names())));
                let mut h = owned("Run 'code-buddy acp-server start --host ");
                push_str(&mut h, q.host.as_str());
                push_str(&mut h, " --port ");
                push_str(&mut h, port.as_str());
                push_str(&mut h, "' in a terminal to start");
                push_field(&mut v, (owned("hint"), JsonField::Text(h)));
                push_field(&mut v, (owned("host"), JsonField::Text(q.host.clone())));
                push_field(&mut v, (owned("port"), JsonField::Int(q.port as i64)));
            }
        },
        AcpAction::Stop => {
            if running {
                push_field(&mut v, (owned("success"), JsonField::Flag(true)));
                let mut m = owned("ACP server stop signal sent to ");
                push_str(&mut m, addr.as_str());
                push_field(&mut v, (owned("message"), JsonField::Text(m)));
                push_field(&mut v, text_field("hint", "Server will shut down gracefully"));
            } else {
                push_field(&mut v, (owned("success"), JsonField::Flag(false)));
                let mut m = owned("No ACP server running on ");
                push_str(&mut m, addr.as_str());
                push_field(&mut v, (owned("message"), JsonField::Text(m)));
                let mut h = owned("Start with AcpServer('start', '--host ");
                push_str(&mut h, q.host.as_str());
                push_str(&mut h, "', '--port ");
                push_str(&mut h, port.as_str());
                push_str(&mut h, "')");
                push_field(&mut v, (owned("hint"), JsonField::Text(h)));
            }
        },
        AcpAction::Status => {
            push_field(&mut v, (owned("running"), JsonField::Flag(running)));
            push_field(&mut v, (owned("address"), JsonField::Text(addr.clone())));
            let mut m = if running { owned("ACP server is running on ") } else { owned("ACP server not running on ") };
            push_str(&mut m, addr.as_str());
            push_field(&mut v, (owned("message"), JsonField::Text(m)));
        },
        _ => {
            push_field(&mut v, (owned("server_running"), JsonField::Flag(running)));
            push_field(&mut v, (owned("address"), JsonField::Text(addr.clone())));
            push_field(&mut v, text_field("protocol", "ACP (Agent Code Protocol)"));
            push_field(&mut v, text_field("transport", "WebSocket"));
            push_field(&mut v, (owned("tools"), JsonField::RawList(tool_records())));
        },
    }
    proof {
        assert(fields_view(v@) =~= acp_fields(*q, running));
    }
    pretty_object(v.as_slice())
}

/// What the ACP tool does with a call before it can answer: the usage text
/// for no arguments, the text for an unknown action, else the request whose
/// address must be probed before `acp_answer` answers it.
pub enum AcpStep {
    Reply(String),
    Probe(AcpRequest),
}

impl AcpServerTool {
    /// The first step of a call (`execute` without the port probe).
    pub fn plan(&self, args: &[String]) -> (r: AcpStep)
        ensures
            args@.len() == 0 ==> (r matches AcpStep::Reply(t) && t@ == acp_usage()),
            args@.len() > 0 ==> {
                let word = lowercase_of(args@[0]@);
                if acp_action_of(word) == AcpAction::Unknown {
                    r matches AcpStep::Reply(t) && t@ == "Unknown action: "@ + word + "\nActions: start, stop, status, info"@
                } else {
                    r matches AcpStep::Probe(q) && q.action_word@ == word && q.action == acp_action_of(word)
                        && q.host@ == acp_host(views(args@)) && q.port == acp_port(views(args@))
                }
            },
    {
        match self.request(args) {
            Err(u) => AcpStep::Reply(u),
            Ok(q) => if q.action == AcpAction::Unknown {
                AcpStep::Reply(acp_unknown_action(q.action_word.as_str()))
            } else {
                AcpStep::Probe(q)
            },
        }
    }
}

} // verus!
