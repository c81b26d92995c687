//! MCP resource tools: resources, servers, and the client that tracks them.

use vstd::prelude::*;
use crate::text::{first_index, owned, push_str, str_eq};
use crate::tools::Tool;

verus! {

/// MCP resource definition.
pub struct McpResource {
    pub uri: String,
    pub name: String,
    pub description: Option<String>,
    pub mime_type: Option<String>,
}

impl Clone for McpResource {
    fn clone(&self) -> (r: Self)
        ensures
            r == *self,
    {
        McpResource {
            uri: self.uri.clone(),
            name: self.name.clone(),
            description: match &self.description {
                Some(d) => Some(d.clone()),
                None => None,
            },
            mime_type: match &self.mime_type {
                Some(m) => Some(m.clone()),
                None => None,
            },
        }
    }
}

impl McpResource {
    /// A resource with a URI and a name and nothing else.
    pub fn new(uri: &str, name: &str) -> (r: Self)
        ensures
            r.uri@ == uri@,
            r.name@ == name@,
            r.description is None,
            r.mime_type is None,
    {
        McpResource { uri: owned(uri), name: owned(name), description: None, mime_type: None }
    }

    /// The same resource with a description.
    pub fn with_description(self, desc: &str) -> (r: Self)
        ensures
            r.uri == self.uri,
            r.name == self.name,
            r.mime_type == self.mime_type,
            r.description matches Some(d) && d@ == desc@,
    {
        McpResource { description: Some(owned(desc)), ..self }
    }

    /// The same resource with a MIME type.
    pub fn with_mime_type(self, mime: &str) -> (r: Self)
        ensures
            r.uri == self.uri,
            r.name == self.name,
            r.description == self.description,
            r.mime_type matches Some(m) && m@ == mime@,
    {
        McpResource { mime_type: Some(owned(mime)), ..self }
    }
}

/// MCP server connection info.
pub struct McpServerInfo {
    pub name: String,
    pub version: Option<String>,
    pub resources: Vec<McpResource>,
}

/// Resources of all servers, in server order.
pub open spec fn all_resources(servers: Seq<McpServerInfo>) -> Seq<McpResource>
    decreases servers.len(),
{
    if servers.len() == 0 {
        Seq::empty()
    } else {
        all_resources(servers.drop_last()) + servers.last().resources@
    }
}

/// The resource has URI `uri`.
pub open spec fn uri_is(uri: Seq<char>) -> spec_fn(McpResource) -> bool {
    |x: McpResource| x.uri@ == uri
}

/// The server is named `name`.
pub open spec fn named(name: Seq<char>) -> spec_fn(McpServerInfo) -> bool {
    |s: McpServerInfo| s.name@ == name
}

/// Client-side registry of MCP servers.
pub struct McpClient {
    servers: Vec<McpServerInfo>,
}

impl McpClient {
    /// The servers, in the order they were added.
    pub closed spec fn servers_spec(&self) -> Seq<McpServerInfo> {
        self.servers@
    }

    /// A client that tracks no server.
    pub fn new() -> (r: Self)
        ensures
            r.servers_spec().len() == 0,
    {
        McpClient { servers: Vec::new() }
    }

    /// Starts tracking `server`.
    pub fn add_server(&mut self, server: McpServerInfo)
        ensures
            final(self).servers_spec() == old(self).servers_spec().push(server),
    {
        self.servers.push(server);
    }

    /// All servers, in order.
    pub fn list_servers(&self) -> (r: Vec<&McpServerInfo>)
        ensures
            r@.len() == self.servers_spec().len(),
            forall|i: int| 0 <= i < r@.len() ==> *r@[i] == self.servers_spec()[i],
    {
        let mut r: Vec<&McpServerInfo> = Vec::new();
        let mut i: usize = 0;
        while i < self.servers.len()
            invariant
                i <= self.servers@.len(),
                r@.len() == i,
                forall|j: int| 0 <= j < i ==> *r@[j] == self.servers@[j],
            decreases self.servers.len() - i,
        {
            r.push(&self.servers[i]);
            i = i + 1;
        }
        r
    }

    /// The first server named `name`.
    pub fn get_server(&self, name: &str) -> (r: Option<&McpServerInfo>)
        ensures
            match first_index(self.servers_spec(), named(name@), 0) {
                Some(i) => r == Some(&self.servers_spec()[i]),
                None => r is None,
            },
    {
        let mut i: usize = 0;
        while i < self.servers.len()
            invariant
                i <= self.servers@.len(),
                first_index(self.servers@, named(name@), 0) == first_index(
                    self.servers@,
                    named(name@),
                    i as int,
                ),
            decreases self.servers.len() - i,
        {
            if str_eq(self.servers[i].name.as_str(), name) {
                return Some(&self.servers[i]);
            }
            i = i + 1;
        }
        None
    }

    /// Every resource of every server, in server order.
    pub fn list_all_resources(&self) -> (r: Vec<&McpResource>)
        ensures
            r@.len() == all_resources(self.servers_spec()).len(),
            forall|i: int| 0 <= i < r@.len() ==> *r@[i] == all_resources(self.servers_spec())[i],
    {
        let mut r: Vec<&McpResource> = Vec::new();
        let mut i: usize = 0;
        while i < self.servers.len()
            invariant
                i <= self.servers@.len(),
                r@.len() == all_resources(self.servers@.subrange(0, i as int)).len(),
                forall|k: int|
                    0 <= k < r@.len() ==> *r@[k] == all_resources(self.servers@.subrange(0, i as int))[k],
            decreases self.servers.len() - i,
        {
            let ghost prev = all_resources(self.servers@.subrange(0, i as int));
            assert(self.servers@.subrange(0, i + 1).drop_last() =~= self.servers@.subrange(0, i as int));
            let s = &self.servers[i];
            let mut j: usize = 0;
            while j < s.resources.len()
                invariant
                    j <= s.resources@.len(),
                    r@.len() == prev.len() + j,
                    forall|k: int| 0 <= k < prev.len() ==> *r@[k] == prev[k],
                    forall|k: int| 0 <= k < j ==> *r@[prev.len() + k] == s.resources@[k],
                decreases s.resources.len() - j,
            {
                r.push(&s.resources[j]);
                j = j + 1;
            }
            proof {
                let next = all_resources(self.servers@.subrange(0, i + 1));
                assert(next =~= prev + s.resources@);
                assert forall|k: int| 0 <= k < r@.len() implies *r@[k] == next[k] by {
                    if k >= prev.len() {
                        assert(*r@[prev.len() + (k - prev.len())] == s.resources@[k - prev.len()]);
                    }
                }
            }
            i = i + 1;
        }
        assert(self.servers@.subrange(0, self.servers@.len() as int) =~= self.servers@);
        r
    }

    /// The first resource, across all servers, with URI `uri`.
    pub fn find_resource(&self, uri: &str) -> (r: Option<&McpResource>)
        ensures
            match first_index(all_resources(self.servers_spec()), uri_is(uri@), 0) {
                Some(i) => r is Some && *r->Some_0 === all_resources(self.servers_spec())[i],
                None => r is None,
            },
    {
        let all = self.list_all_resources();
        let ghost rs = all_resources(self.servers_spec());
        let mut i: usize = 0;
        while i < all.len()
            invariant
                i <= all@.len(),
                rs == all_resources(self.servers_spec()),
                all@.len() == rs.len(),
                forall|k: int| 0 <= k < all@.len() ==> *all@[k] == rs[k],
                first_index(rs, uri_is(uri@), 0) == first_index(
                    rs,
                    uri_is(uri@),
                    i as int,
                ),
            decreases all.len() - i,
        {
            let res: &McpResource = all[i];
            if str_eq(res.uri.as_str(), uri) {
                assert(first_index(rs, uri_is(uri@), i as int) == Some(i as int));
                assert(*all@[i as int] == rs[i as int]);
                assert(*res == rs[i as int]);
                return Some(res);
            }
            i = i + 1;
        }
        None
    }
}

/// Lists available MCP resources.
pub struct ListMcpResourcesTool;

impl ListMcpResourcesTool {
    /// The tool.
    pub fn new() -> Self {
        ListMcpResourcesTool
    }
}

impl Tool for ListMcpResourcesTool {
    fn name(&self) -> (r: &'static str)
        ensures
            r@ == "ListMcpResources"@,
    {
        "ListMcpResources"
    }

    fn description(&self) -> (r: &'static str)
        ensures
            r@ == "List available MCP server resources"@,
    {
        "List available MCP server resources"
    }

    fn execute(&self, args: &[String]) -> (r: Result<String, String>)
        ensures
            r is Ok && r->Ok_0@ == "ListMcpResources: "@ + (if args@.len() > 0 {
                args@[0]@
            } else {
                "(all servers)"@
            }),
    {
        let mut m = owned("ListMcpResources: ");
        if args.len() > 0 {
            push_str(&mut m, args[0].as_str());
        } else {
            push_str(&mut m, "(all servers)");
        }
        Ok(m)
    }
}

/// Reads an MCP resource by URI.
pub struct ReadMcpResourceTool;

impl ReadMcpResourceTool {
    /// The tool.
    pub fn new() -> Self {
        ReadMcpResourceTool
    }
}

impl Tool for ReadMcpResourceTool {
    fn name(&self) -> (r: &'static str)
        ensures
            r@ == "ReadMcpResource"@,
    {
        "ReadMcpResource"
    }

    fn description(&self) -> (r: &'static str)
        ensures
            r@ == "Read a specific MCP resource by URI"@,
    {
        "Read a specific MCP resource by URI"
    }

    fn execute(&self, args: &[String]) -> (r: Result<String, String>)
        ensures
            args@.len() == 0 ==> r is Ok && r->Ok_0@ == "Usage: ReadMcpResource <uri>"@,
            args@.len() > 0 ==> r is Ok && r->Ok_0@ == "ReadMcpResource: "@ + args@[0]@,
    {
        if args.len() == 0 {
            return Ok(owned("Usage: ReadMcpResource <uri>"));
        }
        let mut m = owned("ReadMcpResource: ");
        push_str(&mut m, args[0].as_str());
        Ok(m)
    }
}

/// Manages MCP server connections.
pub struct McpServersTool;

impl McpServersTool {
    /// The tool.
    pub fn new() -> Self {
        McpServersTool
    }
}

impl Tool for McpServersTool {
    fn name(&self) -> (r: &'static str)
        ensures
            r@ == "McpServers"@,
    {
        "McpServers"
    }

    fn description(&self) -> (r: &'static str)
        ensures
            r@ == "List and manage MCP server connections"@,
    {
        "List and manage MCP server connections"
    }

    fn execute(&self, args: &[String]) -> (r: Result<String, String>)
        ensures
            r is Ok,
            ({
                let action = if args@.len() > 0 {
                    args@[0]@
                } else {
                    "list"@
                };
                r->Ok_0@ == (if action == "list"@ {
                    "McpServers: listing available servers"@
                } else if action == "add"@ {
                    "McpServers: adding new server"@
                } else if action == "remove"@ {
                    "McpServers: removing server"@
                } else {
                    "McpServers: unknown action '"@ + action + "'"@
                })
            }),
    {
        let action = if args.len() > 0 {
            args[0].clone()
        } else {
            owned("list")
        };
        if str_eq(action.as_str(), "list") {
            Ok(owned("McpServers: listing available servers"))
        } else if str_eq(action.as_str(), "add") {
            Ok(owned("McpServers: adding new server"))
        } else if str_eq(action.as_str(), "remove") {
            Ok(owned("McpServers: removing server"))
        } else {
            let mut m = owned("McpServers: unknown action '");
            push_str(&mut m, action.as_str());
            push_str(&mut m, "'");
            Ok(m)
        }
    }
}

/// Markdown of one resource.
pub open spec fn resource_md(r: McpResource) -> Seq<char> {
    "### "@ + r.name@ + "\n"@ + "URI: `"@ + r.uri@ + "`\n"@ + (match r.description {
        Some(d) => d@ + "\n"@,
        None => Seq::empty(),
    }) + (match r.mime_type {
        Some(m) => "Type: "@ + m@ + "\n"@,
        None => Seq::empty(),
    }) + "\n"@
}

/// Markdown of a list of resources.
pub open spec fn resources_md(rs: Seq<McpResource>) -> Seq<char>
    decreases rs.len(),
{
    if rs.len() == 0 {
        Seq::empty()
    } else {
        resources_md(rs.drop_last()) + resource_md(rs.last())
    }
}

/// Markdown of one server and its resources.
pub open spec fn server_md(s: McpServerInfo) -> Seq<char> {
    "## Server: "@ + s.name@ + "\n"@ + (match s.version {
        Some(v) => "Version: "@ + v@ + "\n\n"@,
        None => Seq::empty(),
    }) + (if s.resources@.len() == 0 {
        "No resources available.\n"@
    } else {
        resources_md(s.resources@)
    }) + "\n"@
}

/// Markdown of a list of servers.
pub open spec fn servers_md(ss: Seq<McpServerInfo>) -> Seq<char>
    decreases ss.len(),
{
    if ss.len() == 0 {
        Seq::empty()
    } else {
        servers_md(ss.drop_last()) + server_md(ss.last())
    }
}

fn append_resource_md(md: &mut String, r: &McpResource)
    ensures
        final(md)@ == old(md)@ + resource_md(*r),
{
    push_str(md, "### ");
    push_str(md, r.name.as_str());
    push_str(md, "\n");
    push_str(md, "URI: `");
    push_str(md, r.uri.as_str());
    push_str(md, "`\n");
    match &r.description {
        Some(d) => {
            push_str(md, d.as_str());
            push_str(md, "\n");
        },
        None => {},
    }
    match &r.mime_type {
        Some(m) => {
            push_str(md, "Type: ");
            push_str(md, m.as_str());
            push_str(md, "\n");
        },
        None => {},
    }
    push_str(md, "\n");
}

fn append_server_md(md: &mut String, s: &McpServerInfo)
    ensures
        final(md)@ == old(md)@ + server_md(*s),
{
    push_str(md, "## Server: ");
    push_str(md, s.name.as_str());
    push_str(md, "\n");
    match &s.version {
        Some(v) => {
            push_str(md, "Version: ");
            push_str(md, v.as_str());
            push_str(md, "\n\n");
        },
        None => {},
    }
    let ghost mid = md@;
    if s.resources.len() == 0 {
        push_str(md, "No resources available.\n");
    } else {
        let mut i: usize = 0;
        while i < s.resources.len()
            invariant
                i <= s.resources@.len(),
                md@ == mid + resources_md(s.resources@.subrange(0, i as int)),
            decreases s.resources.len() - i,
        {
            assert(s.resources@.subrange(0, i + 1).drop_last() =~= s.resources@.subrange(0, i as int));
            append_resource_md(md, &s.resources[i]);
            i = i + 1;
        }
        assert(s.resources@.subrange(0, i as int) =~= s.resources@);
    }
    push_str(md, "\n");
}

/// Markdown overview of MCP servers and their resources.
pub fn format_mcp_resources(resources: &[&McpResource], servers: &[&McpServerInfo]) -> (r: String)
    ensures
        servers@.len() == 0 ==> r@ == "# MCP Resources\n\nNo MCP servers connected.\n"@,
        servers@.len() > 0 ==> r@ == "# MCP Resources\n\n"@ + servers_md(
            servers@.map_values(|s: &McpServerInfo| *s),
        ),
{
    let mut md = owned("# MCP Resources\n\n");
    if servers.len() == 0 {
        push_str(&mut md, "No MCP servers connected.\n");
        proof {
            reveal_strlit("# MCP Resources\n\n");
            reveal_strlit("No MCP servers connected.\n");
            reveal_strlit("# MCP Resources\n\nNo MCP servers connected.\n");
        }
        return md;
    }
    let ghost ss = servers@.map_values(|s: &McpServerInfo| *s);
    let ghost start = md@;
    let mut i: usize = 0;
    while i < servers.len()
        invariant
            i <= servers@.len(),
            ss == servers@.map_values(|s: &McpServerInfo| *s),
            md@ == start + servers_md(ss.subrange(0, i as int)),
        decreases servers.len() - i,
    {
        assert(ss.subrange(0, i + 1).drop_last() =~= ss.subrange(0, i as int));
        append_server_md(&mut md, servers[i]);
        i = i + 1;
    }
    assert(ss.subrange(0, i as int) =~= ss);
    md
}

} // verus!
