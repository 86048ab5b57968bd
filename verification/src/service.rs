//! The authenticated tool-dispatch surface: an explicit registry of the
//! four memory tools, schema validation of raw inputs, and dispatch that
//! resolves the caller's tenant from the authenticated context alone —
//! never from a caller-supplied parameter — before touching the store.

use vstd::prelude::*;
use vstd::string::StringExecFns;
use crate::auth::AuthenticatedContext;
use crate::memory::{
    spec_find_record, spec_matching_records, spec_tenant_records, Memory, MemoryController,
    UpstreamError,
};
use crate::text::str_eq;

verus! {

/// Input of the `add_memory` tool.
#[derive(Clone, Debug)]
pub struct AddMemoryRequest {
    pub text: String,
}

/// Input of the `get_memory_by_query` tool.
#[derive(Clone, Debug)]
pub struct GetMemoriesByQueryRequest {
    pub query: String,
}

/// Input of the `update_memory` tool.
#[derive(Clone, Debug)]
pub struct UpdateMememoryRequest {
    pub memory_id: String,
    pub content: String,
}

/// A tool-level failure, surfaced as structured result data, never as a
/// transport failure: an unknown tool name, input that fails the tool's
/// schema (with a human-readable reason), a context without an identity,
/// or a wrapped store failure.
#[derive(Clone, Debug, PartialEq, Eq)]
pub enum ToolError {
    ToolNotFound,
    InvalidInput(String),
    Unauthorized,
    Upstream(UpstreamError),
}

/// A successful tool result: the persisted record for `add_memory`, the
/// record list for the two retrieval tools, or nothing for `update_memory`.
#[derive(Clone, Debug)]
pub enum ToolOutput {
    Record(Memory),
    Records(Vec<Memory>),
    Done,
}

/// One registered tool: its unique name, a description for capability
/// discovery, and the string fields its input object must carry.
#[derive(Clone, Debug)]
pub struct ToolDefinition {
    pub name: String,
    pub description: String,
    pub required_fields: Vec<String>,
}

/// Registering a name that is already taken: a startup-time error.
#[derive(Clone, Copy, Debug, PartialEq, Eq, Structural)]
pub struct DuplicateTool;

/// Whether some registered tool bears `name`.
pub open spec fn spec_has_tool(tools: Seq<ToolDefinition>, name: Seq<char>) -> bool {
    exists|i: int| 0 <= i < tools.len() && tools[i].name@ == name
}

/// The registry mapping tool names to handlers: built once at startup,
/// read-only afterwards.
#[derive(Clone, Debug)]
pub struct ToolRouter {
    pub tools: Vec<ToolDefinition>,
}

impl ToolRouter {
    /// Tool names are unique within the router.
    pub open spec fn wf(&self) -> bool {
        forall|i: int, j: int| 0 <= i < j < self.tools@.len()
            ==> self.tools@[i].name@ != self.tools@[j].name@
    }

    /// An empty registry.
    pub fn new() -> (r: ToolRouter)
        ensures
            r.tools@ == Seq::<ToolDefinition>::empty(),
            r.wf(),
    {
        ToolRouter { tools: Vec::new() }
    }

    /// Adds a tool; a duplicate name is refused and changes nothing.
    pub fn register(&mut self, tool: ToolDefinition) -> (r: Result<(), DuplicateTool>)
        ensures
            match r {
                Ok(_) => final(self).tools@ == old(self).tools@.push(tool)
                    && !spec_has_tool(old(self).tools@, tool.name@),
                Err(_) => spec_has_tool(old(self).tools@, tool.name@)
                    && *final(self) == *old(self),
            },
            old(self).wf() ==> final(self).wf(),
    {
        let n = self.tools.len();
        for i in 0..n
            invariant
                *self == *old(self),
                n == self.tools@.len(),
                forall|j: int| 0 <= j < i ==> (#[trigger] self.tools@[j]).name@ != tool.name@,
        {
            if self.tools[i].name.eq(&tool.name) {
                return Err(DuplicateTool);
            }
        }
        self.tools.push(tool);
        Ok(())
    }

    /// The registered tools, for capability discovery.
    pub fn list(&self) -> (r: &Vec<ToolDefinition>)
        ensures
            *r == self.tools,
    {
        &self.tools
    }

    /// The position of the tool named `name`, if one is registered.
    pub fn find(&self, name: &str) -> (r: Option<usize>)
        ensures
            match r {
                Some(i) => i < self.tools@.len() && self.tools@[i as int].name@ == name@,
                None => !spec_has_tool(self.tools@, name@),
            },
    {
        let n = self.tools.len();
        for i in 0..n
            invariant
                n == self.tools@.len(),
                forall|j: int| 0 <= j < i ==> (#[trigger] self.tools@[j]).name@ != name@,
        {
            if str_eq(self.tools[i].name.as_str(), name) {
                return Some(i);
            }
        }
        None
    }
}

/// The first value in `args` stored under `key`, if any: raw tool input is
/// a parsed JSON object given as field-name/value pairs.
pub open spec fn spec_lookup_field(args: Seq<(String, String)>, key: Seq<char>) -> Option<Seq<char>>
    decreases args.len(),
{
    if args.len() == 0 {
        None
    } else if args[0].0@ == key {
        Some(args[0].1@)
    } else {
        spec_lookup_field(args.skip(1), key)
    }
}

proof fn lemma_lookup_field_skip(args: Seq<(String, String)>, key: Seq<char>, i: int)
    requires
        0 <= i <= args.len(),
        forall|j: int| 0 <= j < i ==> (#[trigger] args[j]).0@ != key,
    ensures
        spec_lookup_field(args, key) == spec_lookup_field(args.skip(i), key),
    decreases i,
{
    if i > 0 {
        lemma_lookup_field_skip(args, key, i - 1);
        assert(args.skip(i - 1).skip(1) =~= args.skip(i));
        assert(args.skip(i - 1)[0] == args[i - 1]);
    } else {
        assert(args.skip(0) =~= args);
    }
}

/// Looks `key` up in a raw input object.
pub fn lookup_field<'a>(args: &'a Vec<(String, String)>, key: &str) -> (r: Option<&'a String>)
    ensures
        match r {
            Some(v) => spec_lookup_field(args@, key@) == Some(v@),
            None => spec_lookup_field(args@, key@) is None,
        },
{
    let n = args.len();
    for i in 0..n
        invariant
            n == args@.len(),
            forall|j: int| 0 <= j < i ==> (#[trigger] args@[j]).0@ != key@,
    {
        if str_eq(args[i].0.as_str(), key) {
            proof {
                lemma_lookup_field_skip(args@, key@, i as int);
                assert(args@.skip(i as int)[0] == args@[i as int]);
            }
            return Some(&args[i].1);
        }
    }
    proof {
        lemma_lookup_field_skip(args@, key@, n as int);
    }
    None
}

/// Server self-description for the protocol's initialization handshake.
#[derive(Clone, Debug)]
pub struct ServerInfo {
    pub instructions: String,
    pub prompts_enabled: bool,
    pub resources_enabled: bool,
    pub tools_enabled: bool,
}

/// The tool service both transports feed into: the registry of the four
/// memory tools and the tenant-scoped store they operate on.
pub struct McpService {
    pub router: ToolRouter,
    pub controller: MemoryController,
}

/// The four tool names are pairwise distinct, so a dispatched name can
/// match at most one handler.
proof fn lemma_tool_names_distinct()
    ensures
        "add_memory"@ != "get_memory"@,
        "add_memory"@ != "get_memory_by_query"@,
        "add_memory"@ != "update_memory"@,
        "get_memory"@ != "get_memory_by_query"@,
        "get_memory"@ != "update_memory"@,
        "get_memory_by_query"@ != "update_memory"@,
{
    reveal_strlit("add_memory");
    reveal_strlit("get_memory");
    reveal_strlit("get_memory_by_query");
    reveal_strlit("update_memory");
    assert("add_memory"@.len() == 10 && "get_memory"@.len() == 10
        && "get_memory_by_query"@.len() == 19 && "update_memory"@.len() == 13);
    assert("add_memory"@[0] == 'a' && "get_memory"@[0] == 'g'
        && "update_memory"@[0] == 'u' && "get_memory_by_query"@[0] == 'g');
}

impl McpService {
    /// The registry holds exactly the four memory tools, in registration
    /// order, over a well-formed store.
    pub open spec fn wf(&self) -> bool {
        &&& self.controller.wf()
        &&& self.router.tools@.len() == 4
        &&& self.router.tools@[0].name@ == "add_memory"@
        &&& self.router.tools@[1].name@ == "get_memory"@
        &&& self.router.tools@[2].name@ == "get_memory_by_query"@
        &&& self.router.tools@[3].name@ == "update_memory"@
    }

    /// A fresh service: registers the four tools and starts from an empty
    /// store.
    pub fn new() -> (r: McpService)
        ensures
            r.wf(),
            r.router.wf(),
            r.controller.records@ == Seq::<Memory>::empty(),
            r.controller.next_id == 0,
    {
        proof {
            lemma_tool_names_distinct();
        }
        let mut router = ToolRouter::new();
        let _ = router.register(ToolDefinition {
            name: String::from_str("add_memory"),
            description: String::from_str("Persist one memory for the caller."),
            required_fields: vec![String::from_str("text")],
        });
        let _ = router.register(ToolDefinition {
            name: String::from_str("get_memory"),
            description: String::from_str("Retrieve all of the caller's memories."),
            required_fields: Vec::new(),
        });
        let _ = router.register(ToolDefinition {
            name: String::from_str("get_memory_by_query"),
            description: String::from_str("Retrieve the caller's memories relevant to a query."),
            required_fields: vec![String::from_str("query")],
        });
        let _ = router.register(ToolDefinition {
            name: String::from_str("update_memory"),
            description: String::from_str("Replace the content of one of the caller's memories."),
            required_fields: vec![String::from_str("memory_id"), String::from_str("content")],
        });
        McpService { router, controller: MemoryController::new() }
    }

    /// Persists `req.text` for the caller's tenant; empty text is invalid
    /// input. On success the returned record carries exactly the given
    /// text and the caller's subject as tenant.
    pub fn add_memory(&mut self, ctx: &AuthenticatedContext, req: AddMemoryRequest) -> (r: Result<
        Memory,
        ToolError,
    >)
        requires
            old(self).wf(),
        ensures
            final(self).wf(),
            final(self).router == old(self).router,
            req.text@.len() == 0 ==> (r matches Err(ToolError::InvalidInput(_)))
                && final(self).controller == old(self).controller,
            req.text@.len() > 0 ==> match r {
                Ok(m) => {
                    &&& m.user_id@ == ctx.subject@
                    &&& m.content@ == req.text@
                    &&& final(self).controller.records@ == old(self).controller.records@.push(m)
                    &&& forall|i: int| 0 <= i < old(self).controller.records@.len()
                        ==> old(self).controller.records@[i].memory_id@ != m.memory_id@
                },
                Err(e) => e == ToolError::Upstream(UpstreamError::Unavailable)
                    && old(self).controller.next_id == u64::MAX
                    && final(self).controller == old(self).controller,
            },
    {
        if req.text.as_str().is_empty() {
            return Err(ToolError::InvalidInput(String::from_str("Memory content cannot be empty")));
        }
        match self.controller.add_memory(ctx.subject.clone(), req.text) {
            Ok(m) => Ok(m),
            Err(_) => Err(ToolError::Upstream(UpstreamError::Unavailable)),
        }
    }

    /// All records owned by the caller's tenant, in stored order.
    pub fn get_memory(&self, ctx: &AuthenticatedContext) -> (r: Vec<Memory>)
        ensures
            r@ == spec_tenant_records(self.controller.records@, ctx.subject@),
    {
        self.controller.get_memories_by_user_id(ctx.subject.as_str())
    }

    /// The caller's records whose content contains `req.query`; an empty
    /// query is invalid input.
    pub fn get_memory_by_query(&self, ctx: &AuthenticatedContext, req: GetMemoriesByQueryRequest) -> (r: Result<
        Vec<Memory>,
        ToolError,
    >)
        ensures
            req.query@.len() == 0 ==> r matches Err(ToolError::InvalidInput(_)),
            req.query@.len() > 0 ==> match r {
                Ok(v) => v@ == spec_matching_records(
                    self.controller.records@,
                    ctx.subject@,
                    req.query@,
                ),
                Err(_) => false,
            },
    {
        if req.query.as_str().is_empty() {
            return Err(ToolError::InvalidInput(String::from_str("Query cannot be empty")));
        }
        Ok(self.controller.get_memories_by_query(ctx.subject.as_str(), req.query.as_str()))
    }

    /// Replaces the content of the caller's record `req.memory_id` — full
    /// replacement of the content field only. A record another tenant owns
    /// is indistinguishable from one that does not exist.
    pub fn update_memory(&mut self, ctx: &AuthenticatedContext, req: UpdateMememoryRequest) -> (r: Result<
        (),
        ToolError,
    >)
        requires
            old(self).wf(),
        ensures
            final(self).wf(),
            final(self).router == old(self).router,
            match spec_find_record(old(self).controller.records@, ctx.subject@, req.memory_id@) {
                Some(i) => {
                    &&& r == Ok::<(), ToolError>(())
                    &&& final(self).controller.records@.len() == old(self).controller.records@.len()
                    &&& (forall|j: int| 0 <= j < old(self).controller.records@.len() && j != i
                        ==> #[trigger] final(self).controller.records@[j]
                            == old(self).controller.records@[j])
                    &&& final(self).controller.records@[i].memory_id@ == req.memory_id@
                    &&& final(self).controller.records@[i].user_id@ == ctx.subject@
                    &&& final(self).controller.records@[i].content@ == req.content@
                },
                None => r == Err::<(), ToolError>(ToolError::Upstream(UpstreamError::NotFound))
                    && final(self).controller == old(self).controller,
            },
    {
        match self.controller.update_memory(
            ctx.subject.as_str(),
            req.memory_id.as_str(),
            req.content,
        ) {
            Ok(_) => Ok(()),
            Err(_) => Err(ToolError::Upstream(UpstreamError::NotFound)),
        }
    }

    /// The server's self-description: instructions plus the prompt,
    /// resource and tool capabilities, all enabled.
    pub fn get_info(&self) -> (r: ServerInfo)
        ensures
            r.instructions@ == "An external Memory Persistence Layer for LLM and AI Agents"@,
            r.prompts_enabled,
            r.resources_enabled,
            r.tools_enabled,
    {
        ServerInfo {
            instructions: String::from_str(
                "An external Memory Persistence Layer for LLM and AI Agents",
            ),
            prompts_enabled: true,
            resources_enabled: true,
            tools_enabled: true,
        }
    }

    /// Routes one parsed tool call: unknown names become `ToolNotFound`
    /// (structured data, not a transport failure), inputs are validated
    /// against the tool's schema, and the caller's tenant is taken from
    /// the authenticated context alone.
    pub fn dispatch(&mut self, name: &str, args: &Vec<(String, String)>, ctx: &AuthenticatedContext) -> (r: Result<
        ToolOutput,
        ToolError,
    >)
        requires
            old(self).wf(),
        ensures
            final(self).wf(),
            final(self).router == old(self).router,
            !spec_has_tool(old(self).router.tools@, name@)
                ==> r == Err::<ToolOutput, ToolError>(ToolError::ToolNotFound)
                    && final(self).controller == old(self).controller,
            name@ == "add_memory"@ ==> match spec_lookup_field(args@, "text"@) {
                None => (r matches Err(ToolError::InvalidInput(_)))
                    && final(self).controller == old(self).controller,
                Some(text) => {
                    &&& text.len() == 0 ==> (r matches Err(ToolError::InvalidInput(_)))
                        && final(self).controller == old(self).controller
                    &&& text.len() > 0 ==> match r {
                        Ok(out) => out matches ToolOutput::Record(m)
                            && m.user_id@ == ctx.subject@
                            && m.content@ == text
                            && final(self).controller.records@
                                == old(self).controller.records@.push(m),
                        Err(e) => e == ToolError::Upstream(UpstreamError::Unavailable)
                            && old(self).controller.next_id == u64::MAX
                            && final(self).controller == old(self).controller,
                    }
                },
            },
            name@ == "get_memory"@ ==> final(self).controller == old(self).controller
                && match r {
                    Ok(out) => out matches ToolOutput::Records(v)
                        && v@ == spec_tenant_records(old(self).controller.records@, ctx.subject@),
                    Err(_) => false,
                },
            name@ == "get_memory_by_query"@ ==> final(self).controller == old(self).controller
                && match spec_lookup_field(args@, "query"@) {
                    None => r matches Err(ToolError::InvalidInput(_)),
                    Some(query) => {
                        &&& query.len() == 0 ==> (r matches Err(ToolError::InvalidInput(_)))
                        &&& query.len() > 0 ==> match r {
                            Ok(out) => out matches ToolOutput::Records(v)
                                && v@ == spec_matching_records(
                                    old(self).controller.records@,
                                    ctx.subject@,
                                    query,
                                ),
                            Err(_) => false,
                        }
                    },
                },
            name@ == "update_memory"@ ==> match (
                spec_lookup_field(args@, "memory_id"@),
                spec_lookup_field(args@, "content"@),
            ) {
                (Some(id), Some(content)) => match spec_find_record(
                    old(self).controller.records@,
                    ctx.subject@,
                    id,
                ) {
                    Some(i) => {
                        &&& r == Ok::<ToolOutput, ToolError>(ToolOutput::Done)
                        &&& final(self).controller.records@.len()
                            == old(self).controller.records@.len()
                        &&& (forall|j: int|
                            0 <= j < old(self).controller.records@.len() && j != i
                                ==> #[trigger] final(self).controller.records@[j]
                                    == old(self).controller.records@[j])
                        &&& final(self).controller.records@[i].memory_id@ == id
                        &&& final(self).controller.records@[i].user_id@ == ctx.subject@
                        &&& final(self).controller.records@[i].content@ == content
                    },
                    None => r == Err::<ToolOutput, ToolError>(
                        ToolError::Upstream(UpstreamError::NotFound),
                    ) && final(self).controller == old(self).controller,
                },
                _ => (r matches Err(ToolError::InvalidInput(_)))
                    && final(self).controller == old(self).controller,
            },
    {
        proof {
            lemma_tool_names_distinct();
        }
        if self.router.find(name).is_none() {
            return Err(ToolError::ToolNotFound);
        }
        if str_eq(name, "add_memory") {
            let text = match lookup_field(args, "text") {
                Some(t) => t.clone(),
                None => return Err(ToolError::InvalidInput(String::from_str("text is required"))),
            };
            match self.add_memory(ctx, AddMemoryRequest { text }) {
                Ok(m) => Ok(ToolOutput::Record(m)),
                Err(e) => Err(e),
            }
        } else if str_eq(name, "get_memory") {
            Ok(ToolOutput::Records(self.get_memory(ctx)))
        } else if str_eq(name, "get_memory_by_query") {
            let query = match lookup_field(args, "query") {
                Some(q) => q.clone(),
                None => return Err(ToolError::InvalidInput(String::from_str("query is required"))),
            };
            match self.get_memory_by_query(ctx, GetMemoriesByQueryRequest { query }) {
                Ok(v) => Ok(ToolOutput::Records(v)),
                Err(e) => Err(e),
            }
        } else {
            let memory_id = match lookup_field(args, "memory_id") {
                Some(v) => v.clone(),
                None => return Err(
                    ToolError::InvalidInput(String::from_str("memory_id is required")),
                ),
            };
            let content = match lookup_field(args, "content") {
                Some(v) => v.clone(),
                None => return Err(
                    ToolError::InvalidInput(String::from_str("content is required")),
                ),
            };
            match self.update_memory(ctx, UpdateMememoryRequest { memory_id, content }) {
                Ok(_) => Ok(ToolOutput::Done),
                Err(e) => Err(e),
            }
        }
    }
}

} // verus!

