//! Tool registry and dispatch: which tool a call names, whether it may run
//! under the live configuration, and the error taxonomy of the server.
//!
//! The registry is re-read on every call; the reader hands the outcome of
//! that fresh read to [`ZhiServer::is_tool_enabled`], falling back to the
//! boot-time snapshot held in the server when the read failed.

use vstd::prelude::*;

use crate::strutil::{starts_with_spec, str_eq_str, str_starts_with};

verus! {

/// The kind of a tool-call error.
#[derive(Debug, Clone, Copy, PartialEq, Eq, Structural)]
pub enum ErrorKind {
    /// The named tool does not exist.
    UnknownTool,
    /// The tool exists but is switched off in the configuration.
    Disabled,
    /// The arguments did not decode into the tool's request shape.
    InvalidParams,
    /// The UI subprocess failed or could not be spawned.
    TransportFailed,
    /// No UI executable could be located.
    BinaryNotFound,
    /// An unexpected failure, such as a file write going wrong.
    Internal,
}

/// A tool-call error: a kind and a human-readable message.
#[derive(Debug, Clone)]
pub struct ToolError {
    pub kind: ErrorKind,
    pub message: String,
}

/// The per-tool enabled flags, as read from the configuration store.
#[derive(Debug, Clone)]
pub struct ToolSettings {
    pub entries: Vec<(String, bool)>,
}

/// The flag stored for a tool id, if any: the first entry with that id.
pub open spec fn lookup_spec(entries: Seq<(String, bool)>, id: Seq<char>) -> Option<bool>
    decreases entries.len(),
{
    if entries.len() == 0 {
        None
    } else if entries[0].0@ == id {
        Some(entries[0].1)
    } else {
        lookup_spec(entries.drop_first(), id)
    }
}

/// The flag a tool takes when the configuration stores none: its
/// documented default — off for the code-search and prompt-enhancement
/// tools, on for every other tool.
pub open spec fn default_enabled_for(id: Seq<char>) -> bool {
    !(id == "sou"@ || id == "enhance"@)
}

/// The enabled state a settings map gives a tool: the stored flag, and the
/// tool's documented default where the map holds none.
pub open spec fn enabled_spec(settings: ToolSettings, id: Seq<char>) -> bool {
    match lookup_spec(settings.entries@, id) {
        Some(b) => b,
        None => default_enabled_for(id),
    }
}

impl ToolSettings {
    /// An empty settings map: every tool then defaults to enabled.
    pub fn new() -> (r: ToolSettings)
        ensures
            r.entries@.len() == 0,
    {
        ToolSettings { entries: Vec::new() }
    }

    /// Records a flag for a tool id.
    pub fn set(&mut self, id: String, enabled: bool)
        ensures
            final(self).entries@ == old(self).entries@.push((id, enabled)),
    {
        self.entries.push((id, enabled));
    }

    /// The stored flag for `id`, if any: the first entry with that id.
    pub fn lookup(&self, id: &str) -> (r: Option<bool>)
        ensures
            r == lookup_spec(self.entries@, id@),
    {
        let n = self.entries.len();
        proof {
            assert(self.entries@.subrange(0, n as int) =~= self.entries@);
        }
        let mut i: usize = 0;
        while i < n
            invariant
                n == self.entries@.len(),
                i <= n,
                lookup_spec(self.entries@, id@) == lookup_spec(
                    self.entries@.subrange(i as int, n as int),
                    id@,
                ),
            decreases n - i,
        {
            proof {
                assert(self.entries@.subrange(i as int, n as int)[0] == self.entries@[i as int]);
            }
            if str_eq_str(self.entries[i].0.as_str(), id) {
                return Some(self.entries[i].1);
            }
            proof {
                assert(self.entries@.subrange(i as int, n as int).drop_first()
                    =~= self.entries@.subrange(i + 1, n as int));
            }
            i = i + 1;
        }
        None
    }

    /// The stored flag for `id`, or the tool's documented default when none
    /// is stored.
    pub fn enabled(&self, id: &str) -> (r: bool)
        ensures
            r == enabled_spec(*self, id@),
    {
        match self.lookup(id) {
            Some(b) => b,
            None => !(str_eq_str(id, "sou") || str_eq_str(id, "enhance")),
        }
    }
}

/// The long-lived server: holds the boot-time snapshot of the tool flags,
/// used only when a fresh configuration read fails.
#[derive(Debug, Clone)]
pub struct ZhiServer {
    pub enabled_tools: ToolSettings,
}

/// The enabled state one call observes: the fresh read where it succeeded,
/// the boot snapshot where it failed.
pub open spec fn effective_enabled_spec(
    server: ZhiServer,
    fresh: Option<ToolSettings>,
    id: Seq<char>,
) -> bool {
    match fresh {
        Some(settings) => enabled_spec(settings, id),
        None => enabled_spec(server.enabled_tools, id),
    }
}

impl ZhiServer {
    /// A server whose boot snapshot is the given settings map.
    pub fn new(snapshot: ToolSettings) -> (r: ZhiServer)
        ensures
            r.enabled_tools == snapshot,
    {
        ZhiServer { enabled_tools: snapshot }
    }

    /// Whether a tool is enabled for this call. `fresh` is the outcome of
    /// re-reading the configuration for this call: `None` when the read
    /// failed, in which case the boot snapshot decides. A tool the map does
    /// not mention takes its documented default.
    pub fn is_tool_enabled(&self, fresh: Option<&ToolSettings>, tool_name: &str) -> (r: bool)
        ensures
            r == effective_enabled_spec(*self, match fresh {
                Some(s) => Some(*s),
                None => None::<ToolSettings>,
            }, tool_name@),
    {
        match fresh {
            Some(settings) => settings.enabled(tool_name),
            None => self.enabled_tools.enabled(tool_name),
        }
    }
}

/// The tools the dispatcher can route a call to.
#[derive(Debug, Clone, Copy, PartialEq, Eq, Structural)]
pub enum ToolRoute {
    /// The interactive review popup: the one required tool.
    Zhi,
    /// Memory management.
    Ji,
    /// Code search.
    Sou,
    /// Documentation lookup.
    Context7,
    /// The interactive icon picker.
    Tu,
    /// The design-guideline tools, named `uiux_*`.
    Uiux,
    /// Dynamically discovered skill tools, named `skill_run` or `skill_*`.
    Skill,
    /// Prompt enhancement.
    Enhance,
}

/// The tool a call name designates, if any: exact names for the fixed tools,
/// prefixes for the tool families.
pub open spec fn route_of(name: Seq<char>) -> Option<ToolRoute> {
    if name == "zhi"@ {
        Some(ToolRoute::Zhi)
    } else if name == "ji"@ {
        Some(ToolRoute::Ji)
    } else if name == "sou"@ {
        Some(ToolRoute::Sou)
    } else if name == "context7"@ {
        Some(ToolRoute::Context7)
    } else if name == "tu"@ {
        Some(ToolRoute::Tu)
    } else if starts_with_spec(name, "uiux_"@) {
        Some(ToolRoute::Uiux)
    } else if name == "skill_run"@ || starts_with_spec(name, "skill_"@) {
        Some(ToolRoute::Skill)
    } else if name == "enhance"@ {
        Some(ToolRoute::Enhance)
    } else {
        None
    }
}

/// The configuration key that guards a route, if any. The required tool and
/// the skill family are never guarded.
pub open spec fn guard_id_spec(route: ToolRoute) -> Option<Seq<char>> {
    match route {
        ToolRoute::Zhi => None,
        ToolRoute::Ji => Some("ji"@),
        ToolRoute::Sou => Some("sou"@),
        ToolRoute::Context7 => Some("context7"@),
        ToolRoute::Tu => Some("icon"@),
        ToolRoute::Uiux => Some("uiux"@),
        ToolRoute::Skill => None,
        ToolRoute::Enhance => Some("enhance"@),
    }
}

/// The message reported when a guarded tool is disabled.
pub open spec fn disabled_message_spec(route: ToolRoute) -> Seq<char> {
    match route {
        ToolRoute::Ji => "记忆管理工具已被禁用"@,
        ToolRoute::Sou => "代码搜索工具已被禁用"@,
        ToolRoute::Context7 => "Context7 文档查询工具已被禁用"@,
        ToolRoute::Tu => "图标工坊工具已被禁用"@,
        ToolRoute::Uiux => "UI/UX 工具已被禁用"@,
        ToolRoute::Enhance => "提示词增强工具已被禁用"@,
        _ => Seq::<char>::empty(),
    }
}

/// What the enablement guard decides for a call: the route when the tool exists and may
/// run, the error kind when it does not.
pub open spec fn guard_spec(
    name: Seq<char>,
    server: ZhiServer,
    fresh: Option<ToolSettings>,
) -> Result<ToolRoute, ErrorKind> {
    match route_of(name) {
        None => Err(ErrorKind::UnknownTool),
        Some(route) => match guard_id_spec(route) {
            None => Ok(route),
            Some(id) => if effective_enabled_spec(server, fresh, id) {
                Ok(route)
            } else {
                Err(ErrorKind::Disabled)
            },
        },
    }
}

/// Names the tool a call designates and checks its guard, before any
/// arguments are decoded and before any subprocess could be spawned.
///
/// An unknown name is rejected with `UnknownTool`; a guarded tool whose flag
/// is off for this call is rejected with `Disabled`. This function is pure:
/// a call rejected here has had no other effect.
pub fn route_call(name: &str, server: &ZhiServer, fresh: Option<&ToolSettings>) -> (r: Result<
    ToolRoute,
    ToolError,
>)
    ensures
        ({
            let fresh_spec = match fresh {
                Some(s) => Some(*s),
                None => None::<ToolSettings>,
            };
            match guard_spec(name@, *server, fresh_spec) {
                Ok(route) => r matches Ok(rt) && rt == route,
                Err(kind) => r matches Err(e) && e.kind == kind && (kind
                    == ErrorKind::UnknownTool ==> e.message@ == "未知的工具: "@ + name@) && (kind
                    == ErrorKind::Disabled ==> e.message@ == disabled_message_spec(
                    route_of(name@)->Some_0,
                )),
            }
        }),
{
    let route: Option<ToolRoute> = if str_eq_str(name, "zhi") {
        Some(ToolRoute::Zhi)
    } else if str_eq_str(name, "ji") {
        Some(ToolRoute::Ji)
    } else if str_eq_str(name, "sou") {
        Some(ToolRoute::Sou)
    } else if str_eq_str(name, "context7") {
        Some(ToolRoute::Context7)
    } else if str_eq_str(name, "tu") {
        Some(ToolRoute::Tu)
    } else if str_starts_with(name, "uiux_") {
        Some(ToolRoute::Uiux)
    } else if str_eq_str(name, "skill_run") || str_starts_with(name, "skill_") {
        Some(ToolRoute::Skill)
    } else if str_eq_str(name, "enhance") {
        Some(ToolRoute::Enhance)
    } else {
        None
    };
    match route {
        None => {
            let mut msg = String::from_str("未知的工具: ");
            msg.append(name);
            Err(ToolError { kind: ErrorKind::UnknownTool, message: msg })
        },
        Some(rt) => {
            let guard: Option<&str> = match rt {
                ToolRoute::Zhi => None,
                ToolRoute::Ji => Some("ji"),
                ToolRoute::Sou => Some("sou"),
                ToolRoute::Context7 => Some("context7"),
                ToolRoute::Tu => Some("icon"),
                ToolRoute::Uiux => Some("uiux"),
                ToolRoute::Skill => None,
                ToolRoute::Enhance => Some("enhance"),
            };
            match guard {
                None => Ok(rt),
                Some(id) => {
                    if server.is_tool_enabled(fresh, id) {
                        Ok(rt)
                    } else {
                        let msg = match rt {
                            ToolRoute::Ji => String::from_str("记忆管理工具已被禁用"),
                            ToolRoute::Sou => String::from_str("代码搜索工具已被禁用"),
                            ToolRoute::Context7 => String::from_str(
                                "Context7 文档查询工具已被禁用",
                            ),
                            ToolRoute::Tu => String::from_str("图标工坊工具已被禁用"),
                            ToolRoute::Uiux => String::from_str("UI/UX 工具已被禁用"),
                            _ => String::from_str("提示词增强工具已被禁用"),
                        };
                        Err(ToolError { kind: ErrorKind::Disabled, message: msg })
                    }
                },
            }
        },
    }
}

/// Law: a name that designates no tool is rejected as `UnknownTool`,
/// whatever the configuration holds; such a call never reaches a handler and
/// never spawns a subprocess.
pub proof fn lemma_unknown_tool_rejected(
    name: Seq<char>,
    server: ZhiServer,
    fresh: Option<ToolSettings>,
)
    requires
        route_of(name) is None,
    ensures
        guard_spec(name, server, fresh) == Err::<ToolRoute, ErrorKind>(ErrorKind::UnknownTool),
{
}

/// Law: a guarded tool whose effective flag is off for this call is rejected
/// as `Disabled`, whatever the other settings hold; such a call never
/// reaches a handler and never spawns a subprocess.
pub proof fn lemma_disabled_tool_rejected(
    name: Seq<char>,
    server: ZhiServer,
    fresh: Option<ToolSettings>,
)
    requires
        route_of(name) is Some,
        guard_id_spec(route_of(name)->Some_0) is Some,
        !effective_enabled_spec(server, fresh, guard_id_spec(route_of(name)->Some_0)->Some_0),
    ensures
        guard_spec(name, server, fresh) == Err::<ToolRoute, ErrorKind>(ErrorKind::Disabled),
{
}

/// Law: the required tool passes the guard under every configuration, stored
/// flags included: no enablement state can reject it.
pub proof fn lemma_required_tool_never_disabled(server: ZhiServer, fresh: Option<ToolSettings>)
    ensures
        guard_spec("zhi"@, server, fresh) == Ok::<ToolRoute, ErrorKind>(ToolRoute::Zhi),
{
}

} // verus!
