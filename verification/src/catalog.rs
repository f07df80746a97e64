//! The tool catalogue shown to clients and to the front end: which tools
//! exist, which the live configuration enables, and the data shapes the
//! front end reads them in.

use vstd::prelude::*;

use crate::dispatch::{lookup_spec, ToolSettings};

verus! {

/// One tool's card in the front end's list.
#[derive(Debug, Clone)]
pub struct MCPToolConfig {
    pub id: String,
    pub name: String,
    pub description: String,
    pub enabled: bool,
    pub can_disable: bool,
    pub icon: String,
    pub icon_bg: String,
    pub dark_icon_bg: String,
    pub has_config: bool,
}

/// One remembered note, as the front end shows it.
#[derive(Debug, Clone)]
pub struct MemoryEntryDto {
    pub id: String,
    pub content: String,
    pub category: String,
    pub created_at: String,
}

/// The outcome of a memory deduplication run.
#[derive(Debug, Clone)]
pub struct DedupResultDto {
    pub original_count: usize,
    pub removed_count: usize,
    pub remaining_count: usize,
    pub removed_ids: Vec<String>,
}

/// How many notes of each kind are stored.
#[derive(Debug, Clone)]
pub struct MemoryStatsDto {
    pub total: usize,
    pub rules: usize,
    pub preferences: usize,
    pub patterns: usize,
    pub contexts: usize,
}

/// The flag stored for a tool, or the tool's own default where the map
/// holds none.
pub open spec fn enabled_with_default(
    settings: ToolSettings,
    id: Seq<char>,
    default: bool,
) -> bool {
    match lookup_spec(settings.entries@, id) {
        Some(b) => b,
        None => default,
    }
}

fn enabled_or(settings: &ToolSettings, id: &str, default: bool) -> (r: bool)
    ensures
        r == enabled_with_default(*settings, id@, default),
{
    match settings.lookup(id) {
        Some(b) => b,
        None => default,
    }
}

/// The catalogue order and each tool's traits: id, whether it may be
/// switched off, whether it has a settings panel, and its default flag.
pub open spec fn catalog_id(i: int) -> Seq<char> {
    if i == 0 {
        "zhi"@
    } else if i == 1 {
        "ji"@
    } else if i == 2 {
        "sou"@
    } else if i == 3 {
        "context7"@
    } else if i == 4 {
        "uiux"@
    } else if i == 5 {
        "enhance"@
    } else {
        "icon"@
    }
}

/// The flag a catalogue entry shows when the configuration stores none.
pub open spec fn catalog_default(i: int) -> bool {
    if i == 2 || i == 5 {
        false
    } else {
        true
    }
}

/// The display name of a catalogue entry.
pub open spec fn catalog_name(i: int) -> Seq<char> {
    if i == 0 {
        "三术"@
    } else if i == 1 {
        "记忆管理"@
    } else if i == 2 {
        "代码搜索"@
    } else if i == 3 {
        "Context7 文档查询"@
    } else if i == 4 {
        "UI/UX Pro Max"@
    } else if i == 5 {
        "提示词增强"@
    } else {
        "图标工坊"@
    }
}

/// The description of a catalogue entry.
pub open spec fn catalog_description(i: int) -> Seq<char> {
    if i == 0 {
        "智能代码审查交互工具，支持预定义选项、自由文本输入和图片上传"@
    } else if i == 1 {
        "全局记忆管理工具，用于存储和管理重要的开发规范、用户偏好和最佳实践"@
    } else if i == 2 {
        "基于查询在特定项目中搜索相关的代码上下文，支持语义搜索和增量索引"@
    } else if i == 3 {
        "查询最新的框架和库文档，支持 Next.js、React、Vue、Spring 等主流框架"@
    } else if i == 4 {
        "UI/UX 设计智能检索与设计系统生成工具"@
    } else if i == 5 {
        "将口语化提示词增强为结构化专业提示词，支持上下文与历史"@
    } else {
        "搜索和管理 Iconfont 图标库，支持预览、复制 SVG 和下载到项目"@
    }
}

/// Whether a catalogue entry may be switched off: all but the required
/// tool.
pub open spec fn catalog_can_disable(i: int) -> bool {
    i != 0
}

/// Whether a catalogue entry has a settings panel.
pub open spec fn catalog_has_config(i: int) -> bool {
    i != 0 && i != 4
}

/// The front end's tool list, in catalogue order, each entry's flag read
/// from the stored configuration with the tool's own default.
pub fn tool_catalog(settings: &ToolSettings) -> (r: Vec<MCPToolConfig>)
    ensures
        r@.len() == 7,
        forall|i: int|
            0 <= i < 7 ==> (#[trigger] r@[i]).id@ == catalog_id(i) && r@[i].name@
                == catalog_name(i) && r@[i].description@ == catalog_description(i)
                && r@[i].enabled == enabled_with_default(
                *settings,
                catalog_id(i),
                catalog_default(i),
            ) && r@[i].can_disable == catalog_can_disable(i) && r@[i].has_config
                == catalog_has_config(i),
{
    let mut out: Vec<MCPToolConfig> = Vec::new();
    out.push(
        MCPToolConfig {
            id: String::from_str("zhi"),
            name: String::from_str("三术"),
            description: String::from_str(
                "智能代码审查交互工具，支持预定义选项、自由文本输入和图片上传",
            ),
            enabled: enabled_or(settings, "zhi", true),
            can_disable: false,
            icon: String::from_str("i-carbon-chat text-lg text-blue-600 dark:text-blue-400"),
            icon_bg: String::from_str("bg-blue-100 dark:bg-blue-900"),
            dark_icon_bg: String::from_str("dark:bg-blue-800"),
            has_config: false,
        },
    );
    out.push(
        MCPToolConfig {
            id: String::from_str("ji"),
            name: String::from_str("记忆管理"),
            description: String::from_str(
                "全局记忆管理工具，用于存储和管理重要的开发规范、用户偏好和最佳实践",
            ),
            enabled: enabled_or(settings, "ji", true),
            can_disable: true,
            icon: String::from_str(
                "i-carbon-data-base text-lg text-purple-600 dark:text-purple-400",
            ),
            icon_bg: String::from_str("bg-green-100 dark:bg-green-900"),
            dark_icon_bg: String::from_str("dark:bg-green-800"),
            has_config: true,
        },
    );
    out.push(
        MCPToolConfig {
            id: String::from_str("sou"),
            name: String::from_str("代码搜索"),
            description: String::from_str(
                "基于查询在特定项目中搜索相关的代码上下文，支持语义搜索和增量索引",
            ),
            enabled: enabled_or(settings, "sou", false),
            can_disable: true,
            icon: String::from_str("i-carbon-search text-lg text-green-600 dark:text-green-400"),
            icon_bg: String::from_str("bg-green-100 dark:bg-green-900"),
            dark_icon_bg: String::from_str("dark:bg-green-800"),
            has_config: true,
        },
    );
    out.push(
        MCPToolConfig {
            id: String::from_str("context7"),
            name: String::from_str("Context7 文档查询"),
            description: String::from_str(
                "查询最新的框架和库文档，支持 Next.js、React、Vue、Spring 等主流框架",
            ),
            enabled: enabled_or(settings, "context7", true),
            can_disable: true,
            icon: String::from_str(
                "i-carbon-document text-lg text-orange-600 dark:text-orange-400",
            ),
            icon_bg: String::from_str("bg-orange-100 dark:bg-orange-900"),
            dark_icon_bg: String::from_str("dark:bg-orange-800"),
            has_config: true,
        },
    );
    out.push(
        MCPToolConfig {
            id: String::from_str("uiux"),
            name: String::from_str("UI/UX Pro Max"),
            description: String::from_str("UI/UX 设计智能检索与设计系统生成工具"),
            enabled: enabled_or(settings, "uiux", true),
            can_disable: true,
            icon: String::from_str(
                "i-carbon-color-palette text-lg text-pink-600 dark:text-pink-400",
            ),
            icon_bg: String::from_str("bg-pink-100 dark:bg-pink-900"),
            dark_icon_bg: String::from_str("dark:bg-pink-800"),
            has_config: false,
        },
    );
    out.push(
        MCPToolConfig {
            id: String::from_str("enhance"),
            name: String::from_str("提示词增强"),
            description: String::from_str(
                "将口语化提示词增强为结构化专业提示词，支持上下文与历史",
            ),
            enabled: enabled_or(settings, "enhance", false),
            can_disable: true,
            icon: String::from_str(
                "i-carbon-magic-wand text-lg text-indigo-600 dark:text-indigo-400",
            ),
            icon_bg: String::from_str("bg-indigo-100 dark:bg-indigo-900"),
            dark_icon_bg: String::from_str("dark:bg-indigo-800"),
            has_config: true,
        },
    );
    out.push(
        MCPToolConfig {
            id: String::from_str("icon"),
            name: String::from_str("图标工坊"),
            description: String::from_str(
                "搜索和管理 Iconfont 图标库，支持预览、复制 SVG 和下载到项目",
            ),
            enabled: enabled_or(settings, "icon", true),
            can_disable: true,
            icon: String::from_str("i-carbon-image text-lg text-purple-600 dark:text-purple-400"),
            icon_bg: String::from_str("bg-purple-100 dark:bg-purple-900"),
            dark_icon_bg: String::from_str("dark:bg-purple-800"),
            has_config: true,
        },
    );
    out
}

/// The enabled entries of a list, in order.
pub open spec fn enabled_of(s: Seq<MCPToolConfig>) -> Seq<MCPToolConfig>
    decreases s.len(),
{
    if s.len() == 0 {
        Seq::<MCPToolConfig>::empty()
    } else {
        enabled_of(s.drop_last()) + (if s.last().enabled {
            seq![s.last()]
        } else {
            Seq::<MCPToolConfig>::empty()
        })
    }
}

/// The disabled entries of a list, in order.
pub open spec fn disabled_of(s: Seq<MCPToolConfig>) -> Seq<MCPToolConfig>
    decreases s.len(),
{
    if s.len() == 0 {
        Seq::<MCPToolConfig>::empty()
    } else {
        disabled_of(s.drop_last()) + (if s.last().enabled {
            Seq::<MCPToolConfig>::empty()
        } else {
            seq![s.last()]
        })
    }
}

fn copy_tool_config(t: &MCPToolConfig) -> (r: MCPToolConfig)
    ensures
        r == *t,
{
    MCPToolConfig {
        id: t.id.clone(),
        name: t.name.clone(),
        description: t.description.clone(),
        enabled: t.enabled,
        can_disable: t.can_disable,
        icon: t.icon.clone(),
        icon_bg: t.icon_bg.clone(),
        dark_icon_bg: t.dark_icon_bg.clone(),
        has_config: t.has_config,
    }
}

/// The list reordered with the enabled tools first, keeping the relative
/// order within each group — what a stable sort on the flag gives.
pub fn sort_tools_by_enabled(tools: &Vec<MCPToolConfig>) -> (r: Vec<MCPToolConfig>)
    ensures
        r@ == enabled_of(tools@) + disabled_of(tools@),
{
    let mut on: Vec<MCPToolConfig> = Vec::new();
    let mut off: Vec<MCPToolConfig> = Vec::new();
    let mut i: usize = 0;
    while i < tools.len()
        invariant
            i <= tools@.len(),
            on@ == enabled_of(tools@.take(i as int)),
            off@ == disabled_of(tools@.take(i as int)),
        decreases tools@.len() - i,
    {
        proof {
            assert(tools@.take(i + 1).drop_last() =~= tools@.take(i as int));
            assert(tools@.take(i + 1).last() == tools@[i as int]);
        }
        if tools[i].enabled {
            on.push(copy_tool_config(&tools[i]));
        } else {
            off.push(copy_tool_config(&tools[i]));
        }
        i = i + 1;
        proof {
            assert(on@ =~= enabled_of(tools@.take(i as int)));
            assert(off@ =~= disabled_of(tools@.take(i as int)));
        }
    }
    proof {
        assert(tools@.take(tools@.len() as int) =~= tools@);
    }
    let ghost on_view = on@;
    let mut out = on;
    let mut j: usize = 0;
    while j < off.len()
        invariant
            j <= off@.len(),
            out@ == on_view + off@.subrange(0, j as int),
        decreases off@.len() - j,
    {
        out.push(copy_tool_config(&off[j]));
        j = j + 1;
        proof {
            assert(out@ =~= on_view + off@.subrange(0, j as int));
        }
    }
    proof {
        assert(off@.subrange(0, off@.len() as int) =~= off@);
    }
    out
}

/// The front end's tool list with the enabled tools first: the catalogue
/// read under the given settings, stably partitioned by the flag. The
/// exact entries come from `tool_catalog`, the exact order from
/// `sort_tools_by_enabled`; here the list is whole and enabled-first.
pub fn get_mcp_tools_config(settings: &ToolSettings) -> (r: Vec<MCPToolConfig>)
    ensures
        r@.len() == 7,
        forall|i: int, j: int| 0 <= i < j < 7 && (#[trigger] r@[j]).enabled ==> (#[trigger] r@[i]).enabled,
        forall|k: int|
            #![trigger catalog_id(k)]
            0 <= k < 7 ==> exists|i: int|
                0 <= i < 7 && (#[trigger] r@[i]).id@ == catalog_id(k) && r@[i].name@
                    == catalog_name(k) && r@[i].description@ == catalog_description(k)
                    && r@[i].enabled == enabled_with_default(
                    *settings,
                    catalog_id(k),
                    catalog_default(k),
                ) && r@[i].can_disable == catalog_can_disable(k) && r@[i].has_config
                    == catalog_has_config(k),
{
    let base = tool_catalog(settings);
    let sorted = sort_tools_by_enabled(&base);
    proof {
        lemma_partition_len(base@);
        lemma_partition_flags(base@);
        assert forall|k: int| #![trigger catalog_id(k)] 0 <= k < 7 implies exists|i: int|
            0 <= i < 7 && (#[trigger] sorted@[i]).id@ == catalog_id(k) && sorted@[i].name@
                == catalog_name(k) && sorted@[i].description@ == catalog_description(k)
                && sorted@[i].enabled == enabled_with_default(
                *settings,
                catalog_id(k),
                catalog_default(k),
            ) && sorted@[i].can_disable == catalog_can_disable(k) && sorted@[i].has_config
                == catalog_has_config(k) by {
            lemma_partition_contains(base@, k);
            let i = choose|i: int|
                0 <= i < enabled_of(base@).len() + disabled_of(base@).len() && (enabled_of(base@)
                    + disabled_of(base@))[i] == base@[k];
            assert(sorted@[i] == base@[k]);
        }
    }
    sorted
}

proof fn lemma_partition_contains(s: Seq<MCPToolConfig>, k: int)
    requires
        0 <= k < s.len(),
    ensures
        exists|i: int|
            0 <= i < enabled_of(s).len() + disabled_of(s).len() && (#[trigger] (enabled_of(s)
                + disabled_of(s))[i]) == s[k],
    decreases s.len(),
{
    let c = enabled_of(s) + disabled_of(s);
    if k == s.len() - 1 {
        if s.last().enabled {
            let i = enabled_of(s).len() - 1;
            assert(c[i] == s[k]);
        } else {
            let i = c.len() - 1;
            assert(c[i] == s[k]);
        }
    } else {
        let sp = s.drop_last();
        lemma_partition_contains(sp, k);
        let cp = enabled_of(sp) + disabled_of(sp);
        let ip = choose|ip: int| 0 <= ip < cp.len() && #[trigger] cp[ip] == sp[k];
        assert(sp[k] == s[k]);
        if ip < enabled_of(sp).len() {
            assert(enabled_of(s)[ip] == enabled_of(sp)[ip]);
            assert(c[ip] == s[k]);
        } else {
            let off = ip - enabled_of(sp).len();
            assert(disabled_of(s)[off] == disabled_of(sp)[off]);
            let i = enabled_of(s).len() + off;
            assert(c[i] == s[k]);
        }
    }
}

proof fn lemma_partition_len(s: Seq<MCPToolConfig>)
    ensures
        enabled_of(s).len() + disabled_of(s).len() == s.len(),
    decreases s.len(),
{
    if s.len() > 0 {
        lemma_partition_len(s.drop_last());
    }
}

proof fn lemma_partition_flags(s: Seq<MCPToolConfig>)
    ensures
        forall|i: int| 0 <= i < enabled_of(s).len() ==> (#[trigger] enabled_of(s)[i]).enabled,
        forall|i: int| 0 <= i < disabled_of(s).len() ==> !(#[trigger] disabled_of(s)[i]).enabled,
    decreases s.len(),
{
    if s.len() > 0 {
        lemma_partition_flags(s.drop_last());
        let prev_on = enabled_of(s.drop_last());
        let prev_off = disabled_of(s.drop_last());
        assert forall|i: int| 0 <= i < enabled_of(s).len() implies (#[trigger] enabled_of(
            s,
        )[i]).enabled by {
            if i < prev_on.len() {
                assert(enabled_of(s)[i] == prev_on[i]);
            } else {
                assert(enabled_of(s)[i] == s.last());
            }
        }
        assert forall|i: int| 0 <= i < disabled_of(s).len() implies !(#[trigger] disabled_of(
            s,
        )[i]).enabled by {
            if i < prev_off.len() {
                assert(disabled_of(s)[i] == prev_off[i]);
            } else {
                assert(disabled_of(s)[i] == s.last());
            }
        }
    }
}

/// The stored flags with every entry under the id removed.
pub open spec fn drop_flag_spec(entries: Seq<(String, bool)>, id: Seq<char>) -> Seq<(
    String,
    bool,
)>
    decreases entries.len(),
{
    if entries.len() == 0 {
        Seq::<(String, bool)>::empty()
    } else {
        drop_flag_spec(entries.drop_last(), id) + (if entries.last().0@ == id {
            Seq::<(String, bool)>::empty()
        } else {
            seq![entries.last()]
        })
    }
}

/// Stores a tool's flag, rejecting an attempt to switch the required tool
/// off: the one write the configuration path refuses, so the registry can
/// report that tool enabled unconditionally.
pub fn set_tool_enabled(settings: ToolSettings, tool_id: &str, enabled: bool) -> (r: Result<
    ToolSettings,
    String,
>)
    ensures
        tool_id@ == "zhi"@ && !enabled ==> (r matches Err(e) && e@
            == "三术工具是必需的，无法禁用"@),
        !(tool_id@ == "zhi"@ && !enabled) ==> (r matches Ok(s) && s.entries@.len() > 0
            && s.entries@ == drop_flag_spec(settings.entries@, tool_id@).push(
            (s.entries@.last().0, enabled),
        ) && s.entries@.last().0@ == tool_id@ && s.entries@.last().1 == enabled),
{
    if crate::strutil::str_eq_str(tool_id, "zhi") && !enabled {
        return Err(String::from_str("三术工具是必需的，无法禁用"));
    }
    let src = &settings.entries;
    let n = src.len();
    let mut kept: Vec<(String, bool)> = Vec::new();
    let mut i: usize = 0;
    while i < n
        invariant
            n == src@.len(),
            i <= n,
            kept@ == drop_flag_spec(src@.take(i as int), tool_id@),
        decreases n - i,
    {
        proof {
            assert(src@.take(i + 1).drop_last() =~= src@.take(i as int));
            assert(src@.take(i + 1).last() == src@[i as int]);
        }
        if !crate::strutil::str_eq_str(src[i].0.as_str(), tool_id) {
            kept.push((src[i].0.clone(), src[i].1));
            proof {
                assert((src@[i as int].0, src@[i as int].1) == src@[i as int]);
            }
        }
        i = i + 1;
        proof {
            assert(kept@ =~= drop_flag_spec(src@.take(i as int), tool_id@));
        }
    }
    proof {
        assert(src@.take(n as int) =~= src@);
    }
    kept.push((String::from_str(tool_id), enabled));
    Ok(ToolSettings { entries: kept })
}

/// The stored configuration reset to every tool's own default flag, in
/// catalogue order.
pub fn default_tool_settings() -> (r: ToolSettings)
    ensures
        r.entries@.len() == 7,
        forall|i: int|
            0 <= i < 7 ==> (#[trigger] r.entries@[i]).0@ == catalog_id(i) && r.entries@[i].1
                == catalog_default(i),
{
    let mut settings = ToolSettings::new();
    settings.set(String::from_str("zhi"), true);
    settings.set(String::from_str("ji"), true);
    settings.set(String::from_str("sou"), false);
    settings.set(String::from_str("context7"), true);
    settings.set(String::from_str("uiux"), true);
    settings.set(String::from_str("enhance"), false);
    settings.set(String::from_str("icon"), true);
    settings
}

/// The tool names listed to a calling client under the live configuration:
/// the required tool always, every guarded tool only while its flag is on.
/// The icon tool is listed under its call name `tu` though its flag is
/// `icon`; the design-tool family stands under its flag id, its member
/// names being discovered elsewhere.
pub fn visible_tool_ids(
    server: &crate::dispatch::ZhiServer,
    fresh: Option<&ToolSettings>,
) -> (r: Vec<String>)
    ensures
        ({
            let eff = |id: Seq<char>|
                crate::dispatch::effective_enabled_spec(*server, match fresh {
                    Some(s) => Some(*s),
                    None => None::<ToolSettings>,
                }, id);
            r.deep_view() == seq!["zhi"@] + cond_id("ji"@, eff("ji"@)) + cond_id(
                "sou"@,
                eff("sou"@),
            ) + cond_id("context7"@, eff("context7"@)) + cond_id("tu"@, eff("icon"@)) + cond_id(
                "uiux"@,
                eff("uiux"@),
            ) + cond_id("enhance"@, eff("enhance"@))
        }),
{
    let mut out: Vec<String> = Vec::new();
    out.push(String::from_str("zhi"));
    if server.is_tool_enabled(fresh, "ji") {
        out.push(String::from_str("ji"));
    }
    if server.is_tool_enabled(fresh, "sou") {
        out.push(String::from_str("sou"));
    }
    if server.is_tool_enabled(fresh, "context7") {
        out.push(String::from_str("context7"));
    }
    if server.is_tool_enabled(fresh, "icon") {
        out.push(String::from_str("tu"));
    }
    if server.is_tool_enabled(fresh, "uiux") {
        out.push(String::from_str("uiux"));
    }
    if server.is_tool_enabled(fresh, "enhance") {
        out.push(String::from_str("enhance"));
    }
    proof {
        let eff = |id: Seq<char>|
            crate::dispatch::effective_enabled_spec(*server, match fresh {
                Some(s) => Some(*s),
                None => None::<ToolSettings>,
            }, id);
        assert(out.deep_view() =~= seq!["zhi"@] + cond_id("ji"@, eff("ji"@)) + cond_id(
            "sou"@,
            eff("sou"@),
        ) + cond_id("context7"@, eff("context7"@)) + cond_id("tu"@, eff("icon"@)) + cond_id(
            "uiux"@,
            eff("uiux"@),
        ) + cond_id("enhance"@, eff("enhance"@)));
    }
    out
}

/// A one-element list holding the id while the condition holds.
pub open spec fn cond_id(id: Seq<char>, on: bool) -> Seq<Seq<char>> {
    if on {
        seq![id]
    } else {
        Seq::<Seq<char>>::empty()
    }
}

} // verus!
