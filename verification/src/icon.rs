//! The icon workshop's data shapes and the texts its interactive tool
//! replies with. The search API itself and the saving of files are outside
//! work; the shapes here are what the rest of the system reads.

use vstd::prelude::*;

use crate::strutil::{dec_spec, join_spec, join_strings, u64_to_string};
use crate::transport::IconSaveResponse;

verus! {

/// The arguments of an icon search.
#[derive(Debug, Clone)]
pub struct IconSearchRequest {
    pub query: String,
    pub style: Option<String>,
    pub fills: Option<String>,
    pub sort_type: Option<String>,
    pub page: Option<u32>,
    pub page_size: Option<u32>,
    pub from_collection: Option<bool>,
}

impl Default for IconSearchRequest {
    /// An empty query sorted by relevance, first page of fifty.
    fn default() -> (r: IconSearchRequest)
        ensures
            r.query@.len() == 0,
            r.style is None,
            r.fills is None,
            (r.sort_type matches Some(s) && s@ == "relate"@),
            r.page == Some(1u32),
            r.page_size == Some(50u32),
            r.from_collection is None,
    {
        IconSearchRequest {
            query: String::new(),
            style: None,
            fills: None,
            sort_type: Some(String::from_str("relate")),
            page: Some(1),
            page_size: Some(50),
            from_collection: None,
        }
    }
}

/// One icon of the catalogue.
#[derive(Debug, Clone)]
pub struct IconItem {
    pub id: u64,
    pub name: String,
    pub font_class: String,
    pub unicode: Option<String>,
    pub svg_content: Option<String>,
    pub preview_url: Option<String>,
    pub author: Option<String>,
    pub repository_name: Option<String>,
    pub repository_id: Option<u64>,
    pub created_at: Option<String>,
}

/// One page of search results.
#[derive(Debug, Clone)]
pub struct IconSearchResult {
    pub icons: Vec<IconItem>,
    pub total: u32,
    pub page: u32,
    pub page_size: u32,
    pub has_more: bool,
}

impl Default for IconSearchResult {
    /// No icons, first page of fifty.
    fn default() -> (r: IconSearchResult)
        ensures
            r.icons@.len() == 0,
            r.total == 0,
            r.page == 1,
            r.page_size == 50,
            !r.has_more,
    {
        IconSearchResult { icons: Vec::new(), total: 0, page: 1, page_size: 50, has_more: false }
    }
}

/// The format icons are saved in.
#[derive(Debug, Clone, Copy, PartialEq, Eq, Structural)]
pub enum IconFormat {
    Svg,
    Png,
    Both,
}

impl Default for IconFormat {
    fn default() -> (r: IconFormat)
        ensures
            r == IconFormat::Svg,
    {
        IconFormat::Svg
    }
}

/// A request to save chosen icons.
#[derive(Debug, Clone)]
pub struct IconSaveRequest {
    pub icons: Vec<IconItem>,
    pub save_path: String,
    pub format: IconFormat,
    pub png_size: Option<u32>,
}

/// The outcome for one saved icon.
#[derive(Debug, Clone)]
pub struct IconSaveItem {
    pub id: u64,
    pub name: String,
    pub success: bool,
    pub saved_paths: Vec<String>,
    pub error: Option<String>,
}

/// The outcome of a save request.
#[derive(Debug, Clone)]
pub struct IconSaveResult {
    pub items: Vec<IconSaveItem>,
    pub success_count: u32,
    pub failed_count: u32,
    pub save_path: String,
}

/// A request for one icon's content.
#[derive(Debug, Clone)]
pub struct IconContentRequest {
    pub id: u64,
    pub format: IconFormat,
    pub png_size: Option<u32>,
}

/// One icon's content.
#[derive(Debug, Clone)]
pub struct IconContentResult {
    pub id: u64,
    pub name: String,
    pub svg_content: Option<String>,
    pub png_base64: Option<String>,
    pub mime_type: String,
}

/// Search-cache statistics.
#[derive(Debug, Clone)]
pub struct IconCacheStats {
    pub total_entries: usize,
    pub valid_entries: usize,
    pub expired_entries: usize,
    pub cache_expiry_minutes: u64,
    pub memory_usage_bytes: Option<u64>,
}

/// A request to clear the search cache.
#[derive(Debug, Clone)]
pub struct ClearCacheRequest {
    pub expired_only: bool,
}

impl Default for ClearCacheRequest {
    fn default() -> (r: ClearCacheRequest)
        ensures
            !r.expired_only,
    {
        ClearCacheRequest { expired_only: false }
    }
}

/// The outcome of clearing the search cache.
#[derive(Debug, Clone)]
pub struct ClearCacheResult {
    pub cleared_count: usize,
    pub remaining_count: usize,
}

/// The icon workshop's settings.
#[derive(Debug, Clone)]
pub struct IconConfig {
    pub default_save_path: Option<String>,
    pub default_format: IconFormat,
    pub default_png_size: Option<u32>,
    pub cache_expiry_minutes: Option<u64>,
}

impl Default for IconConfig {
    /// SVGs under `assets/icons`, PNGs at 64 pixels, half an hour of cache.
    fn default() -> (r: IconConfig)
        ensures
            (r.default_save_path matches Some(p) && p@ == "assets/icons"@),
            r.default_format == IconFormat::Svg,
            r.default_png_size == Some(64u32),
            r.cache_expiry_minutes == Some(30u64),
    {
        IconConfig {
            default_save_path: Some(String::from_str("assets/icons")),
            default_format: IconFormat::Svg,
            default_png_size: Some(64),
            cache_expiry_minutes: Some(30),
        }
    }
}

/// An icon as the catalogue API reports it, before normalization.
#[derive(Debug, Clone)]
pub struct IconfontIcon {
    pub id: u64,
    pub name: Option<String>,
    pub font_class: Option<String>,
    pub unicode: Option<String>,
    pub show_svg: Option<String>,
    pub author_nickname: Option<String>,
    pub repository_id: Option<u64>,
    pub repository_name: Option<String>,
    pub created_at: Option<String>,
}

impl IconItem {
    /// Normalizes a raw catalogue icon: missing names fall back to
    /// `icon_<id>`, missing classes to an empty one, and no preview URL is
    /// set here.
    pub fn from_iconfont(icon: IconfontIcon) -> (r: IconItem)
        ensures
            r.id == icon.id,
            (match icon.name {
                Some(n) => r.name@ == n@,
                None => r.name@ == "icon_"@ + dec_spec(icon.id as nat),
            }),
            (match icon.font_class {
                Some(f) => r.font_class@ == f@,
                None => r.font_class@.len() == 0,
            }),
            r.unicode == icon.unicode,
            r.svg_content == icon.show_svg,
            r.preview_url is None,
            r.author == icon.author_nickname,
            r.repository_name == icon.repository_name,
            r.repository_id == icon.repository_id,
            r.created_at == icon.created_at,
    {
        let name = match icon.name {
            Some(n) => n,
            None => {
                let mut s = String::from_str("icon_");
                let idn = u64_to_string(icon.id);
                s.append(idn.as_str());
                s
            },
        };
        let font_class = match icon.font_class {
            Some(f) => f,
            None => String::new(),
        };
        IconItem {
            id: icon.id,
            name,
            font_class,
            unicode: icon.unicode,
            svg_content: icon.show_svg,
            preview_url: None,
            author: icon.author_nickname,
            repository_name: icon.repository_name,
            repository_id: icon.repository_id,
            created_at: icon.created_at,
        }
    }
}

/// What the front end shows for the icon workshop.
#[derive(Debug, Clone)]
pub struct IconToolInfo {
    pub id: String,
    pub name: String,
    pub description: String,
    pub icon: String,
    pub icon_bg: String,
    pub dark_icon_bg: String,
    pub enabled: bool,
    pub can_disable: bool,
    pub has_config: bool,
}

/// The icon workshop's interactive tool.
pub struct IconTool;

impl IconTool {
    /// The workshop's card in the tool list: enabled, disableable, with a
    /// settings panel.
    pub fn get_tool_info() -> (r: IconToolInfo)
        ensures
            r.id@ == "icon"@,
            r.name@ == "图标工坊"@,
            r.enabled,
            r.can_disable,
            r.has_config,
    {
        IconToolInfo {
            id: String::from_str("icon"),
            name: String::from_str("图标工坊"),
            description: String::from_str("搜索和管理 Iconfont 图标，支持预览、复制和下载"),
            icon: String::from_str("i-carbon-image"),
            icon_bg: String::from_str("bg-purple-500/10"),
            dark_icon_bg: String::from_str("dark:bg-purple-500/20"),
            enabled: true,
            can_disable: true,
            has_config: true,
        }
    }
}

/// The text reported after a save: one bullet per saved icon.
pub open spec fn tu_success_text_spec(resp: IconSaveResponse) -> Seq<char> {
    "✅ 已成功保存 "@ + dec_spec(resp.saved_count as nat) + " 个图标到 "@ + resp.save_path@
        + "\n\n保存的图标：\n"@ + join_spec(
        Seq::new(resp.saved_names@.len(), |i: int| "• "@ + resp.saved_names@[i]@),
        "\n"@,
    )
}

/// The text the interactive icon tool replies with: a cancellation notice,
/// a nothing-chosen notice, or the save report with one bullet per icon.
pub fn tu_outcome_text(resp: &IconSaveResponse) -> (r: String)
    ensures
        resp.cancelled ==> r@ == "用户取消了图标选择操作"@,
        !resp.cancelled && resp.saved_count == 0 ==> r@ == "用户未选择任何图标"@,
        !resp.cancelled && resp.saved_count > 0 ==> r@ == tu_success_text_spec(*resp),
{
    if resp.cancelled {
        String::from_str("用户取消了图标选择操作")
    } else if resp.saved_count == 0 {
        String::from_str("用户未选择任何图标")
    } else {
        let mut bullets: Vec<String> = Vec::new();
        let mut i: usize = 0;
        while i < resp.saved_names.len()
            invariant
                i <= resp.saved_names@.len(),
                bullets.deep_view() == Seq::new(
                    i as nat,
                    |k: int| "• "@ + resp.saved_names@[k]@,
                ),
            decreases resp.saved_names@.len() - i,
        {
            let mut b = String::from_str("• ");
            b.append(resp.saved_names[i].as_str());
            let ghost prev = bullets.deep_view();
            let ghost bview = b@;
            bullets.push(b);
            i = i + 1;
            proof {
                assert(bullets.deep_view() =~= prev.push(bview));
                assert(bullets.deep_view() =~= Seq::new(
                    i as nat,
                    |k: int| "• "@ + resp.saved_names@[k]@,
                ));
            }
        }
        let joined = join_strings(&bullets, "\n");
        let mut s = String::from_str("✅ 已成功保存 ");
        let count = u64_to_string(resp.saved_count as u64);
        s.append(count.as_str());
        s.append(" 个图标到 ");
        s.append(resp.save_path.as_str());
        s.append("\n\n保存的图标：\n");
        s.append(joined.as_str());
        proof {
            assert(bullets.deep_view() =~= Seq::new(
                resp.saved_names@.len(),
                |k: int| "• "@ + resp.saved_names@[k]@,
            ));
            assert(s@ =~= tu_success_text_spec(*resp));
        }
        s
    }
}

/// The icon-mode arguments of the UI process, parsed: each value empty
/// until its flag is seen.
#[derive(Debug, Clone)]
pub struct IconCliArgs {
    pub query: String,
    pub style: String,
    pub save_path: String,
    pub project_root: String,
}

/// How the icon-mode argument list reads from position `i` with the values
/// gathered so far: flag pairs consume two arguments, a leading bare word
/// is the query, and anything else is skipped.
pub open spec fn parse_icon_args_from(
    args: Seq<Seq<char>>,
    i: int,
    q: Seq<char>,
    st: Seq<char>,
    sp: Seq<char>,
    pr: Seq<char>,
) -> (Seq<char>, Seq<char>, Seq<char>, Seq<char>)
    decreases args.len() - i,
{
    if i < 0 || i >= args.len() {
        (q, st, sp, pr)
    } else if args[i] == "--query"@ && i + 1 < args.len() {
        parse_icon_args_from(args, i + 2, args[i + 1], st, sp, pr)
    } else if args[i] == "--style"@ && i + 1 < args.len() {
        parse_icon_args_from(args, i + 2, q, args[i + 1], sp, pr)
    } else if args[i] == "--save-path"@ && i + 1 < args.len() {
        parse_icon_args_from(args, i + 2, q, st, args[i + 1], pr)
    } else if args[i] == "--project-root"@ && i + 1 < args.len() {
        parse_icon_args_from(args, i + 2, q, st, sp, args[i + 1])
    } else if i == 0 && !crate::strutil::starts_with_spec(args[0], "--"@) {
        parse_icon_args_from(args, 1, args[0], st, sp, pr)
    } else {
        parse_icon_args_from(args, i + 1, q, st, sp, pr)
    }
}

/// Parses the icon-mode argument list, as the UI process reads it.
pub fn parse_icon_args(args: &Vec<String>) -> (r: IconCliArgs)
    ensures
        ({
            let parsed = parse_icon_args_from(
                args.deep_view(),
                0,
                Seq::<char>::empty(),
                Seq::<char>::empty(),
                Seq::<char>::empty(),
                Seq::<char>::empty(),
            );
            r.query@ == parsed.0 && r.style@ == parsed.1 && r.save_path@ == parsed.2
                && r.project_root@ == parsed.3
        }),
{
    let ghost av = args.deep_view();
    let mut query = String::new();
    let mut style = String::new();
    let mut save_path = String::new();
    let mut project_root = String::new();
    let mut i: usize = 0;
    while i < args.len()
        invariant
            av == args.deep_view(),
            i <= av.len(),
            parse_icon_args_from(
                av,
                0,
                Seq::<char>::empty(),
                Seq::<char>::empty(),
                Seq::<char>::empty(),
                Seq::<char>::empty(),
            ) == parse_icon_args_from(av, i as int, query@, style@, save_path@, project_root@),
        decreases av.len() - i,
    {
        let a = &args[i];
        if crate::strutil::str_eq_str(a.as_str(), "--query") && i + 1 < args.len() {
            query = args[i + 1].clone();
            i = i + 2;
        } else if crate::strutil::str_eq_str(a.as_str(), "--style") && i + 1 < args.len() {
            style = args[i + 1].clone();
            i = i + 2;
        } else if crate::strutil::str_eq_str(a.as_str(), "--save-path") && i + 1 < args.len() {
            save_path = args[i + 1].clone();
            i = i + 2;
        } else if crate::strutil::str_eq_str(a.as_str(), "--project-root") && i + 1 < args.len() {
            project_root = args[i + 1].clone();
            i = i + 2;
        } else if i == 0 && !crate::strutil::str_starts_with(a.as_str(), "--") {
            query = a.clone();
            i = 1;
        } else {
            i = i + 1;
        }
    }
    IconCliArgs { query, style, save_path, project_root }
}

} // verus!
