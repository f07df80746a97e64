//! The remaining surface: design-tool texts and sanitizers, icon shapes
//! and texts, proxies, geolocation, and log rotation decisions.

use sanshu::icon::{parse_icon_args, tu_outcome_text, IconConfig, IconFormat, IconItem,
    IconSearchRequest, IconSearchResult, IconTool, IconfontIcon};
use sanshu::logger::{backup_file_name, cleanup_due, needs_rotation, retention_threshold_secs,
    rotation_renames, LogConfig, LogLevel, LogRotationConfig};
use sanshu::netinfo::{country_of_geo, decode_geo_location, ProxyDetector, ProxyInfo, ProxyType};
use sanshu::transport::IconSaveResponse;
use sanshu::uiux::{beautify_summary, design_system_summary, error_text, localize_text,
    sanitize_path_segment, sanitize_slug, search_summary, stack_summary, suggest_summary,
    SearchResult, SuggestResult, UiuxError, UiuxLang, UiuxMode, UiuxResponse};

#[test]
fn localization_picks_the_requested_language() {
    assert_eq!(localize_text(UiuxLang::Zh, "好", "good").as_str(), "好");
    assert_eq!(localize_text(UiuxLang::En, "好", "good").as_str(), "good");
    assert_eq!(error_text(UiuxLang::Zh, "x").as_str(), "发生错误: x");
    assert_eq!(error_text(UiuxLang::En, "x").as_str(), "Error: x");
    assert_eq!(UiuxLang::Zh.as_str(), "zh");
    assert_eq!(UiuxLang::En.as_str(), "en");
}

fn search_result(count: usize) -> SearchResult {
    SearchResult {
        domain: String::from("color"),
        count,
        stack: None,
        error: None,
    }
}

#[test]
fn search_summaries_name_domain_and_count() {
    assert_eq!(
        search_summary(UiuxLang::Zh, UiuxMode::Search, &search_result(3)).as_str(),
        "已获取检索结果，领域：color，共 3 条。"
    );
    assert_eq!(
        search_summary(UiuxLang::En, UiuxMode::Search, &search_result(3)).as_str(),
        "Search completed. Domain: color. Results: 3."
    );
    assert_eq!(
        search_summary(UiuxLang::Zh, UiuxMode::Beautify, &search_result(3)).as_str(),
        "已生成 UI 美化建议。"
    );
    let mut failed = search_result(0);
    failed.error = Some(String::from("boom"));
    assert_eq!(
        search_summary(UiuxLang::En, UiuxMode::Search, &failed).as_str(),
        "Error: boom"
    );
}

#[test]
fn stack_summaries_fall_back_to_a_dash() {
    let mut r = search_result(2);
    r.stack = Some(String::from("react"));
    assert_eq!(
        stack_summary(UiuxLang::Zh, &r).as_str(),
        "已获取栈指南：react，共 2 条。"
    );
    r.stack = None;
    assert_eq!(
        stack_summary(UiuxLang::En, &r).as_str(),
        "Stack guidelines: -. Results: 2."
    );
}

#[test]
fn design_and_beautify_summaries_have_both_wordings() {
    assert_eq!(
        design_system_summary(UiuxLang::Zh, "app", true).as_str(),
        "已生成并写入设计系统：app。"
    );
    assert_eq!(
        design_system_summary(UiuxLang::En, "app", false).as_str(),
        "Design system recommendations generated: app."
    );
    assert_eq!(beautify_summary(UiuxLang::En).as_str(), "UI beautify suggestions generated.");
}

#[test]
fn suggestion_summaries_join_the_keywords() {
    let hit = SuggestResult {
        should_suggest: true,
        matched_keywords: vec![String::from("布局"), String::from("配色")],
    };
    assert_eq!(
        suggest_summary(UiuxLang::Zh, &hit).as_str(),
        "建议使用 UI/UX 工具，匹配关键词：布局, 配色。"
    );
    let bare = SuggestResult { should_suggest: true, matched_keywords: vec![] };
    assert_eq!(
        suggest_summary(UiuxLang::En, &bare).as_str(),
        "UI/UX tool suggested. Matched keywords: -."
    );
    let miss = SuggestResult { should_suggest: false, matched_keywords: vec![] };
    assert_eq!(suggest_summary(UiuxLang::Zh, &miss).as_str(), "暂无明显 UI/UX 需求。");
}

#[test]
fn the_response_envelope_carries_tool_and_language() {
    let resp = UiuxResponse::new(
        "uiux_search",
        UiuxLang::Zh,
        42u32,
        String::from("done"),
        vec![UiuxError::new("bad_query", "empty")],
    );
    assert_eq!(resp.meta.tool.as_str(), "uiux_search");
    assert_eq!(resp.meta.lang.as_str(), "zh");
    assert_eq!(resp.meta.version.as_str(), "v1");
    assert!(resp.meta.request_id.is_none());
    assert_eq!(resp.data, 42);
    assert_eq!(resp.errors[0].code.as_str(), "bad_query");
}

#[test]
fn slugs_lower_and_dash_while_segments_underscore() {
    assert_eq!(sanitize_slug("Hello World!").as_str(), "hello-world");
    assert_eq!(sanitize_slug("  ---  ").as_str(), "untitled");
    assert_eq!(sanitize_slug("Glass_morphism 2").as_str(), "glass_morphism-2");
    assert_eq!(sanitize_path_segment("a b/c").as_str(), "a_bc");
    assert_eq!(sanitize_path_segment("../../etc").as_str(), "etc");
    assert_eq!(sanitize_path_segment("///").as_str(), "untitled");
}

#[test]
fn icon_defaults_match_the_documented_values() {
    let req = IconSearchRequest::default();
    assert_eq!(req.sort_type.as_deref(), Some("relate"));
    assert_eq!(req.page, Some(1));
    assert_eq!(req.page_size, Some(50));
    let res = IconSearchResult::default();
    assert_eq!(res.page_size, 50);
    assert!(!res.has_more);
    assert!(matches!(IconFormat::default(), IconFormat::Svg));
    let cfg = IconConfig::default();
    assert_eq!(cfg.default_save_path.as_deref(), Some("assets/icons"));
    assert_eq!(cfg.default_png_size, Some(64));
    assert_eq!(cfg.cache_expiry_minutes, Some(30));
}

#[test]
fn raw_icons_normalize_with_name_fallbacks() {
    let raw = IconfontIcon {
        id: 42,
        name: None,
        font_class: None,
        unicode: Some(String::from("e001")),
        show_svg: Some(String::from("<svg/>")),
        author_nickname: Some(String::from("who")),
        repository_id: Some(7),
        repository_name: Some(String::from("lib")),
        created_at: None,
    };
    let item = IconItem::from_iconfont(raw);
    assert_eq!(item.name.as_str(), "icon_42");
    assert_eq!(item.font_class.as_str(), "");
    assert!(item.preview_url.is_none());
    assert_eq!(item.author.as_deref(), Some("who"));
    assert_eq!(item.repository_id, Some(7));
}

#[test]
fn the_icon_tool_card_is_enabled_and_configurable() {
    let info = IconTool::get_tool_info();
    assert_eq!(info.id.as_str(), "icon");
    assert_eq!(info.name.as_str(), "图标工坊");
    assert!(info.enabled && info.can_disable && info.has_config);
}

#[test]
fn icon_outcome_texts_cover_all_three_branches() {
    let cancelled = IconSaveResponse {
        saved_count: 0,
        save_path: String::new(),
        saved_names: vec![],
        cancelled: true,
    };
    assert_eq!(tu_outcome_text(&cancelled).as_str(), "用户取消了图标选择操作");
    let nothing = IconSaveResponse {
        saved_count: 0,
        save_path: String::from("assets"),
        saved_names: vec![],
        cancelled: false,
    };
    assert_eq!(tu_outcome_text(&nothing).as_str(), "用户未选择任何图标");
    let saved = IconSaveResponse {
        saved_count: 2,
        save_path: String::from("assets/icons"),
        saved_names: vec![String::from("home.svg"), String::from("user.svg")],
        cancelled: false,
    };
    assert_eq!(
        tu_outcome_text(&saved).as_str(),
        "✅ 已成功保存 2 个图标到 assets/icons\n\n保存的图标：\n• home.svg\n• user.svg"
    );
}

#[test]
fn icon_cli_arguments_parse_flags_and_a_bare_query() {
    let args = vec![
        String::from("--query"),
        String::from("home"),
        String::from("--style"),
        String::from("line"),
        String::from("--save-path"),
        String::from("assets"),
    ];
    let parsed = parse_icon_args(&args);
    assert_eq!(parsed.query.as_str(), "home");
    assert_eq!(parsed.style.as_str(), "line");
    assert_eq!(parsed.save_path.as_str(), "assets");
    assert_eq!(parsed.project_root.as_str(), "");
    let bare = parse_icon_args(&vec![String::from("arrow")]);
    assert_eq!(bare.query.as_str(), "arrow");
}

#[test]
fn proxy_urls_and_candidates_follow_the_documented_order() {
    let p = ProxyInfo::new(ProxyType::Http, String::from("127.0.0.1"), 7890);
    assert_eq!(p.to_url().as_str(), "http://127.0.0.1:7890");
    let s = ProxyInfo::new(ProxyType::Socks5, String::from("127.0.0.1"), 1080);
    assert_eq!(s.to_url().as_str(), "socks5://127.0.0.1:1080");
    let candidates = ProxyDetector::candidate_proxies();
    let ports: Vec<u16> = candidates.iter().map(|c| c.port).collect();
    assert_eq!(ports, [7890, 7891, 10808, 10809, 1080, 8080]);
    assert!(matches!(ProxyType::default(), ProxyType::Http));
}

#[test]
fn probe_statuses_accept_success_and_no_content() {
    assert!(ProxyDetector::probe_status_ok(200));
    assert!(ProxyDetector::probe_status_ok(204));
    assert!(!ProxyDetector::probe_status_ok(302));
    assert!(!ProxyDetector::probe_status_ok(500));
}

#[test]
fn geolocation_replies_decode_and_fall_back_to_unknown() {
    let raw = "{\"ip\":\"1.2.3.4\",\"country\":\"CN\",\"city\":\"Shenzhen\"}";
    let geo = decode_geo_location(raw).unwrap();
    assert_eq!(geo.country.as_str(), "CN");
    assert_eq!(geo.city.as_deref(), Some("Shenzhen"));
    assert_eq!(country_of_geo(Some(&geo)).as_str(), "CN");
    assert!(decode_geo_location("{\"city\":\"x\"}").is_none());
    assert_eq!(country_of_geo(None).as_str(), "UNKNOWN");
}

#[test]
fn log_defaults_and_rotation_decisions() {
    let rot = LogRotationConfig::default();
    assert_eq!(rot.max_size_bytes, 200 * 1024 * 1024);
    assert_eq!(rot.retention_days, 7);
    assert_eq!(rot.max_backup_count, 5);
    let cfg = LogConfig::default();
    assert!(matches!(cfg.level, LogLevel::Warn));
    assert!(cfg.file_path.is_none());
    assert!(!needs_rotation(rot.max_size_bytes - 1, &rot));
    assert!(needs_rotation(rot.max_size_bytes, &rot));
}

#[test]
fn backup_names_and_renames_walk_backwards() {
    assert_eq!(backup_file_name("acemcp.log", 3).as_str(), "acemcp.log.3");
    let renames = rotation_renames(5);
    assert_eq!(renames, [(4, 5), (3, 4), (2, 3), (1, 2)]);
    assert!(rotation_renames(0).is_empty());
}

#[test]
fn retention_and_cleanup_windows() {
    let rot = LogRotationConfig::default();
    let week = 7 * 86400;
    assert_eq!(retention_threshold_secs(week + 100, &rot), 100);
    assert_eq!(retention_threshold_secs(10, &rot), 0);
    assert!(sanshu::logger::backup_expired(99, 100));
    assert!(!sanshu::logger::backup_expired(100, 100));
    assert!(cleanup_due(0, 60));
    assert!(!cleanup_due(0, 59));
    assert!(cleanup_due(100, 50));
}
