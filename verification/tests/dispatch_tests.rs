//! Dispatch, registry, catalogue, resolver and transport planning.

use sanshu::dispatch::{route_call, ErrorKind, ToolRoute, ToolSettings, ZhiServer};
use sanshu::resolver::resolve_ui_command;
use sanshu::transport::{decode_tu_request, decode_zhi_request, encode_popup_request,
    icon_popup_args, interpret_icon_output, interpret_popup_output, temp_file_name, PopupRequest,
    TuRequest, ZhiRequest};

fn settings_of(pairs: &[(&str, bool)]) -> ToolSettings {
    let mut s = ToolSettings::new();
    for (id, on) in pairs {
        s.set(String::from(*id), *on);
    }
    s
}

#[test]
fn unknown_tool_is_rejected_before_anything_runs() {
    let server = ZhiServer::new(ToolSettings::new());
    let err = route_call("no_such_tool", &server, None).unwrap_err();
    assert!(matches!(err.kind, ErrorKind::UnknownTool));
    assert_eq!(err.message.as_str(), "未知的工具: no_such_tool");
}

#[test]
fn disabled_tool_is_rejected_with_its_message() {
    let server = ZhiServer::new(ToolSettings::new());
    let fresh = settings_of(&[("ji", false)]);
    let err = route_call("ji", &server, Some(&fresh)).unwrap_err();
    assert!(matches!(err.kind, ErrorKind::Disabled));
    assert_eq!(err.message.as_str(), "记忆管理工具已被禁用");
}

#[test]
fn required_tool_is_never_rejected_by_stored_state() {
    let snapshot = settings_of(&[("zhi", false)]);
    let server = ZhiServer::new(snapshot);
    let fresh = settings_of(&[("zhi", false)]);
    assert!(matches!(route_call("zhi", &server, Some(&fresh)), Ok(ToolRoute::Zhi)));
    assert!(matches!(route_call("zhi", &server, None), Ok(ToolRoute::Zhi)));
}

#[test]
fn missing_entries_take_each_tools_documented_default() {
    let server = ZhiServer::new(ToolSettings::new());
    let fresh = ToolSettings::new();
    assert!(matches!(route_call("ji", &server, Some(&fresh)), Ok(ToolRoute::Ji)));
    assert!(matches!(route_call("context7", &server, Some(&fresh)), Ok(ToolRoute::Context7)));
    let sou = route_call("sou", &server, Some(&fresh)).unwrap_err();
    assert!(matches!(sou.kind, ErrorKind::Disabled));
    let enhance = route_call("enhance", &server, Some(&fresh)).unwrap_err();
    assert!(matches!(enhance.kind, ErrorKind::Disabled));
    let stored = settings_of(&[("sou", true)]);
    assert!(matches!(route_call("sou", &server, Some(&stored)), Ok(ToolRoute::Sou)));
}

#[test]
fn failed_fresh_read_falls_back_to_the_boot_snapshot() {
    let server = ZhiServer::new(settings_of(&[("ji", false)]));
    let err = route_call("ji", &server, None).unwrap_err();
    assert!(matches!(err.kind, ErrorKind::Disabled));
    assert_eq!(err.message.as_str(), "记忆管理工具已被禁用");
    let fresh = settings_of(&[("ji", true)]);
    assert!(matches!(route_call("ji", &server, Some(&fresh)), Ok(ToolRoute::Ji)));
}

#[test]
fn icon_tool_is_gated_by_the_icon_flag() {
    let server = ZhiServer::new(ToolSettings::new());
    let fresh = settings_of(&[("icon", false)]);
    let err = route_call("tu", &server, Some(&fresh)).unwrap_err();
    assert!(matches!(err.kind, ErrorKind::Disabled));
    assert_eq!(err.message.as_str(), "图标工坊工具已被禁用");
}

#[test]
fn tool_families_route_by_prefix() {
    let server = ZhiServer::new(ToolSettings::new());
    assert!(matches!(route_call("uiux_search", &server, None), Ok(ToolRoute::Uiux)));
    assert!(matches!(route_call("skill_run", &server, None), Ok(ToolRoute::Skill)));
    assert!(matches!(route_call("skill_fix", &server, None), Ok(ToolRoute::Skill)));
    let fresh = settings_of(&[("uiux", false)]);
    let err = route_call("uiux_suggest", &server, Some(&fresh)).unwrap_err();
    assert_eq!(err.message.as_str(), "UI/UX 工具已被禁用");
}

#[test]
fn catalog_defaults_disable_search_and_enhancement() {
    let settings = ToolSettings::new();
    let tools = sanshu::catalog::tool_catalog(&settings);
    assert_eq!(tools.len(), 7);
    assert_eq!(tools[0].id.as_str(), "zhi");
    assert!(tools[0].enabled && !tools[0].can_disable);
    assert_eq!(tools[2].id.as_str(), "sou");
    assert!(!tools[2].enabled);
    assert_eq!(tools[5].id.as_str(), "enhance");
    assert!(!tools[5].enabled);
}

#[test]
fn catalog_sorted_list_keeps_enabled_first_stably() {
    let settings = settings_of(&[("ji", false)]);
    let tools = sanshu::catalog::get_mcp_tools_config(&settings);
    assert_eq!(tools.len(), 7);
    let enabled: Vec<&str> = tools.iter().filter(|t| t.enabled).map(|t| t.id.as_str()).collect();
    let disabled: Vec<&str> = tools.iter().filter(|t| !t.enabled).map(|t| t.id.as_str()).collect();
    assert_eq!(enabled, ["zhi", "context7", "uiux", "icon"]);
    assert_eq!(disabled, ["ji", "sou", "enhance"]);
    assert!(tools.iter().position(|t| !t.enabled).unwrap() >= 4);
}

#[test]
fn visible_tools_follow_the_flags() {
    let server = ZhiServer::new(ToolSettings::new());
    let fresh = settings_of(&[("ji", false), ("uiux", false), ("enhance", true)]);
    let ids = sanshu::catalog::visible_tool_ids(&server, Some(&fresh));
    let names: Vec<&str> = ids.iter().map(|s| s.as_str()).collect();
    assert_eq!(names, ["zhi", "context7", "tu", "enhance"]);
}

#[test]
fn the_required_tool_cannot_be_switched_off() {
    let settings = settings_of(&[("ji", true)]);
    let err = sanshu::catalog::set_tool_enabled(settings, "zhi", false).unwrap_err();
    assert_eq!(err.as_str(), "三术工具是必需的，无法禁用");
    let again = settings_of(&[("ji", true)]);
    let ok = sanshu::catalog::set_tool_enabled(again, "zhi", true).unwrap();
    assert!(ok.enabled("zhi"));
}

#[test]
fn setting_a_flag_replaces_the_stored_one() {
    let settings = settings_of(&[("sou", true), ("ji", false)]);
    let updated = sanshu::catalog::set_tool_enabled(settings, "sou", false).unwrap();
    assert!(!updated.enabled("sou"));
    assert!(!updated.enabled("ji"));
    assert_eq!(updated.entries.len(), 2);
}

#[test]
fn the_default_settings_mirror_the_catalogue() {
    let defaults = sanshu::catalog::default_tool_settings();
    assert!(defaults.enabled("zhi"));
    assert!(defaults.enabled("ji"));
    assert!(!defaults.enabled("sou"));
    assert!(defaults.enabled("context7"));
    assert!(defaults.enabled("uiux"));
    assert!(!defaults.enabled("enhance"));
    assert!(defaults.enabled("icon"));
}

#[test]
fn proxy_type_names_parse_leniently() {
    assert!(matches!(
        sanshu::netinfo::proxy_type_of_name("socks5"),
        sanshu::netinfo::ProxyType::Socks5
    ));
    assert!(matches!(
        sanshu::netinfo::proxy_type_of_name("http"),
        sanshu::netinfo::ProxyType::Http
    ));
    assert!(matches!(
        sanshu::netinfo::proxy_type_of_name("anything"),
        sanshu::netinfo::ProxyType::Http
    ));
}

#[test]
fn resolver_reports_not_found_when_both_probes_fail() {
    let err = resolve_ui_command(None, false, false).unwrap_err();
    assert!(matches!(err.kind, ErrorKind::BinaryNotFound));
    assert!(err.message.contains("找不到等一下 UI 命令"));
    assert!(err.message.contains("cargo build --release"));
}

#[test]
fn resolver_prefers_the_colocated_executable() {
    let local = String::from("/opt/tools/等一下");
    let path = resolve_ui_command(Some(&local), true, true).unwrap();
    assert_eq!(path.as_str(), "/opt/tools/等一下");
    let global = resolve_ui_command(Some(&local), false, true).unwrap();
    assert_eq!(global.as_str(), "等一下");
}

#[test]
fn temp_file_names_derive_from_the_correlation_id() {
    let a = temp_file_name("call-1");
    let b = temp_file_name("call-2");
    assert_eq!(a.as_str(), "mcp_request_call-1.json");
    assert_eq!(b.as_str(), "mcp_request_call-2.json");
    assert_ne!(a.as_str(), b.as_str());
}

#[test]
fn request_file_is_pretty_json_with_fixed_shape() {
    let req = PopupRequest {
        id: String::from("c1"),
        message: String::from("review \"this\"\nplease"),
        predefined_options: Some(vec![String::from("A"), String::from("B")]),
        is_markdown: true,
        project_root_path: Some(String::from("/tmp/p")),
        uiux_intent: None,
        uiux_context_policy: None,
        uiux_reason: None,
    };
    let body = encode_popup_request(&req);
    let expected = "{\n  \"id\": \"c1\",\n  \"message\": \"review \\\"this\\\"\\nplease\",\n  \"predefined_options\": [\n    \"A\",\n    \"B\"\n  ],\n  \"is_markdown\": true,\n  \"project_root_path\": \"/tmp/p\",\n  \"uiux_intent\": null,\n  \"uiux_context_policy\": null,\n  \"uiux_reason\": null\n}";
    assert_eq!(body.as_str(), expected);
    let v: serde_json::Value = serde_json::from_str(body.as_str()).expect("must read back");
    assert_eq!(v.get("message").and_then(|m| m.as_str()), Some("review \"this\"\nplease"));
    assert_eq!(
        v.get("predefined_options").and_then(|o| o.as_array()).map(|a| a.len()),
        Some(2)
    );
}

#[test]
fn request_file_escapes_control_characters() {
    let req = PopupRequest {
        id: String::from("c3"),
        message: String::from("a\u{1}b\\c"),
        predefined_options: None,
        is_markdown: true,
        project_root_path: None,
        uiux_intent: None,
        uiux_context_policy: None,
        uiux_reason: None,
    };
    let body = encode_popup_request(&req);
    assert!(body.contains("a\\u0001b\\\\c"));
    let v: serde_json::Value = serde_json::from_str(body.as_str()).expect("must read back");
    assert_eq!(v.get("message").and_then(|m| m.as_str()), Some("a\u{1}b\\c"));
}

#[test]
fn request_file_writes_missing_options_as_null() {
    let req = PopupRequest {
        id: String::from("c2"),
        message: String::from("m"),
        predefined_options: None,
        is_markdown: false,
        project_root_path: None,
        uiux_intent: None,
        uiux_context_policy: None,
        uiux_reason: None,
    };
    let body = encode_popup_request(&req);
    assert!(body.contains("\"predefined_options\": null"));
    assert!(body.contains("\"is_markdown\": false"));
}

#[test]
fn icon_args_carry_only_present_nonempty_fields() {
    let req = TuRequest {
        query: Some(String::from("home")),
        style: Some(String::new()),
        save_path: None,
        project_root: Some(String::from("/tmp/p")),
    };
    let args = icon_popup_args(&req);
    let parts: Vec<&str> = args.iter().map(|s| s.as_str()).collect();
    assert_eq!(parts, ["--icon-search", "--query", "home", "--project-root", "/tmp/p"]);
}

#[test]
fn popup_output_empty_stdout_is_cancellation() {
    let out = interpret_popup_output(true, "  \n", "").unwrap();
    assert_eq!(out.as_str(), "用户取消了操作");
}

#[test]
fn popup_output_is_trimmed_on_success() {
    let out = interpret_popup_output(true, "  {\"a\":1}  \n", "").unwrap();
    assert_eq!(out.as_str(), "{\"a\":1}");
}

#[test]
fn popup_failure_carries_stderr() {
    let err = interpret_popup_output(false, "", "boom").unwrap_err();
    assert!(matches!(err.kind, ErrorKind::TransportFailed));
    assert_eq!(err.message.as_str(), "UI进程失败: boom");
}

#[test]
fn icon_output_empty_stdout_is_a_successful_cancellation() {
    let resp = interpret_icon_output(true, "", "").unwrap();
    assert!(resp.cancelled);
    assert_eq!(resp.saved_count, 0);
    assert!(resp.saved_names.is_empty());
}

#[test]
fn icon_output_reads_the_save_report() {
    let raw = "{\"saved_count\":2,\"save_path\":\"assets/icons\",\"saved_names\":[\"a.svg\",\"b.svg\"],\"cancelled\":false}";
    let resp = interpret_icon_output(true, raw, "").unwrap();
    assert!(!resp.cancelled);
    assert_eq!(resp.saved_count, 2);
    assert_eq!(resp.save_path.as_str(), "assets/icons");
    assert_eq!(resp.saved_names.len(), 2);
}

#[test]
fn icon_output_rejects_a_malformed_report() {
    let err = interpret_icon_output(true, "not json", "").unwrap_err();
    assert!(matches!(err.kind, ErrorKind::Internal));
    assert!(err.message.contains("解析图标保存响应失败"));
}

#[test]
fn icon_process_failure_carries_stderr() {
    let err = interpret_icon_output(false, "", "crashed").unwrap_err();
    assert!(matches!(err.kind, ErrorKind::TransportFailed));
    assert_eq!(err.message.as_str(), "图标选择进程失败: crashed");
}

#[test]
fn zhi_arguments_decode_with_defaults() {
    let v: serde_json::Value =
        serde_json::from_str("{\"message\":\"hi\",\"project_root_path\":\"/tmp/p\"}").unwrap();
    let req: ZhiRequest = decode_zhi_request(&v).unwrap();
    assert_eq!(req.message.as_str(), "hi");
    assert!(req.predefined_options.is_empty());
    assert!(req.is_markdown);
    assert_eq!(req.project_root_path.as_deref(), Some("/tmp/p"));
}

#[test]
fn zhi_arguments_without_message_are_invalid_params() {
    let v: serde_json::Value = serde_json::from_str("{\"project_root_path\":\"/tmp\"}").unwrap();
    let err = decode_zhi_request(&v).unwrap_err();
    assert!(matches!(err.kind, ErrorKind::InvalidParams));
    assert_eq!(err.message.as_str(), "参数解析失败: 缺少 message 字段");
}

#[test]
fn zhi_arguments_with_nonstring_message_name_the_field() {
    let v: serde_json::Value = serde_json::from_str("{\"message\":42}").unwrap();
    let err = decode_zhi_request(&v).unwrap_err();
    assert!(matches!(err.kind, ErrorKind::InvalidParams));
    assert_eq!(err.message.as_str(), "参数解析失败: message 字段必须是字符串");
}

#[test]
fn zhi_arguments_with_bad_options_name_the_field() {
    let v: serde_json::Value =
        serde_json::from_str("{\"message\":\"m\",\"predefined_options\":\"oops\"}").unwrap();
    let err = decode_zhi_request(&v).unwrap_err();
    assert_eq!(err.message.as_str(), "参数解析失败: predefined_options 字段必须是字符串数组");
    let v2: serde_json::Value =
        serde_json::from_str("{\"message\":\"m\",\"predefined_options\":[\"a\",7]}").unwrap();
    let err2 = decode_zhi_request(&v2).unwrap_err();
    assert_eq!(err2.message.as_str(), "参数解析失败: predefined_options 字段必须是字符串数组");
    let v3: serde_json::Value =
        serde_json::from_str("{\"message\":\"m\",\"predefined_options\":null}").unwrap();
    let ok = decode_zhi_request(&v3).unwrap();
    assert!(ok.predefined_options.is_empty());
}

#[test]
fn tu_arguments_decode_as_optional_strings() {
    let v: serde_json::Value =
        serde_json::from_str("{\"query\":\"home\",\"style\":\"line\"}").unwrap();
    let req = decode_tu_request(&v);
    assert_eq!(req.query.as_deref(), Some("home"));
    assert_eq!(req.style.as_deref(), Some("line"));
    assert!(req.save_path.is_none());
    assert!(req.project_root.is_none());
    let v2: serde_json::Value = serde_json::from_str("{\"query\":7}").unwrap();
    let req2 = decode_tu_request(&v2);
    assert!(req2.query.is_none());
}

#[test]
fn popup_request_drops_empty_option_lists() {
    let req = ZhiRequest {
        message: String::from("m"),
        predefined_options: vec![],
        is_markdown: true,
        project_root_path: None,
        uiux_intent: None,
        uiux_context_policy: None,
        uiux_reason: None,
    };
    let popup = sanshu::transport::InteractionTool::popup_request(req, String::from("id-1"));
    assert_eq!(popup.id.as_str(), "id-1");
    assert!(popup.predefined_options.is_none());
}
