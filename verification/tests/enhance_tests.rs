//! The enhancement flow's pure pieces: URLs, text cleaning, tag
//! extraction, stream splitting, the payload, and the cancel registry.

use sanshu::enhance::{build_fallback_history_entry, build_full_message, build_request_payload,
    build_zhi_history_summary, chat_stream_url, clean_path_prefix_and_slashes,
    extract_enhanced_prompt, normalize_base_url, split_sse_lines, sse_line_text, truncate_text,
    CancelRegistry};
use sanshu::zhi_history::ZhiHistoryEntry;

#[test]
fn base_urls_gain_a_scheme_and_lose_trailing_slashes() {
    assert_eq!(normalize_base_url("example.com/").as_str(), "https://example.com");
    assert_eq!(normalize_base_url("http://x//").as_str(), "http://x");
    assert_eq!(normalize_base_url("  https://y  ").as_str(), "https://y");
    // A bare scheme keeps losing its slashes: the rule is slash-stripping
    // after the scheme check, not idempotent URL repair.
    assert_eq!(normalize_base_url("https://").as_str(), "https:");
}

#[test]
fn the_stream_endpoint_hangs_off_the_base() {
    assert_eq!(chat_stream_url("https://y").as_str(), "https://y/chat-stream");
}

#[test]
fn cleaned_paths_lose_prefixes_but_keep_case() {
    assert_eq!(clean_path_prefix_and_slashes("\\\\?\\C:\\X\\").as_str(), "C:/X");
    assert_eq!(clean_path_prefix_and_slashes("//?/UNC/srv/share/").as_str(), "//srv/share");
    assert_eq!(clean_path_prefix_and_slashes(" /a/b/ ").as_str(), "/a/b");
}

#[test]
fn truncation_cleans_newlines_and_appends_an_ellipsis() {
    assert_eq!(truncate_text("a\r\nb", 10).as_str(), "a  b");
    assert_eq!(truncate_text("  abcdef  ", 3).as_str(), "abc...");
    assert_eq!(truncate_text("short", 10).as_str(), "short");
}

#[test]
fn the_enhanced_prompt_is_read_between_the_first_tags() {
    let text = "noise <augment-enhanced-prompt>  better prompt </augment-enhanced-prompt> tail";
    assert_eq!(extract_enhanced_prompt(text).unwrap().as_str(), "better prompt");
    assert!(extract_enhanced_prompt("no tags at all").is_none());
    assert!(extract_enhanced_prompt("<augment-enhanced-prompt> never closed").is_none());
    let twice = "<augment-enhanced-prompt>one</augment-enhanced-prompt><augment-enhanced-prompt>two</augment-enhanced-prompt>";
    assert_eq!(extract_enhanced_prompt(twice).unwrap().as_str(), "one");
}

#[test]
fn stream_chunks_split_into_lines_with_a_buffered_tail() {
    let (lines, rest) = split_sse_lines("par", "tial\r\ndata: x\nrest");
    let got: Vec<&str> = lines.iter().map(|s| s.as_str()).collect();
    assert_eq!(got, ["partial", "data: x"]);
    assert_eq!(rest.as_str(), "rest");
    let (lines2, rest2) = split_sse_lines(rest.as_str(), " of it");
    assert!(lines2.is_empty());
    assert_eq!(rest2.as_str(), "rest of it");
}

#[test]
fn stream_lines_carry_their_text_field() {
    assert_eq!(
        sse_line_text("data: {\"text\":\"chunk\"}").unwrap().as_str(),
        "chunk"
    );
    assert_eq!(sse_line_text("{\"text\":\"bare\"}").unwrap().as_str(), "bare");
    assert!(sse_line_text("   ").is_none());
    assert!(sse_line_text("data: not json").is_none());
    assert!(sse_line_text("data: {\"other\":1}").is_none());
}

#[test]
fn interaction_summaries_take_one_line_per_entry() {
    let entries = vec![
        ZhiHistoryEntry {
            id: String::from("1"),
            request_id: String::from("r1"),
            prompt: String::from("What colour?"),
            user_reply: String::from("Blue"),
            timestamp_millis: 1,
            source: String::from("popup"),
        },
        ZhiHistoryEntry {
            id: String::from("2"),
            request_id: String::from("r2"),
            prompt: String::from("   "),
            user_reply: String::from(""),
            timestamp_millis: 2,
            source: String::from("popup"),
        },
    ];
    let (summary, count) = build_zhi_history_summary(&entries);
    assert_eq!(count, 1);
    assert_eq!(summary.as_str(), "- Q: What colour?\n  A: Blue");
}

#[test]
fn the_full_message_wraps_the_prompt_and_optional_summary() {
    let bare = build_full_message("fix the bug", "");
    assert!(bare.starts_with("⚠️ NO TOOLS ALLOWED ⚠️"));
    assert!(bare.ends_with("Here is my original instruction:\n\nfix the bug"));
    assert!(!bare.contains("[最近交互摘要]"));
    let with = build_full_message("fix the bug", "- Q: a\n  A: b");
    assert!(with.contains("\n\n[最近交互摘要]\n- Q: a\n  A: b\n\n"));
}

#[test]
fn the_payload_reads_back_with_the_fixed_fields() {
    let history = vec![];
    let blobs = vec![String::from("blob-1")];
    let body = build_request_payload("msg", &history, &blobs, "src/a.rs", "conv-1", "upstream-default");
    let v: serde_json::Value = serde_json::from_str(body.as_str()).expect("payload must be JSON");
    assert_eq!(v.get("model").and_then(|m| m.as_str()), Some("upstream-default"));
    assert_eq!(v.get("mode").and_then(|m| m.as_str()), Some("CHAT"));
    assert_eq!(v.get("message").and_then(|m| m.as_str()), Some("msg"));
    assert_eq!(v.get("path").and_then(|m| m.as_str()), Some("src/a.rs"));
    assert_eq!(v.get("conversation_id").and_then(|m| m.as_str()), Some("conv-1"));
    let added = v
        .get("blobs")
        .and_then(|b| b.get("added_blobs"))
        .and_then(|a| a.as_array())
        .expect("added blobs");
    assert_eq!(added.len(), 1);
    let nodes = v.get("nodes").and_then(|n| n.as_array()).expect("nodes");
    assert_eq!(nodes[0].get("text_node").and_then(|t| t.get("content")).and_then(|c| c.as_str()), Some("msg"));
}

#[test]
fn the_payload_serializes_history_entries_whole() {
    let mgr = sanshu::history::ChatHistoryManager::new("/tmp/proj");
    let data = sanshu::history::ChatHistoryData {
        project_path: String::from("/tmp/proj"),
        entries: vec![sanshu::history::ChatEntry {
            id: String::from("e1"),
            user_input: String::from("ask"),
            ai_response_summary: String::from("answer"),
            timestamp_millis: 5,
            source: String::from("popup"),
        }],
        last_updated_millis: None,
    };
    let api = mgr.to_api_format(&data, 5);
    let body = build_request_payload("m", &api, &vec![], "", "c", "m1");
    let v: serde_json::Value = serde_json::from_str(body.as_str()).expect("payload must be JSON");
    let hist = v.get("chat_history").and_then(|h| h.as_array()).expect("history");
    assert_eq!(hist.len(), 1);
    assert_eq!(hist[0].get("request_message").and_then(|m| m.as_str()), Some("ask"));
    assert_eq!(
        hist[0]
            .get("response_nodes")
            .and_then(|n| n.as_array())
            .and_then(|n| n[0].get("content"))
            .and_then(|c| c.as_str()),
        Some("answer")
    );
}

#[test]
fn fallback_history_entries_cap_and_tag_the_prompt() {
    assert!(build_fallback_history_entry("   ").is_none());
    let long: String = std::iter::repeat('p').take(600).collect();
    let entry = build_fallback_history_entry(long.as_str()).unwrap();
    assert_eq!(entry.request_message.chars().count(), 503);
    assert!(entry.request_message.ends_with("..."));
    assert!(entry.request_id.starts_with("fallback_"));
    assert_eq!(entry.request_id.chars().count(), 9 + 36);
    assert_eq!(entry.response_nodes[0].content.as_deref(), Some(""));
}

#[test]
fn project_blobs_match_exactly_then_case_insensitively() {
    let entries = vec![
        (String::from("/srv/other"), vec![String::from("o1")]),
        (String::from("//?/C:/Proj/"), vec![String::from("b1"), String::from("b2")]),
    ];
    let direct = sanshu::enhance::find_project_blobs(&entries, "/srv/other", false).unwrap();
    assert_eq!(direct.0, vec![String::from("o1")]);
    assert_eq!(direct.1.as_str(), "/srv/other");
    assert!(sanshu::enhance::find_project_blobs(&entries, "c:/proj", false).is_none());
    let fuzzy = sanshu::enhance::find_project_blobs(&entries, "c:/proj", true).unwrap();
    assert_eq!(fuzzy.0.len(), 2);
    assert_eq!(fuzzy.1.as_str(), "C:/Proj");
}

#[test]
fn cancel_flags_live_from_registration_to_removal() {
    let mut reg = CancelRegistry::new();
    assert!(!reg.cancel_request("r1"));
    reg.register_cancel_flag("r1");
    assert!(reg.cancel_request("r1"));
    reg.remove_cancel_flag("r1");
    assert!(!reg.cancel_request("r1"));
}

#[test]
fn registering_again_resets_a_cancelled_flag() {
    let mut reg = CancelRegistry::new();
    reg.register_cancel_flag("r1");
    assert!(reg.cancel_request("r1"));
    reg.register_cancel_flag("r1");
    assert_eq!(reg.entries.len(), 1);
    assert!(!reg.entries[0].1);
}
