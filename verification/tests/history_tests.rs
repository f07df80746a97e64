//! Path normalization, hashing, and the history managers' pure operations.

use sanshu::history::{get_by_ids, get_recent, hash_path_v2, new_entry_id, normalize_path_v1,
    normalize_path_v2, sha256_short_hex, ChatEntry, ChatHistoryData, ChatHistoryManager};
use sanshu::zhi_history::ZhiHistoryManager;

fn entry(id: &str, ts: i64, text: &str) -> ChatEntry {
    ChatEntry {
        id: String::from(id),
        user_input: String::from(text),
        ai_response_summary: String::from("sum"),
        timestamp_millis: ts,
        source: String::from("popup"),
    }
}

fn data_of(entries: Vec<ChatEntry>) -> ChatHistoryData {
    ChatHistoryData {
        project_path: String::from("/tmp/proj"),
        entries,
        last_updated_millis: None,
    }
}

#[test]
fn short_hash_of_empty_input_matches_sha256() {
    assert_eq!(sha256_short_hex("").as_str(), "e3b0c44298fc1c14");
}

#[test]
fn hash_path_v2_normalizes_before_hashing() {
    assert_eq!(hash_path_v2(" /Tmp/Proj/ ").as_str(), "29ccbcbce9441d72");
    assert_eq!(hash_path_v2("/tmp/proj").as_str(), "29ccbcbce9441d72");
}

#[test]
fn normalize_v1_lowers_and_flips_separators() {
    assert_eq!(normalize_path_v1(" C:\\Proj ").as_str(), "c:/proj");
}

#[test]
fn normalize_v2_strips_extended_prefixes_and_trailing_slashes() {
    assert_eq!(normalize_path_v2("\\\\?\\C:\\Proj\\").as_str(), "c:/proj");
    assert_eq!(normalize_path_v2("//?/C:/Proj/").as_str(), "c:/proj");
    assert_eq!(normalize_path_v2("/tmp/proj///").as_str(), "/tmp/proj");
}

#[test]
fn legacy_hashes_exclude_the_current_hash_and_duplicates() {
    let mgr = ChatHistoryManager::new("C:/Proj");
    assert_eq!(mgr.project_hash.as_str(), "3ef67fae348e0fb8");
    let names: Vec<&str> = mgr.legacy_hashes.iter().map(|s| s.as_str()).collect();
    assert_eq!(names, ["f60366699dcbbcb5", "cf705c1943fec9ae"]);
}

#[test]
fn manager_paths_end_with_the_hash() {
    let mgr = ChatHistoryManager::new("/tmp/proj");
    let primary = mgr.primary_history_file_path();
    assert!(primary.ends_with("/.sanshu/chat_history/29ccbcbce9441d72.json"));
    let all = mgr.history_file_paths();
    assert_eq!(all.len(), 1 + mgr.legacy_hashes.len());
}

#[test]
fn merged_history_sorts_and_deduplicates_by_id() {
    let mgr = ChatHistoryManager::new("/tmp/proj");
    let file_a = data_of(vec![entry("b", 200, "late"), entry("a", 100, "early")]);
    let file_b = data_of(vec![entry("a", 100, "copy"), entry("c", 150, "middle")]);
    let merged = mgr.load_history_merged(vec![file_a, file_b], true, None, 999).unwrap();
    let ids: Vec<&str> = merged.entries.iter().map(|e| e.id.as_str()).collect();
    assert_eq!(ids, ["a", "c", "b"]);
    assert_eq!(merged.entries[0].user_input.as_str(), "early");
    assert_eq!(merged.last_updated_millis, Some(999));
}

#[test]
fn merged_history_ties_on_timestamp_break_by_id() {
    let mgr = ChatHistoryManager::new("/tmp/proj");
    let file = data_of(vec![entry("z", 100, "z"), entry("a", 100, "a")]);
    let merged = mgr.load_history_merged(vec![file], true, None, 0).unwrap();
    let ids: Vec<&str> = merged.entries.iter().map(|e| e.id.as_str()).collect();
    assert_eq!(ids, ["a", "z"]);
}

#[test]
fn merge_with_no_files_is_empty_and_with_only_failures_is_an_error() {
    let mgr = ChatHistoryManager::new("/tmp/proj");
    let empty = mgr.load_history_merged(vec![], false, None, 0).unwrap();
    assert!(empty.entries.is_empty());
    let err = mgr
        .load_history_merged(vec![], true, Some(String::from("bad json")), 0)
        .unwrap_err();
    assert_eq!(err.as_str(), "bad json");
    let fallback = mgr.load_history_merged(vec![], true, None, 0).unwrap_err();
    assert_eq!(fallback.as_str(), "对话历史文件读取/解析失败");
}

#[test]
fn add_entry_caps_the_history_and_truncates_the_summary() {
    let mgr = ChatHistoryManager::new("/tmp/proj").with_max_entries(2);
    let h0 = data_of(vec![entry("a", 1, "one"), entry("b", 2, "two")]);
    let long_reply: String = std::iter::repeat('x').take(600).collect();
    let h1 = mgr.add_entry(h0, "question", long_reply.as_str(), "enhance", String::from("c"), 3);
    assert_eq!(h1.entries.len(), 2);
    assert_eq!(h1.entries[0].id.as_str(), "b");
    assert_eq!(h1.entries[1].id.as_str(), "c");
    assert_eq!(h1.entries[1].ai_response_summary.chars().count(), 500);
    assert_eq!(h1.last_updated_millis, Some(3));
}

#[test]
fn recent_entries_keep_order_and_count() {
    let entries = vec![entry("a", 1, "1"), entry("b", 2, "2"), entry("c", 3, "3")];
    let recent = get_recent(&entries, 2);
    let ids: Vec<&str> = recent.iter().map(|e| e.id.as_str()).collect();
    assert_eq!(ids, ["b", "c"]);
    let all = get_recent(&entries, 10);
    assert_eq!(all.len(), 3);
}

#[test]
fn entries_by_ids_follow_the_requested_order_and_skip_unknowns() {
    let entries = vec![entry("a", 1, "1"), entry("b", 2, "2")];
    let ids = vec![String::from("b"), String::from("missing"), String::from("a")];
    let picked = get_by_ids(&entries, &ids);
    let got: Vec<&str> = picked.iter().map(|e| e.id.as_str()).collect();
    assert_eq!(got, ["b", "a"]);
}

#[test]
fn remove_entry_reports_whether_anything_went() {
    let mgr = ChatHistoryManager::new("/tmp/proj");
    let h = data_of(vec![entry("a", 1, "1"), entry("b", 2, "2")]);
    let (h1, removed) = mgr.remove_entry(h, "a", 42);
    assert!(removed);
    assert_eq!(h1.entries.len(), 1);
    assert_eq!(h1.last_updated_millis, Some(42));
    let (h2, removed2) = mgr.remove_entry(h1, "zzz", 43);
    assert!(!removed2);
    assert_eq!(h2.last_updated_millis, Some(42));
}

#[test]
fn recent_entries_alias_reads_from_the_history() {
    let mgr = ChatHistoryManager::new("/tmp/proj");
    let h = data_of(vec![entry("a", 1, "1"), entry("b", 2, "2")]);
    let recent = mgr.get_recent_entries(&h, 1);
    assert_eq!(recent.len(), 1);
    assert_eq!(recent[0].id.as_str(), "b");
}

#[test]
fn api_format_wraps_each_entry_in_one_request_and_one_response_node() {
    let mgr = ChatHistoryManager::new("/tmp/proj");
    let h = data_of(vec![entry("a", 1, "ask")]);
    let api = mgr.to_api_format(&h, 5);
    assert_eq!(api.len(), 1);
    assert_eq!(api[0].request_message.as_str(), "ask");
    assert_eq!(api[0].request_id.as_str(), "a");
    assert_eq!(api[0].request_nodes.len(), 1);
    assert_eq!(api[0].request_nodes[0].id, 0);
    assert_eq!(
        api[0].request_nodes[0].text_node.as_ref().unwrap().content.as_str(),
        "ask"
    );
    assert_eq!(api[0].response_nodes.len(), 1);
    assert_eq!(api[0].response_nodes[0].id, 1);
    assert_eq!(api[0].response_nodes[0].content.as_deref(), Some("sum"));
    assert!(api[0].response_nodes[0].tool_use.is_none());
}

#[test]
fn api_format_by_ids_respects_the_id_order() {
    let mgr = ChatHistoryManager::new("/tmp/proj");
    let h = data_of(vec![entry("a", 1, "one"), entry("b", 2, "two")]);
    let ids = vec![String::from("b"), String::from("a")];
    let api = mgr.to_api_format_by_ids(&h, &ids);
    assert_eq!(api.len(), 2);
    assert_eq!(api[0].request_message.as_str(), "two");
    assert_eq!(api[1].request_message.as_str(), "one");
}

#[test]
fn entry_ids_join_time_and_randomness() {
    assert_eq!(new_entry_id(123, 456).as_str(), "123_456");
    assert_eq!(new_entry_id(-5, 7).as_str(), "-5_7");
}

#[test]
fn zhi_history_caps_and_orders_like_the_chat_history() {
    let mgr = ZhiHistoryManager::new("/tmp/proj").with_max_entries(2);
    let h0 = mgr.empty_history();
    let h1 = mgr.add_entry(h0, "r1", "q1", "a1", "popup", String::from("e1"), 1);
    let h2 = mgr.add_entry(h1, "r2", "q2", "a2", "popup", String::from("e2"), 2);
    let h3 = mgr.add_entry(h2, "r3", "q3", "a3", "popup", String::from("e3"), 3);
    assert_eq!(h3.entries.len(), 2);
    assert_eq!(h3.entries[0].id.as_str(), "e2");
    let recent = mgr.get_recent(&h3, 1);
    assert_eq!(recent.len(), 1);
    assert_eq!(recent[0].id.as_str(), "e3");
    let all = mgr.get_all(&h3);
    assert_eq!(all.len(), 2);
    let cleared = mgr.clear(9);
    assert!(cleared.entries.is_empty());
    assert_eq!(cleared.last_updated_millis, Some(9));
}

#[test]
fn zhi_history_hash_uses_the_older_normalization() {
    let mgr = ZhiHistoryManager::new(" C:\\Proj ");
    assert_eq!(mgr.project_hash.as_str(), "3ef67fae348e0fb8");
    let path = mgr.history_file_path(Some(&String::from("/home/u")));
    assert_eq!(path.as_str(), "/home/u/.sanshu/zhi_history/3ef67fae348e0fb8.json");
}
