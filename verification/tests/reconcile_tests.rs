//! The reconciler on real payloads: cancellation, the structured and
//! legacy shapes, the opaque fallback, and the Augment-mode save plan.

use sanshu::content::{ClientMode, ContentItem};
use sanshu::reconcile::{parse_mcp_response, reconcile_finish, reconcile_legacy_generic,
    reconcile_structured_generic, ImageAttachment, ImageSource, McpResponse, McpResponseContent,
    ReconcileOutcome};

fn done_items(outcome: ReconcileOutcome) -> Vec<ContentItem> {
    match outcome {
        ReconcileOutcome::Done(items) => items,
        ReconcileOutcome::SaveImages(_) => panic!("expected a finished list"),
    }
}

fn text_of(item: &ContentItem) -> &str {
    match item {
        ContentItem::Text(t) => t.as_str(),
        ContentItem::Image { .. } => panic!("expected a text item"),
    }
}

#[test]
fn cancellation_sentinel_gives_single_cancel_item() {
    let items = done_items(parse_mcp_response("CANCELLED", ClientMode::Generic));
    assert_eq!(items.len(), 1);
    assert_eq!(text_of(&items[0]), "用户取消了操作");
}

#[test]
fn cancelled_text_itself_gives_single_cancel_item() {
    let items = done_items(parse_mcp_response("用户取消了操作", ClientMode::Generic));
    assert_eq!(items.len(), 1);
    assert_eq!(text_of(&items[0]), "用户取消了操作");
}

#[test]
fn whitespace_only_reply_is_cancellation_in_both_modes() {
    let generic = done_items(parse_mcp_response("  \t\n ", ClientMode::Generic));
    assert_eq!(generic.len(), 1);
    assert_eq!(text_of(&generic[0]), "用户取消了操作");
    let augment = done_items(parse_mcp_response("", ClientMode::Augment));
    assert_eq!(augment.len(), 1);
    assert_eq!(text_of(&augment[0]), "用户取消了操作");
}

#[test]
fn sentinel_with_surrounding_whitespace_is_cancellation_in_augment_mode() {
    let items = done_items(parse_mcp_response("  CANCELLED  ", ClientMode::Augment));
    assert_eq!(items.len(), 1);
    assert_eq!(text_of(&items[0]), "用户取消了操作");
}

#[test]
fn structured_options_and_text_round_trip() {
    let raw = "{\"selected_options\":[\"A\",\"B\"],\"user_input\":\"hello\",\"images\":[]}";
    let items = done_items(parse_mcp_response(raw, ClientMode::Generic));
    assert_eq!(items.len(), 1);
    assert_eq!(text_of(&items[0]), "选择的选项: A, B\n\nhello");
}

#[test]
fn structured_trims_user_input() {
    let raw = "{\"selected_options\":[],\"user_input\":\"  hi there \\n\",\"images\":[]}";
    let items = done_items(parse_mcp_response(raw, ClientMode::Generic));
    assert_eq!(items.len(), 1);
    assert_eq!(text_of(&items[0]), "hi there");
}

#[test]
fn structured_empty_response_reports_no_content() {
    let raw = "{\"selected_options\":[],\"images\":[]}";
    let items = done_items(parse_mcp_response(raw, ClientMode::Generic));
    assert_eq!(items.len(), 1);
    assert_eq!(text_of(&items[0]), "用户未提供任何内容");
}

#[test]
fn legacy_text_and_image_order_and_blocks() {
    let raw = "[{\"type\":\"text\",\"text\":\"hi\"},{\"type\":\"image\",\"source\":{\"type\":\"base64\",\"data\":\"aGVsbG8=\",\"media_type\":\"image/png\"}}]";
    let items = done_items(parse_mcp_response(raw, ClientMode::Generic));
    assert_eq!(items.len(), 2);
    match &items[0] {
        ContentItem::Image { data, media_type } => {
            assert_eq!(data.as_str(), "aGVsbG8=");
            assert_eq!(media_type.as_str(), "image/png");
        },
        ContentItem::Text(_) => panic!("the image must come first"),
    }
    let expected_text = "hi\n\n=== 图片 1 ===\n类型: image/png\n大小: 6 B\nBase64 预览: aGVsbG8=\n完整 Base64 长度: 8 字符\n\n💡 注意：用户提供了 1 张图片。如果 AI 助手无法显示图片，图片数据已包含在上述 Base64 信息中。";
    assert_eq!(text_of(&items[1]), expected_text);
}

#[test]
fn legacy_unknown_type_with_text_counts_as_text() {
    let raw = "[{\"type\":\"note\",\"text\":\"aside\"},{\"type\":\"image\"}]";
    let items = done_items(parse_mcp_response(raw, ClientMode::Generic));
    assert_eq!(items.len(), 1);
    assert_eq!(text_of(&items[0]), "aside");
}

#[test]
fn legacy_non_base64_source_is_ignored() {
    let raw = "[{\"type\":\"image\",\"source\":{\"type\":\"url\",\"data\":\"x\",\"media_type\":\"image/png\"}}]";
    let items = done_items(parse_mcp_response(raw, ClientMode::Generic));
    assert_eq!(items.len(), 1);
    assert_eq!(text_of(&items[0]), "用户未提供任何内容");
}

#[test]
fn unparseable_reply_falls_back_to_opaque_text() {
    let raw = "just some plain words";
    let items = done_items(parse_mcp_response(raw, ClientMode::Generic));
    assert_eq!(items.len(), 1);
    assert_eq!(text_of(&items[0]), "just some plain words");
}

#[test]
fn malformed_json_object_falls_back_to_opaque_text() {
    let raw = "{\"selected_options\":42}";
    let items = done_items(parse_mcp_response(raw, ClientMode::Generic));
    assert_eq!(items.len(), 1);
    assert_eq!(text_of(&items[0]), raw);
}

#[test]
fn size_bucket_moves_to_kilobytes() {
    let data: String = std::iter::repeat('A').take(2000).collect();
    let raw = format!(
        "{{\"selected_options\":[],\"images\":[{{\"data\":\"{}\",\"media_type\":\"image/png\"}}]}}",
        data
    );
    let items = done_items(parse_mcp_response(raw.as_str(), ClientMode::Generic));
    assert_eq!(items.len(), 2);
    let text = text_of(&items[1]);
    assert!(text.contains("大小: 1.5 KB"));
    let preview: String = std::iter::repeat('A').take(50).collect();
    assert!(text.contains(&format!("Base64 预览: {}...", preview)));
}

#[test]
fn structured_filename_appears_in_info_block() {
    let resp = McpResponse {
        selected_options: vec![],
        user_input: None,
        images: vec![ImageAttachment {
            data: String::from("aGVsbG8="),
            media_type: String::from("image/png"),
            filename: Some(String::from("shot.png")),
        }],
    };
    let items = reconcile_structured_generic(&resp);
    assert_eq!(items.len(), 2);
    assert!(text_of(&items[1]).contains("=== 图片 1 ===\n文件名: shot.png\n类型: image/png"));
}

#[test]
fn legacy_builder_matches_parsed_form() {
    let items_in = vec![
        McpResponseContent {
            content_type: String::from("text"),
            text: Some(String::from("hi")),
            source: None,
        },
        McpResponseContent {
            content_type: String::from("image"),
            text: None,
            source: Some(ImageSource {
                source_type: String::from("base64"),
                data: String::from("aGVsbG8="),
                media_type: String::from("image/png"),
            }),
        },
    ];
    let built = reconcile_legacy_generic(&items_in);
    let raw = "[{\"type\":\"text\",\"text\":\"hi\"},{\"type\":\"image\",\"source\":{\"type\":\"base64\",\"data\":\"aGVsbG8=\",\"media_type\":\"image/png\"}}]";
    let parsed = done_items(parse_mcp_response(raw, ClientMode::Generic));
    assert_eq!(built.len(), parsed.len());
    assert_eq!(text_of(&built[1]), text_of(&parsed[1]));
}

#[test]
fn augment_mode_with_image_returns_save_plan_with_decoded_bytes() {
    let raw = "{\"selected_options\":[\"A\"],\"user_input\":\"hello\",\"images\":[{\"data\":\"aGVsbG8=\",\"media_type\":\"image/png\"}]}";
    match parse_mcp_response(raw, ClientMode::Augment) {
        ReconcileOutcome::SaveImages(plan) => {
            assert_eq!(plan.images.len(), 1);
            assert_eq!(plan.images[0].media_type.as_str(), "image/png");
            assert_eq!(plan.images[0].bytes.as_ref().unwrap(), b"hello");
            assert!(plan.images[0].filename.starts_with("augment_image_1_"));
            assert!(plan.images[0].filename.ends_with(".png"));
            assert_eq!(plan.text_parts.len(), 2);
            assert_eq!(plan.text_parts[0].as_str(), "选择的选项: A");
            assert_eq!(plan.text_parts[1].as_str(), "hello");
        },
        ReconcileOutcome::Done(_) => panic!("an Augment reply with images needs a save plan"),
    }
}

#[test]
fn augment_all_saved_yields_exactly_one_json_text_item() {
    let raw = "{\"selected_options\":[],\"user_input\":\"hello\",\"images\":[{\"data\":\"aGVsbG8=\",\"media_type\":\"image/png\"}]}";
    let plan = match parse_mcp_response(raw, ClientMode::Augment) {
        ReconcileOutcome::SaveImages(plan) => plan,
        ReconcileOutcome::Done(_) => panic!("expected a save plan"),
    };
    let outcomes = vec![Some(String::from("/tmp/pictures/one.png"))];
    let items = reconcile_finish(&plan.text_parts, &plan.images, &outcomes);
    assert_eq!(items.len(), 1);
    let body = text_of(&items[0]);
    let v: serde_json::Value = serde_json::from_str(body).expect("the item must be JSON");
    assert_eq!(v.get("text").and_then(|t| t.as_str()), Some("hello"));
    let saved = v.get("images").and_then(|i| i.as_array()).expect("images key");
    assert_eq!(saved.len(), 1);
    assert_eq!(saved[0].get("path").and_then(|p| p.as_str()), Some("/tmp/pictures/one.png"));
    assert_eq!(saved[0].get("type").and_then(|t| t.as_str()), Some("png"));
}

#[test]
fn augment_failed_save_falls_back_to_inline_image() {
    let raw = "{\"selected_options\":[],\"user_input\":\"hello\",\"images\":[{\"data\":\"aGVsbG8=\",\"media_type\":\"image/png\"}]}";
    let plan = match parse_mcp_response(raw, ClientMode::Augment) {
        ReconcileOutcome::SaveImages(plan) => plan,
        ReconcileOutcome::Done(_) => panic!("expected a save plan"),
    };
    let outcomes: Vec<Option<String>> = vec![None];
    let items = reconcile_finish(&plan.text_parts, &plan.images, &outcomes);
    assert_eq!(items.len(), 2);
    match &items[0] {
        ContentItem::Image { data, media_type } => {
            assert_eq!(data.as_str(), "aGVsbG8=");
            assert_eq!(media_type.as_str(), "image/png");
        },
        ContentItem::Text(_) => panic!("the fallback image must come first"),
    }
    assert_eq!(text_of(&items[1]), "hello");
}

#[test]
fn augment_mixed_outcomes_keep_failed_images_before_the_json_item() {
    let images = vec![
        sanshu::reconcile::ImageToSave {
            data: String::from("aGVsbG8="),
            media_type: String::from("image/png"),
            filename: String::from("one.png"),
            bytes: Some(b"hello".to_vec()),
        },
        sanshu::reconcile::ImageToSave {
            data: String::from("aGVsbG8="),
            media_type: String::from("image/webp"),
            filename: String::from("two.webp"),
            bytes: Some(b"hello".to_vec()),
        },
    ];
    let text_parts = vec![String::from("note")];
    let outcomes = vec![None, Some(String::from("/tmp/two.webp"))];
    let items = reconcile_finish(&text_parts, &images, &outcomes);
    assert_eq!(items.len(), 2);
    assert!(matches!(items[0], ContentItem::Image { .. }));
    let v: serde_json::Value = serde_json::from_str(text_of(&items[1])).expect("JSON item");
    let saved = v.get("images").and_then(|i| i.as_array()).expect("images key");
    assert_eq!(saved.len(), 1);
    assert_eq!(saved[0].get("type").and_then(|t| t.as_str()), Some("webp"));
}

#[test]
fn legacy_augment_image_also_returns_a_save_plan() {
    let raw = "[{\"type\":\"text\",\"text\":\"hi\"},{\"type\":\"image\",\"source\":{\"type\":\"base64\",\"data\":\"aGVsbG8=\",\"media_type\":\"image/gif\"}}]";
    match parse_mcp_response(raw, ClientMode::Augment) {
        ReconcileOutcome::SaveImages(plan) => {
            assert_eq!(plan.text_parts.len(), 1);
            assert_eq!(plan.text_parts[0].as_str(), "hi");
            assert_eq!(plan.images.len(), 1);
            assert!(plan.images[0].filename.ends_with(".gif"));
        },
        ReconcileOutcome::Done(_) => panic!("a legacy Augment reply with images needs a plan"),
    }
}

#[test]
fn augment_without_images_behaves_like_generic() {
    let raw = "{\"selected_options\":[\"A\",\"B\"],\"user_input\":\"hello\",\"images\":[]}";
    let items = done_items(parse_mcp_response(raw, ClientMode::Augment));
    assert_eq!(items.len(), 1);
    assert_eq!(text_of(&items[0]), "选择的选项: A, B\n\nhello");
}

#[test]
fn client_mode_matches_case_insensitively() {
    let augment = String::from("AugMent");
    let other = String::from("generic-client");
    assert!(matches!(
        sanshu::content::client_mode_of(Some(&augment)),
        ClientMode::Augment
    ));
    assert!(matches!(sanshu::content::client_mode_of(Some(&other)), ClientMode::Generic));
    assert!(matches!(sanshu::content::client_mode_of(None), ClientMode::Generic));
}
