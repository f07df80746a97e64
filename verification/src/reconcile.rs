//! The response reconciler: turns the UI process's reply — the structured
//! shape, the legacy array shape, a cancellation, or opaque text — into one
//! ordered content list, shaped for the calling client.
//!
//! Image files are written outside the library: in Augment mode the
//! reconciler hands back a save plan, and [`reconcile_finish`] folds the
//! save outcomes into the final list.

use vstd::prelude::*;

use crate::content::{ClientMode, ContentItem};
use crate::digest::{base64_decode, base64_decoded};
use crate::jsontext::{append_json_string, json_string_spec};
use crate::jsonval::{doc_field, doc_of, json_parse, opt_str_field, parsed_json, value_as_array,
    value_as_string, value_get, value_is_null, value_is_object, JsonDoc};
use crate::strutil::{chars_to_string, chars_eq_str, dec_spec, join_spec, join_strings,
    starts_with_spec, str_chars, str_eq_str, str_starts_with, subvec, trim_spec, trim_str,
    u64_to_string, usize_to_string};
use crate::sys::random_below;

verus! {

/// One image in a structured response: base64 payload, media type, and the
/// name the user's file had, if any.
#[derive(Debug, Clone)]
pub struct ImageAttachment {
    pub data: String,
    pub media_type: String,
    pub filename: Option<String>,
}

/// The structured response shape: chosen options, free text, images.
#[derive(Debug, Clone)]
pub struct McpResponse {
    pub selected_options: Vec<String>,
    pub user_input: Option<String>,
    pub images: Vec<ImageAttachment>,
}

/// The source of a legacy image item: only base64 payloads are recognised.
#[derive(Debug, Clone)]
pub struct ImageSource {
    pub source_type: String,
    pub data: String,
    pub media_type: String,
}

/// One item of the legacy array shape.
#[derive(Debug, Clone)]
pub struct McpResponseContent {
    pub content_type: String,
    pub text: Option<String>,
    pub source: Option<ImageSource>,
}

/// An image as the reconciler describes it: payload, media type, and the
/// user's file name where the structured shape carried one.
pub struct ImgDesc {
    pub data: Seq<char>,
    pub media_type: Seq<char>,
    pub filename: Option<Seq<char>>,
}

/// The view of an optional string.
pub open spec fn view_opt_str(o: Option<String>) -> Option<Seq<char>> {
    match o {
        Some(s) => Some(s@),
        None => None,
    }
}

/// The text of the single item returned for a cancelled interaction.
pub open spec fn cancelled_text() -> Seq<char> {
    "用户取消了操作"@
}

/// The text of the single item returned when a reply held nothing at all.
pub open spec fn no_content_text() -> Seq<char> {
    "用户未提供任何内容"@
}

/// True of a raw reply that means the user cancelled: the sentinel, the
/// cancelled text itself, or nothing but white space. Checked before any
/// parse is attempted.
pub open spec fn is_cancelled_raw(s: Seq<char>) -> bool {
    trim_spec(s).len() == 0 || trim_spec(s) == "CANCELLED"@ || trim_spec(s) == cancelled_text()
}

/// The approximate decoded size of a base64 payload of `n` characters.
pub open spec fn estimated_size(n: nat) -> nat {
    (n * 3) / 4
}

/// One decimal-tenths figure: `est/unit` rounded to one decimal place.
pub open spec fn tenths_figure(est: nat, unit: nat) -> nat
    recommends
        unit > 0,
{
    (est * 10 + unit / 2) / unit
}

/// The size written for display: bytes below 1 KiB, otherwise KiB or MiB
/// with one decimal place.
pub open spec fn size_str_spec(n: nat) -> Seq<char> {
    let est = estimated_size(n);
    if est < 1024 {
        dec_spec(est) + " B"@
    } else if est < 1048576 {
        let t = tenths_figure(est, 1024);
        dec_spec(t / 10) + "."@ + dec_spec(t % 10) + " KB"@
    } else {
        let t = tenths_figure(est, 1048576);
        dec_spec(t / 10) + "."@ + dec_spec(t % 10) + " MB"@
    }
}

/// The base64 preview: the first fifty characters, with an ellipsis when
/// the payload is longer.
pub open spec fn preview_spec(data: Seq<char>) -> Seq<char> {
    if data.len() > 50 {
        data.take(50) + "..."@
    } else {
        data
    }
}

/// The information block written for one image in generic mode: its index,
/// file name when known, media type, approximate size, preview, and payload
/// length.
pub open spec fn image_info_spec(index1: nat, img: ImgDesc) -> Seq<char> {
    "=== 图片 "@ + dec_spec(index1) + " ==="@ + (match img.filename {
        Some(f) => "\n文件名: "@ + f,
        None => Seq::<char>::empty(),
    }) + "\n类型: "@ + img.media_type + "\n大小: "@ + size_str_spec(img.data.len())
        + "\nBase64 预览: "@ + preview_spec(img.data) + "\n完整 Base64 长度: "@ + dec_spec(
        img.data.len(),
    ) + " 字符"@
}

/// The note appended after the information blocks, telling a reader that
/// cannot render images where the data stands.
pub open spec fn compat_note_spec(count: nat) -> Seq<char> {
    "💡 注意：用户提供了 "@ + dec_spec(count)
        + " 张图片。如果 AI 助手无法显示图片，图片数据已包含在上述 Base64 信息中。"@
}

/// The information blocks for a list of images, numbered from one.
pub open spec fn infos_spec(images: Seq<ImgDesc>) -> Seq<Seq<char>> {
    Seq::new(images.len(), |i: int| image_info_spec((i + 1) as nat, images[i]))
}

/// Every text part of a generic-mode reply, in order: the caller's own
/// parts, then one information block per image, then the note when any
/// image is present.
pub open spec fn all_text_parts(pre: Seq<Seq<char>>, images: Seq<ImgDesc>) -> Seq<Seq<char>> {
    pre + infos_spec(images) + (if images.len() > 0 {
        seq![compat_note_spec(images.len())]
    } else {
        Seq::<Seq<char>>::empty()
    })
}

/// What a generic-mode reply looks like: every image as an inline item, in
/// input order, then one text item joining all text parts — or the
/// no-content item where there was nothing at all.
pub open spec fn generic_result_ok(
    r: Seq<ContentItem>,
    pre: Seq<Seq<char>>,
    images: Seq<ImgDesc>,
) -> bool {
    let texts = all_text_parts(pre, images);
    if images.len() == 0 && texts.len() == 0 {
        r.len() == 1 && r[0] is Text && r[0]->Text_0@ == no_content_text()
    } else {
        r.len() == images.len() + (if texts.len() > 0 {
            1int
        } else {
            0int
        }) && (forall|k: int|
            0 <= k < images.len() ==> (#[trigger] r[k]) is Image && r[k]->Image_data@
                == images[k].data && r[k]->Image_media_type@ == images[k].media_type) && (
        texts.len() > 0 ==> r[images.len() as int] is Text && r[images.len() as int]->Text_0@
            == join_spec(texts, "\n\n"@))
    }
}

/// The size figure as displayed.
fn size_str(n: usize) -> (r: String)
    ensures
        r@ == size_str_spec(n as nat),
{
    let est_wide: u128 = (n as u128) * 3 / 4;
    proof {
        assert(est_wide == estimated_size(n as nat));
    }
    if est_wide < 1024 {
        let mut s = u64_to_string(est_wide as u64);
        s.append(" B");
        s
    } else if est_wide < 1048576 {
        let t_wide: u128 = (est_wide * 10 + 512) / 1024;
        proof {
            assert(t_wide == tenths_figure(estimated_size(n as nat), 1024));
            assert(t_wide <= 10240);
        }
        let t: u64 = t_wide as u64;
        let mut s = u64_to_string(t / 10);
        s.append(".");
        let frac = u64_to_string(t % 10);
        s.append(frac.as_str());
        s.append(" KB");
        proof {
            assert(s@ =~= size_str_spec(n as nat));
        }
        s
    } else {
        let t_wide: u128 = (est_wide * 10 + 524288) / 1048576;
        proof {
            assert(t_wide == tenths_figure(estimated_size(n as nat), 1048576));
            assert(est_wide <= (usize::MAX as u128) * 3 / 4);
            assert(t_wide <= 0xFFFF_FFFF_FFFF_FFFFu128) by {
                assert(est_wide * 10 <= 0xFFFF_FFFF_FFFF_FFFFu128 * 8);
            }
        }
        let t: u64 = t_wide as u64;
        let mut s = u64_to_string(t / 10);
        s.append(".");
        let frac = u64_to_string(t % 10);
        s.append(frac.as_str());
        s.append(" MB");
        proof {
            assert(s@ =~= size_str_spec(n as nat));
        }
        s
    }
}

/// The preview of a base64 payload.
fn preview_of(data: &str) -> (r: String)
    ensures
        r@ == preview_spec(data@),
{
    let chars = str_chars(data);
    if chars.len() > 50 {
        let head = subvec(&chars, 0, 50);
        let mut s = chars_to_string(&head);
        s.append("...");
        proof {
            assert(s@ =~= preview_spec(data@));
        }
        s
    } else {
        chars_to_string(&chars)
    }
}

/// The information block for one image.
fn build_image_info(index1: u64, filename: Option<&String>, media_type: &str, data: &str) -> (r:
    String)
    ensures
        r@ == image_info_spec(
            index1 as nat,
            ImgDesc {
                data: data@,
                media_type: media_type@,
                filename: match filename {
                    Some(f) => Some(f@),
                    None => None,
                },
            },
        ),
{
    let mut s = String::from_str("=== 图片 ");
    let idx = u64_to_string(index1);
    s.append(idx.as_str());
    s.append(" ===");
    match filename {
        Some(f) => {
            s.append("\n文件名: ");
            s.append(f.as_str());
        },
        None => {},
    }
    s.append("\n类型: ");
    s.append(media_type);
    s.append("\n大小: ");
    let data_chars_len = data.unicode_len();
    let sz = size_str(data_chars_len);
    s.append(sz.as_str());
    s.append("\nBase64 预览: ");
    let pv = preview_of(data);
    s.append(pv.as_str());
    s.append("\n完整 Base64 长度: ");
    let ln = usize_to_string(data_chars_len);
    s.append(ln.as_str());
    s.append(" 字符");
    proof {
        assert(s@ =~= image_info_spec(
            index1 as nat,
            ImgDesc {
                data: data@,
                media_type: media_type@,
                filename: match filename {
                    Some(f) => Some(f@),
                    None => None,
                },
            },
        ));
    }
    s
}

/// The note appended when images are present.
fn build_compat_note(count: usize) -> (r: String)
    ensures
        r@ == compat_note_spec(count as nat),
{
    let mut s = String::from_str("💡 注意：用户提供了 ");
    let n = usize_to_string(count);
    s.append(n.as_str());
    s.append(" 张图片。如果 AI 助手无法显示图片，图片数据已包含在上述 Base64 信息中。");
    proof {
        assert(s@ =~= compat_note_spec(count as nat));
    }
    s
}

/// Builds a generic-mode reply from the caller's text parts and the images,
/// exactly as `generic_result_ok` describes it.
fn build_generic_items(pre_texts: Vec<String>, images: &Vec<ImageAttachment>) -> (r: Vec<
    ContentItem,
>)
    ensures
        generic_result_ok(r@, pre_texts.deep_view(), attachment_descs(images@)),
{
    let ghost descs = attachment_descs(images@);
    let mut result: Vec<ContentItem> = Vec::new();
    let mut texts: Vec<String> = pre_texts;
    let ghost pre = texts.deep_view();
    proof {
        assert(pre + infos_spec(descs).subrange(0, 0) =~= pre);
    }
    let mut i: usize = 0;
    while i < images.len()
        invariant
            descs == attachment_descs(images@),
            i <= images@.len(),
            result@.len() == i,
            forall|k: int|
                0 <= k < i ==> (#[trigger] result@[k]) is Image && result@[k]->Image_data@
                    == descs[k].data && result@[k]->Image_media_type@ == descs[k].media_type,
            texts.deep_view() == pre + infos_spec(descs).subrange(0, i as int),
        decreases images@.len() - i,
    {
        let data = &images[i].data;
        let media = &images[i].media_type;
        let filename = images[i].filename.as_ref();
        result.push(
            ContentItem::Image { data: data.clone(), media_type: media.clone() },
        );
        let info = build_image_info((i + 1) as u64, filename, media.as_str(), data.as_str());
        proof {
            assert(descs[i as int].data == images@[i as int].data@);
            assert(descs[i as int].media_type == images@[i as int].media_type@);
            assert(descs[i as int].filename == view_opt_str(images@[i as int].filename));
            assert(info@ == image_info_spec((i + 1) as nat, descs[i as int]));
            assert(infos_spec(descs)[i as int] == image_info_spec((i + 1) as nat, descs[i as int]));
        }
        let ghost old_dv = texts.deep_view();
        let ghost info_view = info@;
        texts.push(info);
        i = i + 1;
        proof {
            assert(texts.deep_view() =~= old_dv.push(info_view));
            assert(infos_spec(descs).subrange(0, i as int) =~= infos_spec(descs).subrange(
                0,
                i - 1,
            ).push(infos_spec(descs)[i - 1]));
            assert(old_dv.push(info_view) =~= pre + infos_spec(descs).subrange(0, i as int));
        }
    }
    proof {
        assert(infos_spec(descs).subrange(0, descs.len() as int) =~= infos_spec(descs));
    }
    if images.len() > 0 {
        let note = build_compat_note(images.len());
        texts.push(note);
    }
    proof {
        assert(texts.deep_view() =~= all_text_parts(pre, descs));
    }
    if texts.len() > 0 {
        let combined = join_strings(&texts, "\n\n");
        result.push(ContentItem::Text(combined));
    }
    if result.len() == 0 {
        result.push(ContentItem::Text(String::from_str("用户未提供任何内容")));
    }
    result
}

/// The image descriptors of a list of image attachments.
pub open spec fn attachment_descs(images: Seq<ImageAttachment>) -> Seq<ImgDesc> {
    Seq::new(
        images.len(),
        |i: int|
            ImgDesc {
                data: images[i].data@,
                media_type: images[i].media_type@,
                filename: view_opt_str(images[i].filename),
            },
    )
}

/// The text parts a structured response contributes before any image
/// handling: the joined option list when options were chosen, then the
/// trimmed free text when it is not blank.
pub open spec fn structured_pre_texts(resp: McpResponse) -> Seq<Seq<char>> {
    (if resp.selected_options@.len() > 0 {
        seq!["选择的选项: "@ + join_spec(resp.selected_options.deep_view(), ", "@)]
    } else {
        Seq::<Seq<char>>::empty()
    }) + (match resp.user_input {
        Some(u) => if trim_spec(u@).len() > 0 {
            seq![trim_spec(u@)]
        } else {
            Seq::<Seq<char>>::empty()
        },
        None => Seq::<Seq<char>>::empty(),
    })
}

/// The structured response's text parts, as strings.
fn build_structured_pre_texts(resp: &McpResponse) -> (r: Vec<String>)
    ensures
        r.deep_view() == structured_pre_texts(*resp),
{
    let mut pre: Vec<String> = Vec::new();
    if resp.selected_options.len() > 0 {
        let mut part = String::from_str("选择的选项: ");
        let joined = join_strings(&resp.selected_options, ", ");
        part.append(joined.as_str());
        pre.push(part);
    }
    match resp.user_input.as_ref() {
        Some(u) => {
            let t = trim_str(u.as_str());
            if t.len() > 0 {
                pre.push(chars_to_string(&t));
            }
        },
        None => {},
    }
    proof {
        assert(pre.deep_view() =~= structured_pre_texts(*resp));
    }
    pre
}

/// Reconciles a structured response for a generic client: images inline and
/// in input order first, then one text item joining the options line, the
/// trimmed free text, the per-image information blocks, and — when at least
/// one image is present — the compatibility note; the no-content item when
/// the response held nothing.
pub fn reconcile_structured_generic(resp: &McpResponse) -> (r: Vec<ContentItem>)
    ensures
        generic_result_ok(r@, structured_pre_texts(*resp), attachment_descs(resp.images@)),
{
    let pre = build_structured_pre_texts(resp);
    build_generic_items(pre, &resp.images)
}

/// The texts a legacy array contributes: every item that is not an image
/// and carries text, in order.
pub open spec fn legacy_texts_spec(items: Seq<McpResponseContent>) -> Seq<Seq<char>>
    decreases items.len(),
{
    if items.len() == 0 {
        Seq::<Seq<char>>::empty()
    } else {
        legacy_texts_spec(items.drop_last()) + (if items.last().content_type@ == "image"@ {
            Seq::<Seq<char>>::empty()
        } else {
            match items.last().text {
                Some(t) => seq![t@],
                None => Seq::<Seq<char>>::empty(),
            }
        })
    }
}

/// The images a legacy array contributes: every image item whose source is
/// present and of the base64 kind, in order, with no file name.
pub open spec fn legacy_images_spec(items: Seq<McpResponseContent>) -> Seq<ImgDesc>
    decreases items.len(),
{
    if items.len() == 0 {
        Seq::<ImgDesc>::empty()
    } else {
        legacy_images_spec(items.drop_last()) + (if items.last().content_type@ == "image"@
            && items.last().source is Some && items.last().source->Some_0.source_type@
            == "base64"@ {
            seq![
                ImgDesc {
                    data: items.last().source->Some_0.data@,
                    media_type: items.last().source->Some_0.media_type@,
                    filename: None,
                },
            ]
        } else {
            Seq::<ImgDesc>::empty()
        })
    }
}

/// Splits a legacy array into its texts and its recognised images.
fn gather_legacy(items: &Vec<McpResponseContent>) -> (r: (Vec<String>, Vec<ImageAttachment>))
    ensures
        r.0.deep_view() == legacy_texts_spec(items@),
        attachment_descs(r.1@) == legacy_images_spec(items@),
{
    let mut texts: Vec<String> = Vec::new();
    let mut images: Vec<ImageAttachment> = Vec::new();
    let mut i: usize = 0;
    while i < items.len()
        invariant
            i <= items@.len(),
            texts.deep_view() == legacy_texts_spec(items@.take(i as int)),
            attachment_descs(images@) == legacy_images_spec(items@.take(i as int)),
        decreases items@.len() - i,
    {
        let ghost prev_texts = texts.deep_view();
        let ghost prev_descs = attachment_descs(images@);
        let item = &items[i];
        if str_eq_str(item.content_type.as_str(), "image") {
            match item.source.as_ref() {
                Some(source) => {
                    if str_eq_str(source.source_type.as_str(), "base64") {
                        images.push(
                            ImageAttachment {
                                data: source.data.clone(),
                                media_type: source.media_type.clone(),
                                filename: None,
                            },
                        );
                    }
                },
                None => {},
            }
        } else {
            match item.text.as_ref() {
                Some(t) => {
                    texts.push(t.clone());
                },
                None => {},
            }
        }
        i = i + 1;
        proof {
            assert(items@.take(i as int).drop_last() =~= items@.take(i - 1));
            assert(items@.take(i as int).last() == items@[i - 1]);
            assert(texts.deep_view() =~= legacy_texts_spec(items@.take(i as int)));
            assert(attachment_descs(images@) =~= legacy_images_spec(items@.take(i as int)));
        }
    }
    proof {
        assert(items@.take(items@.len() as int) =~= items@);
    }
    (texts, images)
}

/// Reconciles a legacy array for a generic client: the recognised images
/// inline and in input order first, then one text item joining the items'
/// texts, the per-image information blocks, and — when at least one image
/// is present — the compatibility note; the no-content item when the array
/// held nothing usable.
pub fn reconcile_legacy_generic(items: &Vec<McpResponseContent>) -> (r: Vec<ContentItem>)
    ensures
        generic_result_ok(r@, legacy_texts_spec(items@), legacy_images_spec(items@)),
{
    let (texts, images) = gather_legacy(items);
    build_generic_items(texts, &images)
}

/// The file extension chosen for a media type when an image is saved.
pub open spec fn ext_of_spec(mt: Seq<char>) -> Seq<char> {
    if mt == "image/png"@ {
        "png"@
    } else if mt == "image/jpeg"@ || mt == "image/jpg"@ {
        "jpg"@
    } else if mt == "image/gif"@ {
        "gif"@
    } else if mt == "image/webp"@ {
        "webp"@
    } else if mt == "image/bmp"@ {
        "bmp"@
    } else {
        "png"@
    }
}

fn media_extension(mt: &str) -> (r: &'static str)
    ensures
        r@ == ext_of_spec(mt@),
{
    if str_eq_str(mt, "image/png") {
        "png"
    } else if str_eq_str(mt, "image/jpeg") || str_eq_str(mt, "image/jpg") {
        "jpg"
    } else if str_eq_str(mt, "image/gif") {
        "gif"
    } else if str_eq_str(mt, "image/webp") {
        "webp"
    } else if str_eq_str(mt, "image/bmp") {
        "bmp"
    } else {
        "png"
    }
}

/// The type name written beside a saved image's path: the media type with
/// its `image/` prefix removed, or `png` for a foreign media type.
pub open spec fn image_type_spec(mt: Seq<char>) -> Seq<char> {
    if starts_with_spec(mt, "image/"@) {
        mt.skip(6)
    } else {
        "png"@
    }
}

fn image_type_of(mt: &str) -> (r: String)
    ensures
        r@ == image_type_spec(mt@),
{
    if str_starts_with(mt, "image/") {
        let chars = str_chars(mt);
        proof {
            reveal_strlit("image/");
        }
        let tail = subvec(&chars, 6, chars.len());
        proof {
            assert(mt@.subrange(6, mt@.len() as int) =~= mt@.skip(6));
        }
        chars_to_string(&tail)
    } else {
        String::from_str("png")
    }
}

/// One image of an Augment-mode save plan: the payload as received, the
/// generated file name, and the decoded bytes — `None` where the base64 did
/// not decode, which the finish step treats like a failed save.
#[derive(Debug, Clone)]
pub struct ImageToSave {
    pub data: String,
    pub media_type: String,
    pub filename: String,
    pub bytes: Option<Vec<u8>>,
}

/// An Augment-mode plan: the text parts gathered so far and the images to
/// write to disk before the reply can be finished.
#[derive(Debug, Clone)]
pub struct AugmentPlan {
    pub text_parts: Vec<String>,
    pub images: Vec<ImageToSave>,
}

/// What reconciliation decided: a finished list, or a save plan whose
/// outcomes [`reconcile_finish`] still has to fold in.
#[derive(Debug, Clone)]
pub enum ReconcileOutcome {
    Done(Vec<ContentItem>),
    SaveImages(AugmentPlan),
}

/// A generated image file name: the fixed stem, the one-based image index,
/// six random characters against collisions, and the extension chosen for
/// the media type.
fn generate_image_filename(index: usize, extension: &str) -> (r: String)
    requires
        index < usize::MAX,
    ensures
        exists|sfx: Seq<char>|
            r@ == "augment_image_"@ + dec_spec((index + 1) as nat) + "_"@ + sfx + "."@
                + extension@ && sfx.len() == 6,
{
    let alphabet = str_chars("abcdefghijklmnopqrstuvwxyz0123456789");
    proof {
        reveal_strlit("abcdefghijklmnopqrstuvwxyz0123456789");
    }
    let mut suffix: Vec<char> = Vec::new();
    let mut k: usize = 0;
    while k < 6
        invariant
            alphabet@.len() == 36,
            k <= 6,
            suffix@.len() == k,
        decreases 6 - k,
    {
        let idx = random_below(36);
        suffix.push(alphabet[idx]);
        k = k + 1;
    }
    let mut s = String::from_str("augment_image_");
    let num = u64_to_string((index + 1) as u64);
    s.append(num.as_str());
    s.append("_");
    let sfx = chars_to_string(&suffix);
    s.append(sfx.as_str());
    s.append(".");
    s.append(extension);
    proof {
        assert(s@ =~= "augment_image_"@ + dec_spec((index + 1) as nat) + "_"@ + suffix@ + "."@
            + extension@);
    }
    s
}

/// Builds the Augment-mode save plan for a list of images: each gets a
/// generated file name and its decoded bytes, carried beside the original
/// payload so a failed save can still fall back to an inline image.
fn build_augment_plan(pre_texts: Vec<String>, images: &Vec<ImageAttachment>) -> (r: AugmentPlan)
    ensures
        r.text_parts.deep_view() == pre_texts.deep_view(),
        r.images@.len() == images@.len(),
        forall|i: int|
            0 <= i < images@.len() ==> (#[trigger] r.images@[i]).data@ == images@[i].data@
                && r.images@[i].media_type@ == images@[i].media_type@,
        forall|i: int|
            0 <= i < images@.len() ==> match (#[trigger] r.images@[i]).bytes {
                Some(b) => base64_decoded(images@[i].data@) == Some(b@),
                None => base64_decoded(images@[i].data@) is None,
            },
{
    let mut out: Vec<ImageToSave> = Vec::new();
    let mut i: usize = 0;
    while i < images.len()
        invariant
            i <= images@.len(),
            out@.len() == i,
            forall|j: int|
                0 <= j < i ==> (#[trigger] out@[j]).data@ == images@[j].data@
                    && out@[j].media_type@ == images@[j].media_type@,
            forall|j: int|
                0 <= j < i ==> match (#[trigger] out@[j]).bytes {
                    Some(b) => base64_decoded(images@[j].data@) == Some(b@),
                    None => base64_decoded(images@[j].data@) is None,
                },
        decreases images@.len() - i,
    {
        let img = &images[i];
        let ext = media_extension(img.media_type.as_str());
        let filename = generate_image_filename(i, ext);
        let bytes = base64_decode(img.data.as_str());
        out.push(
            ImageToSave {
                data: img.data.clone(),
                media_type: img.media_type.clone(),
                filename,
                bytes,
            },
        );
        i = i + 1;
    }
    AugmentPlan { text_parts: pre_texts, images: out }
}

/// The `(path, type)` pairs of the images saved among the first `n`
/// outcomes, in order.
pub open spec fn saved_pairs(
    images: Seq<ImageToSave>,
    outcomes: Seq<Option<String>>,
    n: int,
) -> Seq<(Seq<char>, Seq<char>)>
    decreases n,
{
    if n <= 0 {
        Seq::<(Seq<char>, Seq<char>)>::empty()
    } else {
        saved_pairs(images, outcomes, n - 1) + (match outcomes[n - 1] {
            Some(p) => seq![(p@, image_type_spec(images[n - 1].media_type@))],
            None => Seq::<(Seq<char>, Seq<char>)>::empty(),
        })
    }
}

/// The `(data, media type)` pairs of the images whose save failed among the
/// first `n` outcomes, in order: these fall back to inline items.
pub open spec fn failed_pairs(
    images: Seq<ImageToSave>,
    outcomes: Seq<Option<String>>,
    n: int,
) -> Seq<(Seq<char>, Seq<char>)>
    decreases n,
{
    if n <= 0 {
        Seq::<(Seq<char>, Seq<char>)>::empty()
    } else {
        failed_pairs(images, outcomes, n - 1) + (match outcomes[n - 1] {
            Some(p) => Seq::<(Seq<char>, Seq<char>)>::empty(),
            None => seq![(images[n - 1].data@, images[n - 1].media_type@)],
        })
    }
}

/// The single text item of an Augment-mode reply: a compact JSON object
/// holding the combined text and the saved images' paths and types.
pub open spec fn augment_json_spec(text: Seq<char>, saved: Seq<(Seq<char>, Seq<char>)>) -> Seq<
    char,
> {
    "{\"images\":["@ + join_spec(
        Seq::new(saved.len(), |i: int| augment_entry_spec(saved[i])),
        ","@,
    ) + "],\"text\":"@ + json_string_spec(text) + "}"@
}

/// One saved image inside the Augment-mode JSON.
pub open spec fn augment_entry_spec(p: (Seq<char>, Seq<char>)) -> Seq<char> {
    "{\"path\":"@ + json_string_spec(p.0) + ",\"type\":"@ + json_string_spec(p.1) + "}"@
}

fn render_augment_entry(path: &String, image_type: &String) -> (r: String)
    ensures
        r@ == augment_entry_spec((path@, image_type@)),
{
    let mut s = String::from_str("{\"path\":");
    append_json_string(&mut s, path.as_str());
    s.append(",\"type\":");
    append_json_string(&mut s, image_type.as_str());
    s.append("}");
    proof {
        assert(s@ =~= augment_entry_spec((path@, image_type@)));
    }
    s
}

/// Folds the save outcomes into the final Augment-mode reply. `outcomes[i]`
/// is the path image `i` was written to, or `None` where decoding or the
/// write failed. Failed images fall back to inline items, in order, never
/// dropped; when anything was saved, one text item carries the JSON object
/// with the combined text and every saved path. When nothing was saved the
/// reply falls back to the text parts alone, or the no-content item.
pub fn reconcile_finish(
    text_parts: &Vec<String>,
    images: &Vec<ImageToSave>,
    outcomes: &Vec<Option<String>>,
) -> (r: Vec<ContentItem>)
    requires
        outcomes@.len() == images@.len(),
    ensures
        ({
            let saved = saved_pairs(images@, outcomes@, images@.len() as int);
            let failed = failed_pairs(images@, outcomes@, images@.len() as int);
            &&& (forall|k: int|
                0 <= k < failed.len() ==> (#[trigger] r@[k]) is Image && r@[k]->Image_data@
                    == failed[k].0 && r@[k]->Image_media_type@ == failed[k].1)
            &&& (saved.len() > 0 ==> r@.len() == failed.len() + 1 && r@[failed.len() as int]
                is Text && r@[failed.len() as int]->Text_0@ == augment_json_spec(
                join_spec(text_parts.deep_view(), "\n\n"@),
                saved,
            ))
            &&& (saved.len() == 0 && (failed.len() > 0 || text_parts.deep_view().len() > 0)
                ==> r@.len() == failed.len() + (if text_parts.deep_view().len() > 0 {
                1int
            } else {
                0int
            }) && (text_parts.deep_view().len() > 0 ==> r@[failed.len() as int] is Text
                && r@[failed.len() as int]->Text_0@ == join_spec(
                text_parts.deep_view(),
                "\n\n"@,
            )))
            &&& (saved.len() == 0 && failed.len() == 0 && text_parts.deep_view().len() == 0
                ==> r@.len() == 1 && r@[0] is Text && r@[0]->Text_0@ == no_content_text())
            &&& r@.len() > 0
        }),
{
    let n = images.len();
    let mut result: Vec<ContentItem> = Vec::new();
    let mut rendered: Vec<String> = Vec::new();
    let ghost all_saved = saved_pairs(images@, outcomes@, n as int);
    let mut i: usize = 0;
    while i < n
        invariant
            n == images@.len(),
            outcomes@.len() == n,
            i <= n,
            result@.len() == failed_pairs(images@, outcomes@, i as int).len(),
            forall|k: int|
                0 <= k < result@.len() ==> (#[trigger] result@[k]) is Image
                    && result@[k]->Image_data@ == failed_pairs(images@, outcomes@, i as int)[k].0
                    && result@[k]->Image_media_type@ == failed_pairs(
                    images@,
                    outcomes@,
                    i as int,
                )[k].1,
            rendered.deep_view() == Seq::new(
                saved_pairs(images@, outcomes@, i as int).len(),
                |k: int| augment_entry_spec(saved_pairs(images@, outcomes@, i as int)[k]),
            ),
        decreases n - i,
    {
        let ghost prev_failed = failed_pairs(images@, outcomes@, i as int);
        let ghost prev_saved = saved_pairs(images@, outcomes@, i as int);
        let ghost prev_rendered = rendered.deep_view();
        match outcomes[i].as_ref() {
            Some(path) => {
                let ty = image_type_of(images[i].media_type.as_str());
                let entry = render_augment_entry(path, &ty);
                let ghost entry_view = entry@;
                rendered.push(entry);
                proof {
                    assert(entry_view == augment_entry_spec((
                        path@,
                        image_type_spec(images@[i as int].media_type@),
                    )));
                    assert(rendered.deep_view() =~= prev_rendered.push(entry_view));
                    assert(saved_pairs(images@, outcomes@, i + 1) == prev_saved + seq![
                        (path@, image_type_spec(images@[i as int].media_type@)),
                    ]);
                    assert(prev_saved + seq![
                        (path@, image_type_spec(images@[i as int].media_type@)),
                    ] =~= prev_saved.push((
                        path@,
                        image_type_spec(images@[i as int].media_type@),
                    )));
                    assert(failed_pairs(images@, outcomes@, i + 1) =~= prev_failed);
                }
            },
            None => {
                result.push(
                    ContentItem::Image {
                        data: images[i].data.clone(),
                        media_type: images[i].media_type.clone(),
                    },
                );
                proof {
                    assert(saved_pairs(images@, outcomes@, i + 1) =~= prev_saved);
                    assert(failed_pairs(images@, outcomes@, i + 1) =~= prev_failed.push((
                        images@[i as int].data@,
                        images@[i as int].media_type@,
                    )));
                }
            },
        }
        i = i + 1;
        proof {
            let cur_saved = saved_pairs(images@, outcomes@, i as int);
            assert(rendered.deep_view() =~= Seq::new(
                cur_saved.len(),
                |k: int| augment_entry_spec(cur_saved[k]),
            ));
        }
    }
    if rendered.len() > 0 {
        let joined_text = join_strings(text_parts, "\n\n");
        let mut body = String::from_str("{\"images\":[");
        let entries = join_strings(&rendered, ",");
        body.append(entries.as_str());
        body.append("],\"text\":");
        append_json_string(&mut body, joined_text.as_str());
        body.append("}");
        proof {
            assert(rendered.deep_view() =~= Seq::new(
                all_saved.len(),
                |k: int| augment_entry_spec(all_saved[k]),
            ));
            assert(body@ =~= augment_json_spec(
                join_spec(text_parts.deep_view(), "\n\n"@),
                all_saved,
            ));
        }
        result.push(ContentItem::Text(body));
    } else if text_parts.len() > 0 {
        let joined_text = join_strings(text_parts, "\n\n");
        result.push(ContentItem::Text(joined_text));
    }
    if result.len() == 0 {
        result.push(ContentItem::Text(String::from_str("用户未提供任何内容")));
    }
    result
}

/// Law: when every image of the plan was saved, the Augment-mode reply is
/// exactly one item — the text item whose content is the JSON object of the
/// combined text and the saved paths. With `reconcile_finish`'s contract
/// this gives: any response with at least one image, all saved, produces
/// exactly one text item and nothing else.
pub proof fn lemma_augment_all_saved(images: Seq<ImageToSave>, outcomes: Seq<Option<String>>)
    requires
        outcomes.len() == images.len(),
        forall|i: int| 0 <= i < outcomes.len() ==> (#[trigger] outcomes[i]) is Some,
    ensures
        failed_pairs(images, outcomes, images.len() as int).len() == 0,
        saved_pairs(images, outcomes, images.len() as int).len() == images.len(),
    decreases images.len(),
{
    if images.len() > 0 {
        let n = images.len() as int;
        lemma_saved_failed_prefix(images, outcomes, n - 1);
        assert(outcomes[n - 1] is Some);
    }
}

proof fn lemma_saved_failed_prefix(images: Seq<ImageToSave>, outcomes: Seq<Option<String>>, n: int)
    requires
        0 <= n <= outcomes.len(),
        outcomes.len() == images.len(),
        forall|i: int| 0 <= i < outcomes.len() ==> (#[trigger] outcomes[i]) is Some,
    ensures
        failed_pairs(images, outcomes, n).len() == 0,
        saved_pairs(images, outcomes, n).len() == n,
    decreases n,
{
    if n > 0 {
        lemma_saved_failed_prefix(images, outcomes, n - 1);
        assert(outcomes[n - 1] is Some);
    }
}

proof fn lemma_generic_nonempty(r: Seq<ContentItem>, pre: Seq<Seq<char>>, images: Seq<ImgDesc>)
    requires
        generic_result_ok(r, pre, images),
    ensures
        r.len() > 0,
{
    let texts = all_text_parts(pre, images);
    if images.len() == 0 && texts.len() == 0 {
    } else {
        if images.len() == 0 {
            assert(texts.len() > 0);
        }
    }
}

/// True of a document with an image attachment's shape: an object whose
/// payload and media type are strings; the file name stays optional.
pub open spec fn attachment_doc_ok(a: JsonDoc) -> bool {
    &&& a is Obj
    &&& (doc_field(a, "data"@) matches Some(f) && f is Str)
    &&& (doc_field(a, "media_type"@) matches Some(f) && f is Str)
}

/// The descriptor a well-shaped attachment document carries.
pub open spec fn attachment_doc_desc(a: JsonDoc) -> ImgDesc {
    ImgDesc {
        data: doc_field(a, "data"@)->Some_0->Str_0,
        media_type: doc_field(a, "media_type"@)->Some_0->Str_0,
        filename: opt_str_field(a, "filename"@),
    }
}

/// True of a document with the structured response's shape: an object
/// whose option list, if present, is an array of strings, whose free text,
/// if present, is null or a string, and whose image list, if present, is
/// an array of well-shaped attachments.
pub open spec fn structured_ok(d: JsonDoc) -> bool {
    &&& d is Obj
    &&& (match doc_field(d, "selected_options"@) {
        Some(f) => f is Arr && forall|i: int|
            0 <= i < f->Arr_0.len() ==> (#[trigger] f->Arr_0[i]) is Str,
        None => true,
    })
    &&& (match doc_field(d, "user_input"@) {
        Some(f) => f is Null || f is Str,
        None => true,
    })
    &&& (match doc_field(d, "images"@) {
        Some(f) => f is Arr && forall|i: int|
            0 <= i < f->Arr_0.len() ==> attachment_doc_ok(#[trigger] f->Arr_0[i]),
        None => true,
    })
}

/// The chosen options a structured document carries: empty when absent.
pub open spec fn structured_options_of(d: JsonDoc) -> Seq<Seq<char>> {
    match doc_field(d, "selected_options"@) {
        Some(f) => if f is Arr {
            Seq::new(f->Arr_0.len(), |i: int| f->Arr_0[i]->Str_0)
        } else {
            Seq::<Seq<char>>::empty()
        },
        None => Seq::<Seq<char>>::empty(),
    }
}

/// The free text a structured document carries: nothing when absent or
/// null.
pub open spec fn structured_user_of(d: JsonDoc) -> Option<Seq<char>> {
    match doc_field(d, "user_input"@) {
        Some(f) => match f {
            JsonDoc::Str(text) => Some(text),
            _ => None,
        },
        None => None,
    }
}

/// The attachment documents of a structured document: empty when absent.
pub open spec fn structured_image_docs(d: JsonDoc) -> Seq<JsonDoc> {
    match doc_field(d, "images"@) {
        Some(f) => if f is Arr {
            f->Arr_0
        } else {
            Seq::<JsonDoc>::empty()
        },
        None => Seq::<JsonDoc>::empty(),
    }
}

/// The image descriptors a well-shaped structured document carries.
pub open spec fn doc_descs(d: JsonDoc) -> Seq<ImgDesc> {
    Seq::new(
        structured_image_docs(d).len(),
        |i: int| attachment_doc_desc(structured_image_docs(d)[i]),
    )
}

/// The text parts a well-shaped structured document contributes before any
/// image handling: the joined option line, then the trimmed free text.
pub open spec fn doc_pre_texts(d: JsonDoc) -> Seq<Seq<char>> {
    (if structured_options_of(d).len() > 0 {
        seq!["选择的选项: "@ + join_spec(structured_options_of(d), ", "@)]
    } else {
        Seq::<Seq<char>>::empty()
    }) + (match structured_user_of(d) {
        Some(u) => if trim_spec(u).len() > 0 {
            seq![trim_spec(u)]
        } else {
            Seq::<Seq<char>>::empty()
        },
        None => Seq::<Seq<char>>::empty(),
    })
}

/// Reads one structured-shape image object: required payload and media
/// type, optional file name. Exactly the well-shaped attachments are read,
/// field for field.
fn decode_attachment(v: &serde_json::Value) -> (r: Option<ImageAttachment>)
    ensures
        attachment_doc_ok(doc_of(*v)) <==> r is Some,
        r matches Some(img) ==> img.data@ == attachment_doc_desc(doc_of(*v)).data
            && img.media_type@ == attachment_doc_desc(doc_of(*v)).media_type && view_opt_str(
            img.filename,
        ) == attachment_doc_desc(doc_of(*v)).filename,
{
    if !value_is_object(v) {
        return None;
    }
    let data = match value_get(v, "data") {
        Some(f) => match value_as_string(f) {
            Some(s) => s,
            None => {
                return None;
            },
        },
        None => {
            return None;
        },
    };
    let media_type = match value_get(v, "media_type") {
        Some(f) => match value_as_string(f) {
            Some(s) => s,
            None => {
                return None;
            },
        },
        None => {
            return None;
        },
    };
    let filename = match value_get(v, "filename") {
        Some(f) => value_as_string(f),
        None => None,
    };
    Some(ImageAttachment { data, media_type, filename })
}

/// Reads the structured response shape from a parsed document: exactly the
/// well-shaped documents are read, field for field; anything else sends
/// the caller on to the legacy shape or the opaque fallback.
fn decode_structured(v: &serde_json::Value) -> (r: Option<McpResponse>)
    ensures
        structured_ok(doc_of(*v)) <==> r is Some,
        r matches Some(resp) ==> resp.selected_options.deep_view() == structured_options_of(
            doc_of(*v),
        ) && view_opt_str(resp.user_input) == structured_user_of(doc_of(*v)) && attachment_descs(
            resp.images@,
        ) == doc_descs(doc_of(*v)) && structured_pre_texts(resp) == doc_pre_texts(doc_of(*v)),
{
    let ghost d = doc_of(*v);
    if !value_is_object(v) {
        return None;
    }
    let mut selected_options: Vec<String> = Vec::new();
    match value_get(v, "selected_options") {
        Some(f) => {
            let items = match value_as_array(f) {
                Some(a) => a,
                None => {
                    return None;
                },
            };
            let ghost opts_doc = doc_of(*f)->Arr_0;
            let mut i: usize = 0;
            while i < items.len()
                invariant
                    d == doc_of(*v),
                    opts_doc == doc_of(*f)->Arr_0,
                    doc_of(*f) is Arr,
                    doc_field(d, "selected_options"@) == Some(doc_of(*f)),
                    items@.len() == opts_doc.len(),
                    forall|k: int|
                        0 <= k < items@.len() ==> doc_of(#[trigger] items@[k]) == opts_doc[k],
                    i <= items@.len(),
                    forall|k: int| 0 <= k < i ==> (#[trigger] opts_doc[k]) is Str,
                    selected_options.deep_view() == Seq::new(
                        i as nat,
                        |k: int| opts_doc[k]->Str_0,
                    ),
                decreases items@.len() - i,
            {
                match value_as_string(&items[i]) {
                    Some(opt_text) => {
                        let ghost prev = selected_options.deep_view();
                        let ghost ov = opt_text@;
                        selected_options.push(opt_text);
                        proof {
                            assert(selected_options.deep_view() =~= prev.push(ov));
                            assert(selected_options.deep_view() =~= Seq::new(
                                (i + 1) as nat,
                                |k: int| opts_doc[k]->Str_0,
                            ));
                        }
                    },
                    None => {
                        proof {
                            assert(!(opts_doc[i as int] is Str));
                            assert(!structured_ok(d));
                        }
                        return None;
                    },
                }
                i = i + 1;
            }
            proof {
                assert(selected_options.deep_view() =~= structured_options_of(d));
            }
        },
        None => {
            proof {
                assert(selected_options.deep_view() =~= structured_options_of(d));
            }
        },
    }
    let user_input = match value_get(v, "user_input") {
        Some(f) => {
            if value_is_null(f) {
                None
            } else {
                match value_as_string(f) {
                    Some(s) => Some(s),
                    None => {
                        return None;
                    },
                }
            }
        },
        None => None,
    };
    let mut images: Vec<ImageAttachment> = Vec::new();
    match value_get(v, "images") {
        Some(f) => {
            let items = match value_as_array(f) {
                Some(a) => a,
                None => {
                    return None;
                },
            };
            let ghost imgs_doc = doc_of(*f)->Arr_0;
            let mut i: usize = 0;
            while i < items.len()
                invariant
                    d == doc_of(*v),
                    imgs_doc == doc_of(*f)->Arr_0,
                    doc_of(*f) is Arr,
                    doc_field(d, "images"@) == Some(doc_of(*f)),
                    items@.len() == imgs_doc.len(),
                    forall|k: int|
                        0 <= k < items@.len() ==> doc_of(#[trigger] items@[k]) == imgs_doc[k],
                    i <= items@.len(),
                    forall|k: int| 0 <= k < i ==> attachment_doc_ok(#[trigger] imgs_doc[k]),
                    images@.len() == i,
                    forall|k: int|
                        0 <= k < i ==> (#[trigger] images@[k]).data@ == attachment_doc_desc(
                            imgs_doc[k],
                        ).data && images@[k].media_type@ == attachment_doc_desc(
                            imgs_doc[k],
                        ).media_type && view_opt_str(images@[k].filename)
                            == attachment_doc_desc(imgs_doc[k]).filename,
                decreases items@.len() - i,
            {
                match decode_attachment(&items[i]) {
                    Some(img) => images.push(img),
                    None => {
                        proof {
                            assert(!attachment_doc_ok(imgs_doc[i as int]));
                            assert(!structured_ok(d));
                        }
                        return None;
                    },
                }
                i = i + 1;
            }
            proof {
                assert(attachment_descs(images@) =~= doc_descs(d));
            }
        },
        None => {
            proof {
                assert(attachment_descs(images@) =~= doc_descs(d));
            }
        },
    }
    let resp = McpResponse { selected_options, user_input, images };
    proof {
        assert(structured_ok(d));
        assert(view_opt_str(resp.user_input) == structured_user_of(d));
        assert(structured_pre_texts(resp) == doc_pre_texts(d));
    }
    Some(resp)
}

/// True of a document with a legacy source's shape: an object whose kind,
/// payload and media type are strings.
pub open spec fn legacy_source_ok(f: JsonDoc) -> bool {
    &&& f is Obj
    &&& (doc_field(f, "type"@) matches Some(g) && g is Str)
    &&& (doc_field(f, "data"@) matches Some(g) && g is Str)
    &&& (doc_field(f, "media_type"@) matches Some(g) && g is Str)
}

/// True of a document with a legacy item's shape: a typed object whose
/// text, if present, is null or a string, and whose source, if present, is
/// null or a well-shaped source.
pub open spec fn legacy_item_ok(a: JsonDoc) -> bool {
    &&& a is Obj
    &&& (doc_field(a, "type"@) matches Some(f) && f is Str)
    &&& (match doc_field(a, "text"@) {
        Some(f) => f is Null || f is Str,
        None => true,
    })
    &&& (match doc_field(a, "source"@) {
        Some(f) => f is Null || legacy_source_ok(f),
        None => true,
    })
}

/// True of a document with the legacy array's shape.
pub open spec fn legacy_ok(d: JsonDoc) -> bool {
    d is Arr && forall|i: int| 0 <= i < d->Arr_0.len() ==> legacy_item_ok(#[trigger] d->Arr_0[i])
}

/// The type name a well-shaped legacy item carries.
pub open spec fn item_type_of(a: JsonDoc) -> Seq<char> {
    doc_field(a, "type"@)->Some_0->Str_0
}

/// The text a legacy item carries: nothing when absent or null.
pub open spec fn item_text_of(a: JsonDoc) -> Option<Seq<char>> {
    match doc_field(a, "text"@) {
        Some(f) => match f {
            JsonDoc::Str(text) => Some(text),
            _ => None,
        },
        None => None,
    }
}

/// The source triple — kind, payload, media type — a well-shaped legacy
/// item carries, when its source is present and not null.
pub open spec fn item_source_of(a: JsonDoc) -> Option<(Seq<char>, Seq<char>, Seq<char>)> {
    match doc_field(a, "source"@) {
        Some(f) => if f is Obj {
            Some(
                (
                    doc_field(f, "type"@)->Some_0->Str_0,
                    doc_field(f, "data"@)->Some_0->Str_0,
                    doc_field(f, "media_type"@)->Some_0->Str_0,
                ),
            )
        } else {
            None
        },
        None => None,
    }
}

/// True when a decoded item reads its document exactly, field for field.
pub open spec fn item_matches_doc(it: McpResponseContent, a: JsonDoc) -> bool {
    &&& it.content_type@ == item_type_of(a)
    &&& view_opt_str(it.text) == item_text_of(a)
    &&& (match it.source {
        Some(src) => item_source_of(a) == Some((src.source_type@, src.data@, src.media_type@)),
        None => item_source_of(a) is None,
    })
}

/// The texts a well-shaped legacy document array contributes: every item
/// that is not an image and carries text, in order.
pub open spec fn doc_legacy_texts(items: Seq<JsonDoc>) -> Seq<Seq<char>>
    decreases items.len(),
{
    if items.len() == 0 {
        Seq::<Seq<char>>::empty()
    } else {
        doc_legacy_texts(items.drop_last()) + (if item_type_of(items.last()) == "image"@ {
            Seq::<Seq<char>>::empty()
        } else {
            match item_text_of(items.last()) {
                Some(t) => seq![t],
                None => Seq::<Seq<char>>::empty(),
            }
        })
    }
}

/// The images a well-shaped legacy document array contributes: every image
/// item whose source is present and of the base64 kind, in order.
pub open spec fn doc_legacy_descs(items: Seq<JsonDoc>) -> Seq<ImgDesc>
    decreases items.len(),
{
    if items.len() == 0 {
        Seq::<ImgDesc>::empty()
    } else {
        doc_legacy_descs(items.drop_last()) + (if item_type_of(items.last()) == "image"@
            && (item_source_of(items.last()) matches Some(src) && src.0 == "base64"@) {
            seq![
                ImgDesc {
                    data: item_source_of(items.last())->Some_0.1,
                    media_type: item_source_of(items.last())->Some_0.2,
                    filename: None,
                },
            ]
        } else {
            Seq::<ImgDesc>::empty()
        })
    }
}

/// Law-bearing bridge: items that read their documents exactly contribute
/// the same texts and images as the documents themselves.
proof fn lemma_legacy_bridge(items: Seq<McpResponseContent>, docs: Seq<JsonDoc>)
    requires
        items.len() == docs.len(),
        forall|i: int| 0 <= i < items.len() ==> item_matches_doc(#[trigger] items[i], docs[i]),
    ensures
        legacy_texts_spec(items) == doc_legacy_texts(docs),
        legacy_images_spec(items) == doc_legacy_descs(docs),
    decreases items.len(),
{
    if items.len() > 0 {
        let ip = items.drop_last();
        let dp = docs.drop_last();
        assert(forall|i: int|
            0 <= i < ip.len() ==> item_matches_doc(#[trigger] ip[i], dp[i])) by {
            assert(forall|i: int|
                0 <= i < ip.len() ==> ip[i] == items[i] && dp[i] == #[trigger] docs[i]);
        }
        lemma_legacy_bridge(ip, dp);
        let it = items.last();
        let a = docs.last();
        assert(item_matches_doc(it, a));
        assert(legacy_texts_spec(items) =~= doc_legacy_texts(docs));
        match it.source {
            Some(src) => {
                assert(legacy_images_spec(items) =~= doc_legacy_descs(docs));
            },
            None => {
                assert(legacy_images_spec(items) =~= doc_legacy_descs(docs));
            },
        }
    }
}

/// Reads one legacy item: a typed object whose text and source are
/// optional, the source holding its own kind, payload and media type.
/// Exactly the well-shaped items are read, field for field.
fn decode_legacy_item(v: &serde_json::Value) -> (r: Option<McpResponseContent>)
    ensures
        legacy_item_ok(doc_of(*v)) <==> r is Some,
        r matches Some(it) ==> item_matches_doc(it, doc_of(*v)),
{
    if !value_is_object(v) {
        return None;
    }
    let content_type = match value_get(v, "type") {
        Some(f) => match value_as_string(f) {
            Some(s) => s,
            None => {
                return None;
            },
        },
        None => {
            return None;
        },
    };
    let text = match value_get(v, "text") {
        Some(f) => {
            if value_is_null(f) {
                None
            } else {
                match value_as_string(f) {
                    Some(s) => Some(s),
                    None => {
                        return None;
                    },
                }
            }
        },
        None => None,
    };
    let source = match value_get(v, "source") {
        Some(f) => {
            if value_is_null(f) {
                None
            } else {
                if !value_is_object(f) {
                    return None;
                }
                let source_type = match value_get(f, "type") {
                    Some(g) => match value_as_string(g) {
                        Some(s) => s,
                        None => {
                            return None;
                        },
                    },
                    None => {
                        return None;
                    },
                };
                let data = match value_get(f, "data") {
                    Some(g) => match value_as_string(g) {
                        Some(s) => s,
                        None => {
                            return None;
                        },
                    },
                    None => {
                        return None;
                    },
                };
                let media_type = match value_get(f, "media_type") {
                    Some(g) => match value_as_string(g) {
                        Some(s) => s,
                        None => {
                            return None;
                        },
                    },
                    None => {
                        return None;
                    },
                };
                Some(ImageSource { source_type, data, media_type })
            }
        },
        None => None,
    };
    Some(McpResponseContent { content_type, text, source })
}

/// Reads the legacy array shape from a parsed document: exactly the
/// well-shaped arrays are read, item for item.
fn decode_legacy(v: &serde_json::Value) -> (r: Option<Vec<McpResponseContent>>)
    ensures
        legacy_ok(doc_of(*v)) <==> r is Some,
        r matches Some(items) ==> items@.len() == doc_of(*v)->Arr_0.len() && forall|i: int|
            0 <= i < items@.len() ==> item_matches_doc(
                #[trigger] items@[i],
                doc_of(*v)->Arr_0[i],
            ),
{
    let items = match value_as_array(v) {
        Some(a) => a,
        None => {
            return None;
        },
    };
    let ghost items_doc = doc_of(*v)->Arr_0;
    let mut out: Vec<McpResponseContent> = Vec::new();
    let mut i: usize = 0;
    while i < items.len()
        invariant
            items_doc == doc_of(*v)->Arr_0,
            doc_of(*v) is Arr,
            items@.len() == items_doc.len(),
            forall|k: int|
                0 <= k < items@.len() ==> doc_of(#[trigger] items@[k]) == items_doc[k],
            i <= items@.len(),
            forall|k: int| 0 <= k < i ==> legacy_item_ok(#[trigger] items_doc[k]),
            out@.len() == i,
            forall|k: int|
                0 <= k < i ==> item_matches_doc(#[trigger] out@[k], items_doc[k]),
        decreases items@.len() - i,
    {
        match decode_legacy_item(&items[i]) {
            Some(item) => out.push(item),
            None => {
                proof {
                    assert(!legacy_item_ok(items_doc[i as int]));
                    assert(!legacy_ok(doc_of(*v)));
                }
                return None;
            },
        }
        i = i + 1;
    }
    proof {
        assert(legacy_ok(doc_of(*v)));
    }
    Some(out)
}

/// Reconciles a raw reply. The cancellation check comes before any parse:
/// a blank reply, the sentinel, or the cancelled text give the single
/// cancelled item in either mode. Then the structured shape is tried, then
/// the legacy array shape — in that order, as the contract's guards state —
/// and what parses as neither is returned as one opaque text item holding
/// the raw text verbatim: an unrecognised payload is never an error. A
/// generic client always gets a finished list; for the special client a
/// reply with images becomes a save plan, which `reconcile_finish`
/// completes once the files are written.
pub fn parse_mcp_response(raw: &str, mode: ClientMode) -> (r: ReconcileOutcome)
    ensures
        is_cancelled_raw(raw@) ==> (r matches ReconcileOutcome::Done(v) && v@.len() == 1 && v@[0]
            is Text && v@[0]->Text_0@ == cancelled_text()),
        r matches ReconcileOutcome::Done(v) ==> v@.len() > 0,
        mode == ClientMode::Generic ==> r is Done,
        r matches ReconcileOutcome::SaveImages(plan) ==> mode == ClientMode::Augment
            && plan.images@.len() > 0 && (forall|i: int|
            0 <= i < plan.images@.len() ==> match (#[trigger] plan.images@[i]).bytes {
                Some(b) => base64_decoded(plan.images@[i].data@) == Some(b@),
                None => base64_decoded(plan.images@[i].data@) is None,
            }),
        !is_cancelled_raw(raw@) ==> (match parsed_json(raw@) {
            Some(d) => {
                &&& structured_ok(d) && mode == ClientMode::Generic ==> (r matches
                ReconcileOutcome::Done(v) && generic_result_ok(
                    v@,
                    doc_pre_texts(d),
                    doc_descs(d),
                ))
                &&& structured_ok(d) && mode == ClientMode::Augment && doc_descs(d).len() == 0
                    ==> (r matches ReconcileOutcome::Done(v) && generic_result_ok(
                    v@,
                    doc_pre_texts(d),
                    doc_descs(d),
                ))
                &&& structured_ok(d) && mode == ClientMode::Augment && doc_descs(d).len() > 0
                    ==> (r matches ReconcileOutcome::SaveImages(plan)
                    && plan.text_parts.deep_view() == doc_pre_texts(d) && plan.images@.len()
                    == doc_descs(d).len() && (forall|i: int|
                    0 <= i < plan.images@.len() ==> (#[trigger] plan.images@[i]).data@
                        == doc_descs(d)[i].data && plan.images@[i].media_type@ == doc_descs(
                        d,
                    )[i].media_type))
                &&& !structured_ok(d) && legacy_ok(d) && mode == ClientMode::Generic ==> (
                r matches ReconcileOutcome::Done(v) && generic_result_ok(
                    v@,
                    doc_legacy_texts(d->Arr_0),
                    doc_legacy_descs(d->Arr_0),
                ))
                &&& !structured_ok(d) && legacy_ok(d) && mode == ClientMode::Augment
                    && doc_legacy_descs(d->Arr_0).len() == 0 ==> (r matches
                ReconcileOutcome::Done(v) && generic_result_ok(
                    v@,
                    doc_legacy_texts(d->Arr_0),
                    doc_legacy_descs(d->Arr_0),
                ))
                &&& !structured_ok(d) && legacy_ok(d) && mode == ClientMode::Augment
                    && doc_legacy_descs(d->Arr_0).len() > 0 ==> (r matches
                ReconcileOutcome::SaveImages(plan) && plan.text_parts.deep_view()
                    == doc_legacy_texts(d->Arr_0) && plan.images@.len() == doc_legacy_descs(
                    d->Arr_0,
                ).len() && (forall|i: int|
                    0 <= i < plan.images@.len() ==> (#[trigger] plan.images@[i]).data@
                        == doc_legacy_descs(d->Arr_0)[i].data && plan.images@[i].media_type@
                        == doc_legacy_descs(d->Arr_0)[i].media_type))
                &&& !structured_ok(d) && !legacy_ok(d) ==> (r matches ReconcileOutcome::Done(v)
                    && v@.len() == 1 && v@[0] is Text && v@[0]->Text_0@ == raw@)
            },
            None => r matches ReconcileOutcome::Done(v) && v@.len() == 1 && v@[0] is Text
                && v@[0]->Text_0@ == raw@,
        }),
{
    let trimmed = trim_str(raw);
    if trimmed.len() == 0 || chars_eq_str(&trimmed, "CANCELLED") || chars_eq_str(
        &trimmed,
        "用户取消了操作",
    ) {
        let mut items: Vec<ContentItem> = Vec::new();
        items.push(ContentItem::Text(String::from_str("用户取消了操作")));
        return ReconcileOutcome::Done(items);
    }
    match json_parse(raw) {
        Some(doc) => {
            let ghost d = doc_of(doc);
            match decode_structured(&doc) {
                Some(resp) => {
                    proof {
                        assert(structured_ok(d));
                        assert(attachment_descs(resp.images@).len() == resp.images@.len());
                        assert(doc_descs(d).len() == resp.images@.len());
                    }
                    match mode {
                        ClientMode::Generic => {
                            let items = reconcile_structured_generic(&resp);
                            proof {
                                lemma_generic_nonempty(
                                    items@,
                                    structured_pre_texts(resp),
                                    attachment_descs(resp.images@),
                                );
                                assert(generic_result_ok(items@, doc_pre_texts(d), doc_descs(d)));
                            }
                            ReconcileOutcome::Done(items)
                        },
                        ClientMode::Augment => {
                            if resp.images.len() == 0 {
                                let items = reconcile_structured_generic(&resp);
                                proof {
                                    lemma_generic_nonempty(
                                        items@,
                                        structured_pre_texts(resp),
                                        attachment_descs(resp.images@),
                                    );
                                    assert(generic_result_ok(
                                        items@,
                                        doc_pre_texts(d),
                                        doc_descs(d),
                                    ));
                                }
                                ReconcileOutcome::Done(items)
                            } else {
                                let pre = build_structured_pre_texts(&resp);
                                let plan = build_augment_plan(pre, &resp.images);
                                proof {
                                    assert(plan.text_parts.deep_view() == doc_pre_texts(d));
                                    assert forall|i: int|
                                        0 <= i < plan.images@.len() implies (
                                    #[trigger] plan.images@[i]).data@ == doc_descs(d)[i].data
                                        && plan.images@[i].media_type@ == doc_descs(
                                        d,
                                    )[i].media_type by {
                                        assert(attachment_descs(resp.images@)[i]
                                            == doc_descs(d)[i]);
                                    }
                                }
                                ReconcileOutcome::SaveImages(plan)
                            }
                        },
                    }
                },
                None => {
                    proof {
                        assert(!structured_ok(d));
                    }
                    match decode_legacy(&doc) {
                        Some(items_in) => {
                            proof {
                                assert(legacy_ok(d));
                                lemma_legacy_bridge(items_in@, d->Arr_0);
                            }
                            match mode {
                                ClientMode::Generic => {
                                    let items = reconcile_legacy_generic(&items_in);
                                    proof {
                                        lemma_generic_nonempty(
                                            items@,
                                            legacy_texts_spec(items_in@),
                                            legacy_images_spec(items_in@),
                                        );
                                        assert(generic_result_ok(
                                            items@,
                                            doc_legacy_texts(d->Arr_0),
                                            doc_legacy_descs(d->Arr_0),
                                        ));
                                    }
                                    ReconcileOutcome::Done(items)
                                },
                                ClientMode::Augment => {
                                    let (texts, images) = gather_legacy(&items_in);
                                    proof {
                                        assert(attachment_descs(images@).len()
                                            == images@.len());
                                        assert(doc_legacy_descs(d->Arr_0).len()
                                            == images@.len());
                                    }
                                    if images.len() == 0 {
                                        let items = build_generic_items(texts, &images);
                                        proof {
                                            lemma_generic_nonempty(
                                                items@,
                                                legacy_texts_spec(items_in@),
                                                attachment_descs(images@),
                                            );
                                            assert(generic_result_ok(
                                                items@,
                                                doc_legacy_texts(d->Arr_0),
                                                doc_legacy_descs(d->Arr_0),
                                            ));
                                        }
                                        ReconcileOutcome::Done(items)
                                    } else {
                                        let plan = build_augment_plan(texts, &images);
                                        proof {
                                            assert(plan.text_parts.deep_view()
                                                == doc_legacy_texts(d->Arr_0));
                                            assert forall|i: int|
                                                0 <= i < plan.images@.len() implies (
                                            #[trigger] plan.images@[i]).data@
                                                == doc_legacy_descs(d->Arr_0)[i].data
                                                && plan.images@[i].media_type@
                                                == doc_legacy_descs(d->Arr_0)[i].media_type by {
                                                assert(attachment_descs(images@)[i]
                                                    == doc_legacy_descs(d->Arr_0)[i]);
                                            }
                                        }
                                        ReconcileOutcome::SaveImages(plan)
                                    }
                                },
                            }
                        },
                        None => {
                            proof {
                                assert(!legacy_ok(d));
                            }
                            let mut items: Vec<ContentItem> = Vec::new();
                            items.push(ContentItem::Text(String::from_str(raw)));
                            ReconcileOutcome::Done(items)
                        },
                    }
                },
            }
        },
        None => {
            let mut items: Vec<ContentItem> = Vec::new();
            items.push(ContentItem::Text(String::from_str(raw)));
            ReconcileOutcome::Done(items)
        },
    }
}

} // verus!
