//! The interaction transport, up to its I/O edge: the request file's name
//! and contents, the argument list of the icon form, and what each
//! subprocess outcome means. Writing the file, spawning the process and
//! deleting the file are done by the caller around these functions.

use vstd::prelude::*;

use crate::dispatch::{ErrorKind, ToolError};
use crate::jsontext::{
    append_json_bool, append_json_opt_string, append_json_string, json_bool_spec,
    json_opt_string_spec, json_string_spec,
};
use crate::jsonval::{doc_field, doc_of, json_parse, opt_str_field, parsed_json, value_as_array,
    value_as_bool, value_as_string, value_as_u64, value_get, value_is_null, JsonDoc};
use crate::strutil::{chars_to_string, join_spec, trim_spec, trim_str};

verus! {

/// What a popup interaction asks of the user: written once to the transport
/// file, never changed afterwards.
#[derive(Debug, Clone)]
pub struct PopupRequest {
    /// The correlation id: unique per call, doubling as the transport file
    /// name key.
    pub id: String,
    pub message: String,
    pub predefined_options: Option<Vec<String>>,
    pub is_markdown: bool,
    pub project_root_path: Option<String>,
    pub uiux_intent: Option<String>,
    pub uiux_context_policy: Option<String>,
    pub uiux_reason: Option<String>,
}

/// The typed arguments of the interactive review tool.
#[derive(Debug, Clone)]
pub struct ZhiRequest {
    pub message: String,
    pub predefined_options: Vec<String>,
    pub is_markdown: bool,
    pub project_root_path: Option<String>,
    pub uiux_intent: Option<String>,
    pub uiux_context_policy: Option<String>,
    pub uiux_reason: Option<String>,
}

/// The typed arguments of the interactive icon tool, carried as process
/// arguments rather than a file.
#[derive(Debug, Clone)]
pub struct TuRequest {
    pub query: Option<String>,
    pub style: Option<String>,
    pub save_path: Option<String>,
    pub project_root: Option<String>,
}

/// What the icon popup reports back on success.
#[derive(Debug, Clone)]
pub struct IconSaveResponse {
    pub saved_count: u32,
    pub save_path: String,
    pub saved_names: Vec<String>,
    pub cancelled: bool,
}

/// The interactive review tool: prepares the popup request its call turns
/// into; running the subprocess and reconciling its reply happen around it.
pub struct InteractionTool;

impl InteractionTool {
    /// The popup request a review call turns into, carrying the dispatch
    /// layer's call id as the correlation id.
    pub fn popup_request(request: ZhiRequest, request_id: String) -> (r: PopupRequest)
        ensures
            r.id@ == request_id@,
            r.message@ == request.message@,
            request.predefined_options@.len() == 0 ==> r.predefined_options is None,
            request.predefined_options@.len() > 0 ==> (r.predefined_options matches Some(v) && v@
                == request.predefined_options@),
            r.is_markdown == request.is_markdown,
            r.project_root_path == request.project_root_path,
            r.uiux_intent == request.uiux_intent,
            r.uiux_context_policy == request.uiux_context_policy,
            r.uiux_reason == request.uiux_reason,
    {
        popup_request_of(request, request_id)
    }
}

/// The popup request a review call turns into: empty option lists become a
/// missing field, everything else is carried over with the call's id.
pub fn popup_request_of(request: ZhiRequest, request_id: String) -> (r: PopupRequest)
    ensures
        r.id@ == request_id@,
        r.message@ == request.message@,
        request.predefined_options@.len() == 0 ==> r.predefined_options is None,
        request.predefined_options@.len() > 0 ==> (r.predefined_options matches Some(v) && v@
            == request.predefined_options@),
        r.is_markdown == request.is_markdown,
        r.project_root_path == request.project_root_path,
        r.uiux_intent == request.uiux_intent,
        r.uiux_context_policy == request.uiux_context_policy,
        r.uiux_reason == request.uiux_reason,
{
    PopupRequest {
        id: request_id,
        message: request.message,
        predefined_options: if request.predefined_options.len() == 0 {
            None
        } else {
            Some(request.predefined_options)
        },
        is_markdown: request.is_markdown,
        project_root_path: request.project_root_path,
        uiux_intent: request.uiux_intent,
        uiux_context_policy: request.uiux_context_policy,
        uiux_reason: request.uiux_reason,
    }
}

/// The name of the transport file for a correlation id.
pub open spec fn temp_file_name_spec(id: Seq<char>) -> Seq<char> {
    "mcp_request_"@ + id + ".json"@
}

/// The transport file's name: derived from the correlation id alone, so that
/// concurrent calls with distinct ids use distinct files.
pub fn temp_file_name(id: &str) -> (r: String)
    ensures
        r@ == temp_file_name_spec(id@),
{
    let mut out = String::from_str("mcp_request_");
    out.append(id);
    out.append(".json");
    proof {
        assert(out@ =~= temp_file_name_spec(id@));
    }
    out
}

/// Law: distinct correlation ids give distinct transport file names, so two
/// concurrent interactive calls never write to the same temp file path.
pub proof fn lemma_temp_file_names_distinct(id1: Seq<char>, id2: Seq<char>)
    requires
        id1 != id2,
    ensures
        temp_file_name_spec(id1) != temp_file_name_spec(id2),
{
    let p = "mcp_request_"@;
    let s = ".json"@;
    let n1 = temp_file_name_spec(id1);
    let n2 = temp_file_name_spec(id2);
    if n1 == n2 {
        assert(n1.len() == p.len() + id1.len() + s.len());
        assert(n2.len() == p.len() + id2.len() + s.len());
        assert(id1.len() == id2.len());
        assert forall|i: int| 0 <= i < id1.len() implies id1[i] == id2[i] by {
            assert(n1[p.len() + i] == id1[i]);
            assert(n2[p.len() + i] == id2[i]);
        }
        assert(id1 =~= id2);
    }
}

/// The transport file's contents for a request: the pretty-printed JSON
/// object, fields in declaration order, two-space indent, options written as
/// a JSON array or `null` when absent.
pub open spec fn request_json_spec(req: PopupRequest) -> Seq<char> {
    "{\n  \"id\": "@ + json_string_spec(req.id@) + ",\n  \"message\": "@ + json_string_spec(
        req.message@,
    ) + ",\n  \"predefined_options\": "@ + options_json_spec(req.predefined_options)
        + ",\n  \"is_markdown\": "@ + json_bool_spec(req.is_markdown)
        + ",\n  \"project_root_path\": "@ + json_opt_string_spec(view_opt(req.project_root_path))
        + ",\n  \"uiux_intent\": "@ + json_opt_string_spec(view_opt(req.uiux_intent))
        + ",\n  \"uiux_context_policy\": "@ + json_opt_string_spec(
        view_opt(req.uiux_context_policy),
    ) + ",\n  \"uiux_reason\": "@ + json_opt_string_spec(view_opt(req.uiux_reason)) + "\n}"@
}

/// The view of an optional string.
pub open spec fn view_opt(o: Option<String>) -> Option<Seq<char>> {
    match o {
        Some(s) => Some(s@),
        None => None,
    }
}

/// How the option list is written: `null` when absent, `[]` when empty, one
/// indented line per entry otherwise.
pub open spec fn options_json_spec(o: Option<Vec<String>>) -> Seq<char> {
    match o {
        None => "null"@,
        Some(v) => if v@.len() == 0 {
            "[]"@
        } else {
            "[\n"@ + join_spec(
                Seq::new(v@.len(), |i: int| "    "@ + json_string_spec(v@[i]@)),
                ",\n"@,
            ) + "\n  ]"@
        },
    }
}

fn append_options_json(out: &mut String, o: Option<&Vec<String>>)
    ensures
        final(out)@ == old(out)@ + options_json_spec(match o {
            Some(v) => Some(*v),
            None => None::<Vec<String>>,
        }),
{
    match o {
        None => {
            out.append("null");
        },
        Some(v) => {
            if v.len() == 0 {
                out.append("[]");
            } else {
                let ghost lines = Seq::new(v@.len(), |i: int| "    "@ + json_string_spec(v@[i]@));
                out.append("[\n");
                let mut i: usize = 0;
                while i < v.len()
                    invariant
                        lines == Seq::new(v@.len(), |i: int| "    "@ + json_string_spec(v@[i]@)),
                        v@.len() > 0,
                        i <= v@.len(),
                        i == 0 ==> out@ == old(out)@ + "[\n"@,
                        i > 0 ==> out@ == old(out)@ + "[\n"@ + join_spec(
                            lines.subrange(0, i as int),
                            ",\n"@,
                        ),
                    decreases v@.len() - i,
                {
                    if i > 0 {
                        out.append(",\n");
                    }
                    out.append("    ");
                    append_json_string(out, v[i].as_str());
                    i = i + 1;
                    proof {
                        if i == 1 {
                            assert(lines.subrange(0, 1) =~= seq![lines[0]]);
                            assert(out@ =~= old(out)@ + "[\n"@ + join_spec(
                                lines.subrange(0, 1),
                                ",\n"@,
                            ));
                        } else {
                            assert(lines.subrange(0, i as int) =~= lines.subrange(0, i - 1).push(
                                lines[i - 1],
                            ));
                            crate::strutil::lemma_join_push(
                                lines.subrange(0, i - 1),
                                ",\n"@,
                                lines[i - 1],
                            );
                            assert(out@ =~= old(out)@ + "[\n"@ + join_spec(
                                lines.subrange(0, i as int),
                                ",\n"@,
                            ));
                        }
                    }
                }
                out.append("\n  ]");
                proof {
                    assert(lines.subrange(0, lines.len() as int) =~= lines);
                    assert(out@ =~= old(out)@ + options_json_spec(Some(*v)));
                }
            }
        },
    }
}

/// Writes the transport file's contents for a request: pretty JSON whose
/// shape is fixed by `request_json_spec`.
pub fn encode_popup_request(req: &PopupRequest) -> (r: String)
    ensures
        r@ == request_json_spec(*req),
{
    let mut out = String::from_str("{\n  \"id\": ");
    append_json_string(&mut out, req.id.as_str());
    out.append(",\n  \"message\": ");
    append_json_string(&mut out, req.message.as_str());
    out.append(",\n  \"predefined_options\": ");
    append_options_json(&mut out, req.predefined_options.as_ref());
    out.append(",\n  \"is_markdown\": ");
    append_json_bool(&mut out, req.is_markdown);
    out.append(",\n  \"project_root_path\": ");
    append_json_opt_string(&mut out, req.project_root_path.as_ref());
    out.append(",\n  \"uiux_intent\": ");
    append_json_opt_string(&mut out, req.uiux_intent.as_ref());
    out.append(",\n  \"uiux_context_policy\": ");
    append_json_opt_string(&mut out, req.uiux_context_policy.as_ref());
    out.append(",\n  \"uiux_reason\": ");
    append_json_opt_string(&mut out, req.uiux_reason.as_ref());
    out.append("\n}");
    proof {
        assert(out@ =~= request_json_spec(*req));
    }
    out
}

/// The sentinel returned in place of a response when the user closed the
/// popup without answering.
pub open spec fn cancel_text_spec() -> Seq<char> {
    "用户取消了操作"@
}

/// Reads the popup subprocess outcome. On success the response is the
/// trimmed standard output, with the cancellation sentinel substituted for
/// an empty one; a non-zero exit is a transport failure carrying the
/// process's standard error.
pub fn interpret_popup_output(success: bool, stdout: &str, stderr: &str) -> (r: Result<
    String,
    ToolError,
>)
    ensures
        success && trim_spec(stdout@).len() == 0 ==> (r matches Ok(s) && s@
            == cancel_text_spec()),
        success && trim_spec(stdout@).len() > 0 ==> (r matches Ok(s) && s@ == trim_spec(stdout@)),
        !success ==> (r matches Err(e) && e.kind == ErrorKind::TransportFailed && e.message@
            == "UI进程失败: "@ + stderr@),
{
    if success {
        let trimmed = trim_str(stdout);
        if trimmed.len() == 0 {
            Ok(String::from_str("用户取消了操作"))
        } else {
            Ok(chars_to_string(&trimmed))
        }
    } else {
        let mut msg = String::from_str("UI进程失败: ");
        msg.append(stderr);
        Err(ToolError { kind: ErrorKind::TransportFailed, message: msg })
    }
}

/// The argument list handed to the icon popup: the mode flag, then one flag
/// per request field that is present and non-empty, in a fixed order.
pub open spec fn icon_args_spec(req: TuRequest) -> Seq<Seq<char>> {
    seq!["--icon-search"@] + opt_flag_spec("--query"@, view_opt(req.query)) + opt_flag_spec(
        "--style"@,
        view_opt(req.style),
    ) + opt_flag_spec("--save-path"@, view_opt(req.save_path)) + opt_flag_spec(
        "--project-root"@,
        view_opt(req.project_root),
    )
}

/// A flag and its value, where the value is present and non-empty; nothing
/// otherwise.
pub open spec fn opt_flag_spec(flag: Seq<char>, value: Option<Seq<char>>) -> Seq<Seq<char>> {
    match value {
        Some(s) => if s.len() > 0 {
            seq![flag, s]
        } else {
            Seq::<Seq<char>>::empty()
        },
        None => Seq::<Seq<char>>::empty(),
    }
}

fn push_opt_flag(out: &mut Vec<String>, flag: &str, value: Option<&String>)
    ensures
        final(out)@.len() >= old(out)@.len(),
        final(out).deep_view() == old(out).deep_view() + opt_flag_spec(flag@, match value {
            Some(s) => Some(s@),
            None => None::<Seq<char>>,
        }),
{
    match value {
        Some(s) => {
            if s.as_str().unicode_len() > 0 {
                out.push(String::from_str(flag));
                out.push(s.clone());
                proof {
                    assert(out.deep_view() =~= old(out).deep_view() + seq![flag@, s@]);
                }
            } else {
                proof {
                    assert(out.deep_view() =~= old(out).deep_view()
                        + Seq::<Seq<char>>::empty());
                }
            }
        },
        None => {
            proof {
                assert(out.deep_view() =~= old(out).deep_view() + Seq::<Seq<char>>::empty());
            }
        },
    }
}

/// Builds the icon popup's argument list from its request.
pub fn icon_popup_args(req: &TuRequest) -> (r: Vec<String>)
    ensures
        r.deep_view() == icon_args_spec(*req),
{
    let mut out: Vec<String> = Vec::new();
    out.push(String::from_str("--icon-search"));
    proof {
        assert(out.deep_view() =~= seq!["--icon-search"@]);
    }
    push_opt_flag(&mut out, "--query", req.query.as_ref());
    push_opt_flag(&mut out, "--style", req.style.as_ref());
    push_opt_flag(&mut out, "--save-path", req.save_path.as_ref());
    push_opt_flag(&mut out, "--project-root", req.project_root.as_ref());
    proof {
        assert(out.deep_view() =~= icon_args_spec(*req));
    }
    out
}

/// True of a document with the save report's shape: a count that fits an
/// unsigned 32-bit integer, a path, a cancellation flag, and the saved
/// names as an array of strings.
pub open spec fn icon_save_ok(d: JsonDoc) -> bool {
    &&& (match doc_field(d, "saved_count"@) {
        Some(f) => f is Num && (f->Num_0 matches Some(n) && n <= 0xFFFF_FFFF),
        None => false,
    })
    &&& (doc_field(d, "save_path"@) matches Some(f) && f is Str)
    &&& (doc_field(d, "cancelled"@) matches Some(f) && f is Bool)
    &&& (match doc_field(d, "saved_names"@) {
        Some(f) => f is Arr && forall|i: int|
            0 <= i < f->Arr_0.len() ==> (#[trigger] f->Arr_0[i]) is Str,
        None => false,
    })
}

/// The count a well-shaped save report carries.
pub open spec fn icon_count_of(d: JsonDoc) -> u64 {
    doc_field(d, "saved_count"@)->Some_0->Num_0->Some_0
}

/// The path a well-shaped save report carries.
pub open spec fn icon_path_of(d: JsonDoc) -> Seq<char> {
    doc_field(d, "save_path"@)->Some_0->Str_0
}

/// The flag a well-shaped save report carries.
pub open spec fn icon_cancelled_of(d: JsonDoc) -> bool {
    doc_field(d, "cancelled"@)->Some_0->Bool_0
}

/// The names a well-shaped save report carries.
pub open spec fn icon_names_of(d: JsonDoc) -> Seq<Seq<char>> {
    Seq::new(
        doc_field(d, "saved_names"@)->Some_0->Arr_0.len(),
        |i: int| doc_field(d, "saved_names"@)->Some_0->Arr_0[i]->Str_0,
    )
}

/// The well-shaped save report a text parses to, if any.
pub open spec fn icon_report_of(s: Seq<char>) -> Option<JsonDoc> {
    match parsed_json(s) {
        Some(d) => if icon_save_ok(d) {
            Some(d)
        } else {
            None
        },
        None => None,
    }
}

/// Decodes the icon popup's JSON reply: exactly the well-shaped reports
/// are read, field for field. All four fields are required; a count that
/// does not fit is rejected like any other malformed reply.
fn decode_icon_save(raw: &str) -> (r: Option<IconSaveResponse>)
    ensures
        match icon_report_of(raw@) {
            Some(d) => r matches Some(resp) && resp.saved_count == icon_count_of(d)
                && resp.save_path@ == icon_path_of(d) && resp.saved_names.deep_view()
                == icon_names_of(d) && resp.cancelled == icon_cancelled_of(d),
            None => r is None,
        },
{
    let v = match json_parse(raw) {
        Some(v) => v,
        None => {
            return None;
        },
    };
    let ghost d = doc_of(v);
    let saved_count_u64 = match value_get(&v, "saved_count") {
        Some(f) => match value_as_u64(f) {
            Some(n) => n,
            None => {
                return None;
            },
        },
        None => {
            return None;
        },
    };
    if saved_count_u64 > 0xFFFF_FFFF {
        return None;
    }
    let save_path = match value_get(&v, "save_path") {
        Some(f) => match value_as_string(f) {
            Some(s) => s,
            None => {
                return None;
            },
        },
        None => {
            return None;
        },
    };
    let cancelled = match value_get(&v, "cancelled") {
        Some(f) => match value_as_bool(f) {
            Some(b) => b,
            None => {
                return None;
            },
        },
        None => {
            return None;
        },
    };
    let mut saved_names: Vec<String> = Vec::new();
    match value_get(&v, "saved_names") {
        Some(f) => {
            let items = match value_as_array(f) {
                Some(a) => a,
                None => {
                    return None;
                },
            };
            let ghost names_doc = doc_of(*f)->Arr_0;
            proof {
                assert(icon_save_ok(d) <==> (forall|k: int|
                    0 <= k < names_doc.len() ==> (#[trigger] names_doc[k]) is Str));
            }
            let mut i: usize = 0;
            while i < items.len()
                invariant
                    parsed_json(raw@) == Some(d),
                    names_doc == doc_of(*f)->Arr_0,
                    doc_of(*f) is Arr,
                    icon_save_ok(d) <==> (forall|k: int|
                        0 <= k < names_doc.len() ==> (#[trigger] names_doc[k]) is Str),
                    items@.len() == names_doc.len(),
                    forall|k: int|
                        0 <= k < items@.len() ==> doc_of(#[trigger] items@[k]) == names_doc[k],
                    i <= items@.len(),
                    forall|k: int| 0 <= k < i ==> (#[trigger] names_doc[k]) is Str,
                    saved_names.deep_view() == Seq::new(
                        i as nat,
                        |k: int| names_doc[k]->Str_0,
                    ),
                decreases items@.len() - i,
            {
                match value_as_string(&items[i]) {
                    Some(name) => {
                        let ghost prev = saved_names.deep_view();
                        let ghost nv = name@;
                        saved_names.push(name);
                        proof {
                            assert(saved_names.deep_view() =~= prev.push(nv));
                            assert(saved_names.deep_view() =~= Seq::new(
                                (i + 1) as nat,
                                |k: int| names_doc[k]->Str_0,
                            ));
                        }
                    },
                    None => {
                        proof {
                            assert(!(names_doc[i as int] is Str));
                            assert(!icon_save_ok(d));
                        }
                        return None;
                    },
                }
                i = i + 1;
            }
            proof {
                assert(icon_save_ok(d));
                assert(saved_names.deep_view() =~= icon_names_of(d));
            }
        },
        None => {
            return None;
        },
    }
    Some(
        IconSaveResponse {
            saved_count: saved_count_u64 as u32,
            save_path,
            saved_names,
            cancelled,
        },
    )
}

/// Reads the icon popup subprocess outcome. On success, an empty standard
/// output is the user cancelling — a successful outcome, never an error; a
/// non-empty one must be the JSON save report. A non-zero exit is a
/// transport failure carrying the process's standard error.
pub fn interpret_icon_output(success: bool, stdout: &str, stderr: &str) -> (r: Result<
    IconSaveResponse,
    ToolError,
>)
    ensures
        success && trim_spec(stdout@).len() == 0 ==> (r matches Ok(resp) && resp.cancelled
            && resp.saved_count == 0 && resp.save_path@.len() == 0 && resp.saved_names@.len()
            == 0),
        !success ==> (r matches Err(e) && e.kind == ErrorKind::TransportFailed && e.message@
            == "图标选择进程失败: "@ + stderr@),
        success && trim_spec(stdout@).len() > 0 ==> (match icon_report_of(trim_spec(stdout@)) {
            Some(d) => r matches Ok(resp) && resp.saved_count == icon_count_of(d)
                && resp.save_path@ == icon_path_of(d) && resp.saved_names.deep_view()
                == icon_names_of(d) && resp.cancelled == icon_cancelled_of(d),
            None => r matches Err(e) && e.kind == ErrorKind::Internal && e.message@
                == "解析图标保存响应失败"@,
        }),
{
    if success {
        let trimmed = trim_str(stdout);
        if trimmed.len() == 0 {
            Ok(
                IconSaveResponse {
                    saved_count: 0,
                    save_path: String::new(),
                    saved_names: Vec::new(),
                    cancelled: true,
                },
            )
        } else {
            let text = chars_to_string(&trimmed);
            match decode_icon_save(text.as_str()) {
                Some(resp) => Ok(resp),
                None => Err(
                    ToolError {
                        kind: ErrorKind::Internal,
                        message: String::from_str("解析图标保存响应失败"),
                    },
                ),
            }
        }
    } else {
        let mut msg = String::from_str("图标选择进程失败: ");
        msg.append(stderr);
        Err(ToolError { kind: ErrorKind::TransportFailed, message: msg })
    }
}

/// True when the review tool's option list is acceptable: absent, null, or
/// an array of strings.
pub open spec fn zhi_options_ok(d: JsonDoc) -> bool {
    match doc_field(d, "predefined_options"@) {
        Some(f) => f is Null || (f is Arr && forall|i: int|
            0 <= i < f->Arr_0.len() ==> (#[trigger] f->Arr_0[i]) is Str),
        None => true,
    }
}

/// The option list the review tool reads: the strings of the array, and
/// nothing when the field is absent or null.
pub open spec fn zhi_options_of(d: JsonDoc) -> Seq<Seq<char>> {
    match doc_field(d, "predefined_options"@) {
        Some(f) => if f is Arr {
            Seq::new(f->Arr_0.len(), |i: int| f->Arr_0[i]->Str_0)
        } else {
            Seq::<Seq<char>>::empty()
        },
        None => Seq::<Seq<char>>::empty(),
    }
}

/// The markdown flag the review tool reads: the stored boolean, `true` for
/// anything else.
pub open spec fn zhi_markdown_of(d: JsonDoc) -> bool {
    match doc_field(d, "is_markdown"@) {
        Some(f) => match f {
            JsonDoc::Bool(b) => b,
            _ => true,
        },
        None => true,
    }
}

/// True of arguments the review tool accepts: a string message and an
/// acceptable option list.
pub open spec fn zhi_request_ok(d: JsonDoc) -> bool {
    (opt_str_field(d, "message"@) is Some) && zhi_options_ok(d)
}

/// Decodes the typed arguments of the review tool from a JSON object:
/// exactly the documents with a string message and an acceptable option
/// list are accepted, field for field; each rejection names its reason.
pub fn decode_zhi_request(v: &serde_json::Value) -> (r: Result<ZhiRequest, ToolError>)
    ensures
        zhi_request_ok(doc_of(*v)) <==> r is Ok,
        r matches Ok(req) ==> req.message@ == opt_str_field(doc_of(*v), "message"@)->Some_0
            && req.predefined_options.deep_view() == zhi_options_of(doc_of(*v))
            && req.is_markdown == zhi_markdown_of(doc_of(*v)) && view_opt(req.project_root_path)
            == opt_str_field(doc_of(*v), "project_root_path"@) && view_opt(req.uiux_intent)
            == opt_str_field(doc_of(*v), "uiux_intent"@) && view_opt(req.uiux_context_policy)
            == opt_str_field(doc_of(*v), "uiux_context_policy"@) && view_opt(req.uiux_reason)
            == opt_str_field(doc_of(*v), "uiux_reason"@),
        r matches Err(e) ==> e.kind == ErrorKind::InvalidParams,
        doc_field(doc_of(*v), "message"@) is None ==> (r matches Err(e) && e.message@
            == "参数解析失败: 缺少 message 字段"@),
        (doc_field(doc_of(*v), "message"@) matches Some(f) && !(f is Str)) ==> (r matches Err(e)
            && e.message@ == "参数解析失败: message 字段必须是字符串"@),
        opt_str_field(doc_of(*v), "message"@) is Some && !zhi_options_ok(doc_of(*v)) ==> (
        r matches Err(e) && e.message@
            == "参数解析失败: predefined_options 字段必须是字符串数组"@),
{

    let message = match value_get(v, "message") {
        Some(f) => match value_as_string(f) {
            Some(s) => s,
            None => {
                return Err(
                    ToolError {
                        kind: ErrorKind::InvalidParams,
                        message: String::from_str("参数解析失败: message 字段必须是字符串"),
                    },
                );
            },
        },
        None => {
            return Err(
                ToolError {
                    kind: ErrorKind::InvalidParams,
                    message: String::from_str("参数解析失败: 缺少 message 字段"),
                },
            );
        },
    };
    let mut predefined_options: Vec<String> = Vec::new();
    match value_get(v, "predefined_options") {
        Some(f) => {
            if !value_is_null(f) {
                let items = match value_as_array(f) {
                    Some(a) => a,
                    None => {
                        return Err(
                            ToolError {
                                kind: ErrorKind::InvalidParams,
                                message: String::from_str(
                                    "参数解析失败: predefined_options 字段必须是字符串数组",
                                ),
                            },
                        );
                    },
                };
                let ghost opts_doc = doc_of(*f)->Arr_0;
                proof {
                    assert(zhi_options_ok(doc_of(*v)) <==> (forall|k: int|
                        0 <= k < opts_doc.len() ==> (#[trigger] opts_doc[k]) is Str));
                }
                let mut i: usize = 0;
                while i < items.len()
                    invariant
                        opt_str_field(doc_of(*v), "message"@) is Some,
                        opts_doc == doc_of(*f)->Arr_0,
                        doc_of(*f) is Arr,
                        zhi_options_ok(doc_of(*v)) <==> (forall|k: int|
                            0 <= k < opts_doc.len() ==> (#[trigger] opts_doc[k]) is Str),
                        doc_field(doc_of(*v), "predefined_options"@) == Some(doc_of(*f)),
                        items@.len() == opts_doc.len(),
                        forall|k: int|
                            0 <= k < items@.len() ==> doc_of(#[trigger] items@[k]) == opts_doc[k],
                        i <= items@.len(),
                        forall|k: int| 0 <= k < i ==> (#[trigger] opts_doc[k]) is Str,
                        predefined_options.deep_view() == Seq::new(
                            i as nat,
                            |k: int| opts_doc[k]->Str_0,
                        ),
                    decreases items@.len() - i,
                {
                    match value_as_string(&items[i]) {
                        Some(opt_text) => {
                            let ghost prev = predefined_options.deep_view();
                            let ghost ov = opt_text@;
                            predefined_options.push(opt_text);
                            proof {
                                assert(predefined_options.deep_view() =~= prev.push(ov));
                                assert(predefined_options.deep_view() =~= Seq::new(
                                    (i + 1) as nat,
                                    |k: int| opts_doc[k]->Str_0,
                                ));
                            }
                        },
                        None => {
                            proof {
                                assert(!(opts_doc[i as int] is Str));
                                assert(!zhi_options_ok(doc_of(*v)));
                            }
                            return Err(
                                ToolError {
                                    kind: ErrorKind::InvalidParams,
                                    message: String::from_str(
                                        "参数解析失败: predefined_options 字段必须是字符串数组",
                                    ),
                                },
                            );
                        },
                    }
                    i = i + 1;
                }
                proof {
                    assert(predefined_options.deep_view() =~= zhi_options_of(doc_of(*v)));
                }
            } else {
                proof {
                    assert(predefined_options.deep_view() =~= zhi_options_of(doc_of(*v)));
                }
            }
        },
        None => {
            proof {
                assert(predefined_options.deep_view() =~= zhi_options_of(doc_of(*v)));
            }
        },
    }
    let is_markdown = match value_get(v, "is_markdown") {
        Some(f) => match value_as_bool(f) {
            Some(b) => b,
            None => true,
        },
        None => true,
    };
    Ok(
        ZhiRequest {
            message,
            predefined_options,
            is_markdown,
            project_root_path: decode_opt_string_field(v, "project_root_path"),
            uiux_intent: decode_opt_string_field(v, "uiux_intent"),
            uiux_context_policy: decode_opt_string_field(v, "uiux_context_policy"),
            uiux_reason: decode_opt_string_field(v, "uiux_reason"),
        },
    )
}

/// An optional string field: the text where the field is present and a
/// string, nothing otherwise.
fn decode_opt_string_field(v: &serde_json::Value, key: &str) -> (r: Option<String>)
    ensures
        view_opt(r) == opt_str_field(doc_of(*v), key@),
{
    match value_get(v, key) {
        Some(f) => value_as_string(f),
        None => None,
    }
}

/// Decodes the typed arguments of the icon tool: the four optional string
/// fields of the document, each read exactly.
pub fn decode_tu_request(v: &serde_json::Value) -> (r: TuRequest)
    ensures
        view_opt(r.query) == opt_str_field(doc_of(*v), "query"@),
        view_opt(r.style) == opt_str_field(doc_of(*v), "style"@),
        view_opt(r.save_path) == opt_str_field(doc_of(*v), "save_path"@),
        view_opt(r.project_root) == opt_str_field(doc_of(*v), "project_root"@),
{
    TuRequest {
        query: decode_opt_string_field(v, "query"),
        style: decode_opt_string_field(v, "style"),
        save_path: decode_opt_string_field(v, "save_path"),
        project_root: decode_opt_string_field(v, "project_root"),
    }
}

} // verus!
