//! The design-guideline tools' shared surface: request and response
//! shapes, bilingual summary texts, and the sanitizers that keep user text
//! out of paths and slugs.

use vstd::prelude::*;

use crate::strutil::{chars_to_string, dec_spec, is_space, join_spec, join_strings, str_chars,
    trim_end_char_spec, trim_start_char_spec, usize_to_string};

verus! {

/// How a tool's reply is rendered.
#[derive(Debug, Clone, Copy, PartialEq, Eq, Structural)]
pub enum UiuxOutputFormat {
    Json,
    Text,
}

/// The reply language.
#[derive(Debug, Clone, Copy, PartialEq, Eq, Structural)]
pub enum UiuxLang {
    Zh,
    En,
}

impl UiuxLang {
    /// The language's wire name.
    pub fn as_str(&self) -> (r: &'static str)
        ensures
            *self == UiuxLang::Zh ==> r@ == "zh"@,
            *self == UiuxLang::En ==> r@ == "en"@,
    {
        match self {
            UiuxLang::Zh => "zh",
            UiuxLang::En => "en",
        }
    }
}

/// What a search call is used for.
#[derive(Debug, Clone, Copy, PartialEq, Eq, Structural)]
pub enum UiuxMode {
    Search,
    Beautify,
    DesignSystem,
}

/// The arguments of a guideline search.
#[derive(Debug, Clone)]
pub struct UiuxSearchRequest {
    pub query: String,
    pub domain: Option<String>,
    pub max_results: Option<u32>,
    pub output_format: Option<UiuxOutputFormat>,
    pub lang: Option<UiuxLang>,
    pub mode: Option<UiuxMode>,
}

/// The arguments of a stack-guideline lookup.
#[derive(Debug, Clone)]
pub struct UiuxStackRequest {
    pub query: String,
    pub stack: String,
    pub max_results: Option<u32>,
    pub output_format: Option<UiuxOutputFormat>,
    pub lang: Option<UiuxLang>,
}

/// The arguments of a design-system generation.
#[derive(Debug, Clone)]
pub struct UiuxDesignSystemRequest {
    pub query: String,
    pub project_name: Option<String>,
    pub format: Option<String>,
    pub persist: Option<bool>,
    pub page: Option<String>,
    pub output_dir: Option<String>,
    pub output_format: Option<UiuxOutputFormat>,
    pub lang: Option<UiuxLang>,
    pub mode: Option<UiuxMode>,
}

/// The arguments of the suggestion check.
#[derive(Debug, Clone)]
pub struct UiuxSuggestRequest {
    pub text: String,
    pub output_format: Option<UiuxOutputFormat>,
    pub lang: Option<UiuxLang>,
}

/// What a search reports back to the summaries.
#[derive(Debug, Clone)]
pub struct SearchResult {
    pub domain: String,
    pub count: usize,
    pub stack: Option<String>,
    pub error: Option<String>,
}

/// What the suggestion check reports back.
#[derive(Debug, Clone)]
pub struct SuggestResult {
    pub should_suggest: bool,
    pub matched_keywords: Vec<String>,
}

/// The envelope every tool reply shares.
#[derive(Debug, Clone)]
pub struct UiuxResponse<T> {
    pub meta: UiuxMeta,
    pub data: T,
    pub text: String,
    pub errors: Vec<UiuxError>,
}

/// Which tool answered, in which language, under which protocol version.
#[derive(Debug, Clone)]
pub struct UiuxMeta {
    pub tool: String,
    pub lang: String,
    pub request_id: Option<String>,
    pub version: String,
}

/// One reported error: a machine code and a human message.
#[derive(Debug, Clone)]
pub struct UiuxError {
    pub code: String,
    pub message: String,
}

impl UiuxError {
    /// An error from its code and message.
    pub fn new(code: &str, message: &str) -> (r: UiuxError)
        ensures
            r.code@ == code@,
            r.message@ == message@,
    {
        UiuxError { code: String::from_str(code), message: String::from_str(message) }
    }
}

impl<T> UiuxResponse<T> {
    /// A reply envelope: the tool's name and language fill the meta block,
    /// the version is fixed, no request id is attached here, and the data,
    /// text and errors are the arguments unchanged.
    pub fn new(tool: &str, lang: UiuxLang, data: T, text: String, errors: Vec<UiuxError>) -> (r:
        UiuxResponse<T>)
        ensures
            r.meta.tool@ == tool@,
            lang == UiuxLang::Zh ==> r.meta.lang@ == "zh"@,
            lang == UiuxLang::En ==> r.meta.lang@ == "en"@,
            r.meta.request_id is None,
            r.meta.version@ == "v1"@,
            r.data == data,
            r.text@ == text@,
            r.errors@ == errors@,
    {
        let lang_name = lang.as_str();
        UiuxResponse {
            meta: UiuxMeta {
                tool: String::from_str(tool),
                lang: String::from_str(lang_name),
                request_id: None,
                version: String::from_str("v1"),
            },
            data,
            text,
            errors,
        }
    }
}

/// The text for the chosen language.
pub fn localize_text(lang: UiuxLang, zh: &str, en: &str) -> (r: String)
    ensures
        lang == UiuxLang::Zh ==> r@ == zh@,
        lang == UiuxLang::En ==> r@ == en@,
{
    match lang {
        UiuxLang::Zh => String::from_str(zh),
        UiuxLang::En => String::from_str(en),
    }
}

/// The error line for the chosen language.
pub fn error_text(lang: UiuxLang, message: &str) -> (r: String)
    ensures
        lang == UiuxLang::Zh ==> r@ == "发生错误: "@ + message@,
        lang == UiuxLang::En ==> r@ == "Error: "@ + message@,
{
    match lang {
        UiuxLang::Zh => {
            let mut s = String::from_str("发生错误: ");
            s.append(message);
            s
        },
        UiuxLang::En => {
            let mut s = String::from_str("Error: ");
            s.append(message);
            s
        },
    }
}

/// The search summary line in the chosen language.
pub open spec fn search_summary_spec(lang: UiuxLang, mode: UiuxMode, r: SearchResult) -> Seq<
    char,
> {
    match r.error {
        Some(err) => if lang == UiuxLang::Zh {
            "发生错误: "@ + err@
        } else {
            "Error: "@ + err@
        },
        None => if mode == UiuxMode::Beautify {
            if lang == UiuxLang::Zh {
                "已生成 UI 美化建议。"@
            } else {
                "UI beautify suggestions generated."@
            }
        } else {
            if lang == UiuxLang::Zh {
                "已获取检索结果，领域："@ + r.domain@ + "，共 "@ + dec_spec(r.count as nat)
                    + " 条。"@
            } else {
                "Search completed. Domain: "@ + r.domain@ + ". Results: "@ + dec_spec(
                    r.count as nat,
                ) + "."@
            }
        },
    }
}

/// The one-line summary of a search.
pub fn search_summary(lang: UiuxLang, mode: UiuxMode, result: &SearchResult) -> (r: String)
    ensures
        r@ == search_summary_spec(lang, mode, *result),
{
    match result.error.as_ref() {
        Some(err) => error_text(lang, err.as_str()),
        None => {
            if matches!(mode, UiuxMode::Beautify) {
                localize_text(lang, "已生成 UI 美化建议。", "UI beautify suggestions generated.")
            } else {
                let count = usize_to_string(result.count);
                match lang {
                    UiuxLang::Zh => {
                        let mut s = String::from_str("已获取检索结果，领域：");
                        s.append(result.domain.as_str());
                        s.append("，共 ");
                        s.append(count.as_str());
                        s.append(" 条。");
                        proof {
                            assert(s@ =~= search_summary_spec(lang, mode, *result));
                        }
                        s
                    },
                    UiuxLang::En => {
                        let mut s = String::from_str("Search completed. Domain: ");
                        s.append(result.domain.as_str());
                        s.append(". Results: ");
                        s.append(count.as_str());
                        s.append(".");
                        proof {
                            assert(s@ =~= search_summary_spec(lang, mode, *result));
                        }
                        s
                    },
                }
            }
        },
    }
}

/// The stack-guideline summary line in the chosen language.
pub open spec fn stack_summary_spec(lang: UiuxLang, r: SearchResult) -> Seq<char> {
    match r.error {
        Some(err) => if lang == UiuxLang::Zh {
            "发生错误: "@ + err@
        } else {
            "Error: "@ + err@
        },
        None => {
            let stack = match r.stack {
                Some(s) => s@,
                None => "-"@,
            };
            if lang == UiuxLang::Zh {
                "已获取栈指南："@ + stack + "，共 "@ + dec_spec(r.count as nat) + " 条。"@
            } else {
                "Stack guidelines: "@ + stack + ". Results: "@ + dec_spec(r.count as nat) + "."@
            }
        },
    }
}

/// The one-line summary of a stack-guideline lookup.
pub fn stack_summary(lang: UiuxLang, result: &SearchResult) -> (r: String)
    ensures
        r@ == stack_summary_spec(lang, *result),
{
    match result.error.as_ref() {
        Some(err) => error_text(lang, err.as_str()),
        None => {
            let stack = match result.stack.as_ref() {
                Some(s) => s.clone(),
                None => String::from_str("-"),
            };
            let count = usize_to_string(result.count);
            match lang {
                UiuxLang::Zh => {
                    let mut s = String::from_str("已获取栈指南：");
                    s.append(stack.as_str());
                    s.append("，共 ");
                    s.append(count.as_str());
                    s.append(" 条。");
                    proof {
                        assert(s@ =~= stack_summary_spec(lang, *result));
                    }
                    s
                },
                UiuxLang::En => {
                    let mut s = String::from_str("Stack guidelines: ");
                    s.append(stack.as_str());
                    s.append(". Results: ");
                    s.append(count.as_str());
                    s.append(".");
                    proof {
                        assert(s@ =~= stack_summary_spec(lang, *result));
                    }
                    s
                },
            }
        },
    }
}

/// The design-system summary line: one wording when the system was written
/// to disk, another when it was only generated.
pub fn design_system_summary(lang: UiuxLang, project_name: &str, persisted: bool) -> (r: String)
    ensures
        persisted && lang == UiuxLang::Zh ==> r@ == "已生成并写入设计系统："@ + project_name@
            + "。"@,
        persisted && lang == UiuxLang::En ==> r@ == "Design system generated and persisted: "@
            + project_name@ + "."@,
        !persisted && lang == UiuxLang::Zh ==> r@ == "已生成设计系统建议："@ + project_name@
            + "。"@,
        !persisted && lang == UiuxLang::En ==> r@ == "Design system recommendations generated: "@
            + project_name@ + "."@,
{
    if persisted {
        match lang {
            UiuxLang::Zh => {
                let mut s = String::from_str("已生成并写入设计系统：");
                s.append(project_name);
                s.append("。");
                s
            },
            UiuxLang::En => {
                let mut s = String::from_str("Design system generated and persisted: ");
                s.append(project_name);
                s.append(".");
                s
            },
        }
    } else {
        match lang {
            UiuxLang::Zh => {
                let mut s = String::from_str("已生成设计系统建议：");
                s.append(project_name);
                s.append("。");
                s
            },
            UiuxLang::En => {
                let mut s = String::from_str("Design system recommendations generated: ");
                s.append(project_name);
                s.append(".");
                s
            },
        }
    }
}

/// The beautify summary line.
pub fn beautify_summary(lang: UiuxLang) -> (r: String)
    ensures
        lang == UiuxLang::Zh ==> r@ == "已生成 UI 美化建议。"@,
        lang == UiuxLang::En ==> r@ == "UI beautify suggestions generated."@,
{
    localize_text(lang, "已生成 UI 美化建议。", "UI beautify suggestions generated.")
}

/// The suggestion summary: the matched keywords joined, or a dash when the
/// suggestion fired without naming any.
pub open spec fn suggest_summary_spec(lang: UiuxLang, r: SuggestResult) -> Seq<char> {
    if r.should_suggest {
        let keywords = if r.matched_keywords@.len() == 0 {
            "-"@
        } else {
            join_spec(r.matched_keywords.deep_view(), ", "@)
        };
        if lang == UiuxLang::Zh {
            "建议使用 UI/UX 工具，匹配关键词："@ + keywords + "。"@
        } else {
            "UI/UX tool suggested. Matched keywords: "@ + keywords + "."@
        }
    } else {
        if lang == UiuxLang::Zh {
            "暂无明显 UI/UX 需求。"@
        } else {
            "No strong UI/UX signal detected."@
        }
    }
}

/// The one-line summary of the suggestion check.
pub fn suggest_summary(lang: UiuxLang, result: &SuggestResult) -> (r: String)
    ensures
        r@ == suggest_summary_spec(lang, *result),
{
    if result.should_suggest {
        let keywords = if result.matched_keywords.len() == 0 {
            String::from_str("-")
        } else {
            join_strings(&result.matched_keywords, ", ")
        };
        match lang {
            UiuxLang::Zh => {
                let mut s = String::from_str("建议使用 UI/UX 工具，匹配关键词：");
                s.append(keywords.as_str());
                s.append("。");
                proof {
                    assert(s@ =~= suggest_summary_spec(lang, *result));
                }
                s
            },
            UiuxLang::En => {
                let mut s = String::from_str("UI/UX tool suggested. Matched keywords: ");
                s.append(keywords.as_str());
                s.append(".");
                proof {
                    assert(s@ =~= suggest_summary_spec(lang, *result));
                }
                s
            },
        }
    } else {
        localize_text(lang, "暂无明显 UI/UX 需求。", "No strong UI/UX signal detected.")
    }
}

/// True of the characters kept as they are in slugs and path segments.
pub open spec fn is_ascii_alnum(c: char) -> bool {
    ('a' <= c && c <= 'z') || ('A' <= c && c <= 'Z') || ('0' <= c && c <= '9')
}

/// The ASCII lower-case form of a character.
pub open spec fn ascii_lower_spec(c: char) -> char {
    if 'A' <= c && c <= 'Z' {
        (((c as u8) + 32) as char)
    } else {
        c
    }
}

fn ascii_lower(c: char) -> (r: char)
    ensures
        r == ascii_lower_spec(c),
{
    if 'A' <= c && c <= 'Z' {
        ((c as u8) + 32) as char
    } else {
        c
    }
}

fn char_is_ascii_alnum(c: char) -> (r: bool)
    ensures
        r == is_ascii_alnum(c),
{
    ('a' <= c && c <= 'z') || ('A' <= c && c <= 'Z') || ('0' <= c && c <= '9')
}

/// What one character contributes to a slug: kept lower-cased, a dash for
/// white space, nothing otherwise.
pub open spec fn slug_unit(c: char) -> Seq<char> {
    if is_ascii_alnum(c) || c == '-' || c == '_' {
        seq![ascii_lower_spec(c)]
    } else if is_space(c) {
        seq!['-']
    } else {
        Seq::<char>::empty()
    }
}

/// The raw slug characters of a text, before trimming.
pub open spec fn slug_chars_spec(s: Seq<char>) -> Seq<char>
    decreases s.len(),
{
    if s.len() == 0 {
        Seq::<char>::empty()
    } else {
        slug_chars_spec(s.drop_last()) + slug_unit(s.last())
    }
}

/// The slug of a text: the kept characters with dashes trimmed from both
/// ends, or `untitled` when nothing is left.
pub open spec fn slug_spec(s: Seq<char>) -> Seq<char> {
    let t = trim_start_char_spec(trim_end_char_spec(slug_chars_spec(s), '-'), '-');
    if t.len() == 0 {
        "untitled"@
    } else {
        t
    }
}

/// A URL- and file-friendly slug of a text.
pub fn sanitize_slug(input: &str) -> (r: String)
    ensures
        r@ == slug_spec(input@),
{
    let chars = str_chars(input);
    let mut out: Vec<char> = Vec::new();
    let mut i: usize = 0;
    while i < chars.len()
        invariant
            chars@ == input@,
            i <= chars@.len(),
            out@ == slug_chars_spec(input@.take(i as int)),
        decreases chars@.len() - i,
    {
        proof {
            assert(input@.take(i + 1).drop_last() =~= input@.take(i as int));
            assert(input@.take(i + 1).last() == input@[i as int]);
        }
        let c = chars[i];
        if char_is_ascii_alnum(c) || c == '-' || c == '_' {
            out.push(ascii_lower(c));
        } else if crate::strutil::char_is_space(c) {
            out.push('-');
        }
        i = i + 1;
        proof {
            assert(out@ =~= slug_chars_spec(input@.take(i as int)));
        }
    }
    proof {
        assert(input@.take(input@.len() as int) =~= input@);
    }
    let trimmed_end = crate::strutil::trim_end_char(&out, '-');
    let trimmed = crate::strutil::trim_start_char(&trimmed_end, '-');
    if trimmed.len() == 0 {
        String::from_str("untitled")
    } else {
        chars_to_string(&trimmed)
    }
}

/// What one character contributes to a path segment: kept as it is, an
/// underscore for white space, nothing otherwise.
pub open spec fn segment_unit(c: char) -> Seq<char> {
    if is_ascii_alnum(c) || c == '-' || c == '_' {
        seq![c]
    } else if is_space(c) {
        seq!['_']
    } else {
        Seq::<char>::empty()
    }
}

/// The raw path-segment characters of a text, before trimming.
pub open spec fn segment_chars_spec(s: Seq<char>) -> Seq<char>
    decreases s.len(),
{
    if s.len() == 0 {
        Seq::<char>::empty()
    } else {
        segment_chars_spec(s.drop_last()) + segment_unit(s.last())
    }
}

/// What is left once every trailing dash or underscore is removed.
pub open spec fn trim_end_dash_us(s: Seq<char>) -> Seq<char>
    decreases s.len(),
{
    if s.len() == 0 {
        s
    } else if s.last() == '-' || s.last() == '_' {
        trim_end_dash_us(s.drop_last())
    } else {
        s
    }
}

/// What is left once every leading dash or underscore is removed.
pub open spec fn trim_start_dash_us(s: Seq<char>) -> Seq<char>
    decreases s.len(),
{
    if s.len() == 0 {
        s
    } else if s[0] == '-' || s[0] == '_' {
        trim_start_dash_us(s.drop_first())
    } else {
        s
    }
}

/// The safe path segment of a text: the kept characters with dashes and
/// underscores trimmed from both ends, or `untitled` when nothing is left.
/// Separators and parent references cannot survive this.
pub open spec fn segment_spec(s: Seq<char>) -> Seq<char> {
    let t = trim_start_dash_us(trim_end_dash_us(segment_chars_spec(s)));
    if t.len() == 0 {
        "untitled"@
    } else {
        t
    }
}

proof fn lemma_trim_end_dash_us_at(s: Seq<char>, k: int)
    requires
        0 <= k <= s.len(),
        forall|i: int| k <= i < s.len() ==> s[i] == '-' || s[i] == '_',
        k == 0 || !(s[k - 1] == '-' || s[k - 1] == '_'),
    ensures
        trim_end_dash_us(s) == s.subrange(0, k),
    decreases s.len() - k,
{
    if k == s.len() {
        if s.len() == 0 {
            assert(s.subrange(0, 0) =~= s);
        } else {
            assert(s.subrange(0, s.len() as int) =~= s);
        }
    } else {
        let t = s.drop_last();
        lemma_trim_end_dash_us_at(t, k);
        assert(t.subrange(0, k) =~= s.subrange(0, k));
    }
}

proof fn lemma_trim_start_dash_us_at(s: Seq<char>, k: int)
    requires
        0 <= k <= s.len(),
        forall|i: int| 0 <= i < k ==> s[i] == '-' || s[i] == '_',
        k == s.len() || !(s[k] == '-' || s[k] == '_'),
    ensures
        trim_start_dash_us(s) == s.subrange(k, s.len() as int),
    decreases k,
{
    if k == 0 {
        assert(s.subrange(0, s.len() as int) =~= s);
    } else {
        let t = s.drop_first();
        assert(forall|i: int| 0 <= i < k - 1 ==> #[trigger] t[i] == '-' || t[i] == '_');
        lemma_trim_start_dash_us_at(t, k - 1);
        assert(t.subrange(k - 1, t.len() as int) =~= s.subrange(k, s.len() as int));
    }
}

/// A path segment safe to join into a path.
pub fn sanitize_path_segment(input: &str) -> (r: String)
    ensures
        r@ == segment_spec(input@),
{
    let chars = str_chars(input);
    let mut out: Vec<char> = Vec::new();
    let mut i: usize = 0;
    while i < chars.len()
        invariant
            chars@ == input@,
            i <= chars@.len(),
            out@ == segment_chars_spec(input@.take(i as int)),
        decreases chars@.len() - i,
    {
        proof {
            assert(input@.take(i + 1).drop_last() =~= input@.take(i as int));
            assert(input@.take(i + 1).last() == input@[i as int]);
        }
        let c = chars[i];
        if char_is_ascii_alnum(c) || c == '-' || c == '_' {
            out.push(c);
        } else if crate::strutil::char_is_space(c) {
            out.push('_');
        }
        i = i + 1;
        proof {
            assert(out@ =~= segment_chars_spec(input@.take(i as int)));
        }
    }
    proof {
        assert(input@.take(input@.len() as int) =~= input@);
    }
    let n = out.len();
    let mut end: usize = n;
    while end > 0 && (out[end - 1] == '-' || out[end - 1] == '_')
        invariant
            n == out@.len(),
            end <= n,
            forall|t: int| end <= t < n ==> out@[t] == '-' || out@[t] == '_',
        decreases end,
    {
        end = end - 1;
    }
    proof {
        lemma_trim_end_dash_us_at(out@, end as int);
    }
    let cut = crate::strutil::subvec(&out, 0, end);
    let m = cut.len();
    let mut start: usize = 0;
    while start < m && (cut[start] == '-' || cut[start] == '_')
        invariant
            m == cut@.len(),
            start <= m,
            forall|t: int| 0 <= t < start ==> cut@[t] == '-' || cut@[t] == '_',
        decreases m - start,
    {
        start = start + 1;
    }
    proof {
        lemma_trim_start_dash_us_at(cut@, start as int);
    }
    let trimmed = crate::strutil::subvec(&cut, start, m);
    if trimmed.len() == 0 {
        String::from_str("untitled")
    } else {
        chars_to_string(&trimmed)
    }
}

} // verus!
