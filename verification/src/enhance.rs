//! The prompt-enhancement flow, up to its network edge: assembling the
//! request payload, splitting the streamed reply into lines, extracting the
//! enhanced prompt from the accumulated text, and the registry of per-call
//! cancellation flags. Sending the request and reading the stream happen
//! outside the library.

use vstd::prelude::*;

use crate::history::{ChatHistoryEntry, ChatHistoryRequestNode, ChatHistoryResponseNode,
    TextNode};
use crate::jsontext::{append_json_string, json_string_spec};
use crate::jsonval::{json_parse, opt_str_field, parsed_json, value_as_string, value_get};
use crate::strutil::{chars_to_string, chars_strip_prefix, dec_spec, join_spec, matches_at,
    find_sub, starts_with_spec, str_chars, str_starts_with, subvec, trim_end_char,
    trim_end_char_spec, trim_spec, trim_str, u64_to_string};
use crate::sys::new_uuid_string;
use crate::zhi_history::ZhiHistoryEntry;

verus! {

/// How many interaction-history entries a summary may hold.
pub const MAX_ZHI_HISTORY_ENTRIES: usize = 5;

/// How many characters one summarized text may hold.
pub const MAX_ZHI_HISTORY_TEXT_LEN: usize = 200;

/// How many characters the fallback history text may hold.
pub const MAX_FALLBACK_HISTORY_TEXT_LEN: usize = 500;

/// A normalized service URL: trimmed, given an `https://` scheme when it
/// has none, and stripped of trailing slashes.
pub open spec fn normalize_base_url_spec(s: Seq<char>) -> Seq<char> {
    let t = trim_spec(s);
    let with_scheme = if starts_with_spec(t, "http://"@) || starts_with_spec(t, "https://"@) {
        t
    } else {
        "https://"@ + t
    };
    trim_end_char_spec(with_scheme, '/')
}

/// Normalizes a service URL.
pub fn normalize_base_url(input: &str) -> (r: String)
    ensures
        r@ == normalize_base_url_spec(input@),
{
    let trimmed = trim_str(input);
    let t = chars_to_string(&trimmed);
    let with_scheme: Vec<char> = if str_starts_with(t.as_str(), "http://") || str_starts_with(
        t.as_str(),
        "https://",
    ) {
        trimmed
    } else {
        let mut u = String::from_str("https://");
        u.append(t.as_str());
        str_chars(u.as_str())
    };
    let stripped = trim_end_char(&with_scheme, '/');
    chars_to_string(&stripped)
}

/// The endpoint a normalized base URL is posted to.
pub fn chat_stream_url(base_url: &str) -> (r: String)
    ensures
        r@ == base_url@ + "/chat-stream"@,
{
    let mut s = String::from_str(base_url);
    s.append("/chat-stream");
    s
}

/// A path cleaned for matching and display: trimmed, extended-length
/// prefixes removed (UNC servers keep their leading slashes), separators
/// forward, no trailing slash.
pub open spec fn clean_path_spec(s: Seq<char>) -> Seq<char> {
    let t = trim_spec(s);
    let unprefixed = if starts_with_spec(t, "\\\\?\\UNC\\"@) {
        "\\\\"@ + t.skip(8)
    } else if starts_with_spec(t, "\\\\?\\"@) {
        t.skip(4)
    } else {
        t
    };
    let forward = crate::strutil::replace_char_spec(unprefixed, '\\', '/');
    let unprefixed2 = if starts_with_spec(forward, "//?/UNC/"@) {
        "//"@ + forward.skip(8)
    } else if starts_with_spec(forward, "//?/"@) {
        forward.skip(4)
    } else {
        forward
    };
    trim_end_char_spec(unprefixed2, '/')
}

/// Cleans a path for matching and display.
pub fn clean_path_prefix_and_slashes(path: &str) -> (r: String)
    ensures
        r@ == clean_path_spec(path@),
{
    let trimmed = trim_str(path);
    proof {
        reveal_strlit("\\\\?\\UNC\\");
        reveal_strlit("\\\\?\\");
        reveal_strlit("\\\\");
        reveal_strlit("//?/UNC/");
        reveal_strlit("//?/");
        reveal_strlit("//");
    }
    let unprefixed: Vec<char> = if chars_has_prefix(&trimmed, "\\\\?\\UNC\\") {
        let tail = subvec(&trimmed, 8, trimmed.len());
        let mut v = str_chars("\\\\");
        let mut out = v;
        let mut i: usize = 0;
        while i < tail.len()
            invariant
                out@ == "\\\\"@ + tail@.subrange(0, i as int),
                i <= tail@.len(),
            decreases tail@.len() - i,
        {
            out.push(tail[i]);
            i = i + 1;
            proof {
                assert(out@ =~= "\\\\"@ + tail@.subrange(0, i as int));
            }
        }
        proof {
            assert(tail@.subrange(0, tail@.len() as int) =~= tail@);
            assert(tail@ =~= trimmed@.skip(8));
        }
        out
    } else if chars_has_prefix(&trimmed, "\\\\?\\") {
        proof {
            assert(trimmed@.subrange(4, trimmed@.len() as int) =~= trimmed@.skip(4));
        }
        subvec(&trimmed, 4, trimmed.len())
    } else {
        subvec(&trimmed, 0, trimmed.len())
    };
    proof {
        assert(trimmed@.subrange(0, trimmed@.len() as int) =~= trimmed@);
    }
    let forward = crate::strutil::replace_char(&unprefixed, '\\', '/');
    let unprefixed2: Vec<char> = if chars_has_prefix(&forward, "//?/UNC/") {
        let tail = subvec(&forward, 8, forward.len());
        let mut out = str_chars("//");
        let mut i: usize = 0;
        while i < tail.len()
            invariant
                out@ == "//"@ + tail@.subrange(0, i as int),
                i <= tail@.len(),
            decreases tail@.len() - i,
        {
            out.push(tail[i]);
            i = i + 1;
            proof {
                assert(out@ =~= "//"@ + tail@.subrange(0, i as int));
            }
        }
        proof {
            assert(tail@.subrange(0, tail@.len() as int) =~= tail@);
            assert(tail@ =~= forward@.skip(8));
        }
        out
    } else if chars_has_prefix(&forward, "//?/") {
        proof {
            assert(forward@.subrange(4, forward@.len() as int) =~= forward@.skip(4));
        }
        subvec(&forward, 4, forward.len())
    } else {
        subvec(&forward, 0, forward.len())
    };
    proof {
        assert(forward@.subrange(0, forward@.len() as int) =~= forward@);
    }
    let stripped = trim_end_char(&unprefixed2, '/');
    chars_to_string(&stripped)
}

/// True when the character vector begins with the prefix.
fn chars_has_prefix(v: &Vec<char>, prefix: &str) -> (r: bool)
    ensures
        r == starts_with_spec(v@, prefix@),
{
    let lp = prefix.unicode_len();
    if lp > v.len() {
        return false;
    }
    let mut i: usize = 0;
    while i < lp
        invariant
            lp == prefix@.len(),
            lp <= v@.len(),
            i <= lp,
            forall|j: int| 0 <= j < i ==> v@[j] == prefix@[j],
        decreases lp - i,
    {
        if v[i] != prefix.get_char(i) {
            proof {
                if starts_with_spec(v@, prefix@) {
                    assert(v@.subrange(0, lp as int)[i as int] == v@[i as int]);
                }
            }
            return false;
        }
        i = i + 1;
    }
    proof {
        assert(v@.subrange(0, lp as int) =~= prefix@);
    }
    true
}

/// A text cleaned and capped for a summary line: carriage returns and
/// newlines become spaces, the result is trimmed, and anything beyond
/// `max_len` characters is cut with an ellipsis.
pub open spec fn truncate_text_spec(s: Seq<char>, max_len: int) -> Seq<char> {
    let cleaned = trim_spec(
        crate::strutil::replace_char_spec(crate::strutil::replace_char_spec(s, '\r', ' '), '\n', ' '),
    );
    if cleaned.len() <= max_len {
        cleaned
    } else {
        cleaned.take(max_len) + "..."@
    }
}

/// Cleans and caps a text for a summary line.
pub fn truncate_text(text: &str, max_len: usize) -> (r: String)
    ensures
        r@ == truncate_text_spec(text@, max_len as int),
{
    let chars = str_chars(text);
    let no_cr = crate::strutil::replace_char(&chars, '\r', ' ');
    let no_nl = crate::strutil::replace_char(&no_cr, '\n', ' ');
    let cleaned = crate::strutil::trim_chars(&no_nl);
    if cleaned.len() <= max_len {
        chars_to_string(&cleaned)
    } else {
        let head = subvec(&cleaned, 0, max_len);
        let mut s = chars_to_string(&head);
        s.append("...");
        proof {
            assert(s@ =~= truncate_text_spec(text@, max_len as int));
        }
        s
    }
}

/// True when `i` is the first position at or after `from` where `pat`
/// occurs in `s`.
pub open spec fn first_match_at(s: Seq<char>, pat: Seq<char>, from: int, i: int) -> bool {
    from <= i && matches_at(s, pat, i) && forall|j: int| from <= j < i ==> !matches_at(s, pat, j)
}

/// The tag the enhanced prompt stands between.
pub open spec fn open_tag() -> Seq<char> {
    "<augment-enhanced-prompt>"@
}

/// The closing tag.
pub open spec fn close_tag() -> Seq<char> {
    "</augment-enhanced-prompt>"@
}

/// Extracts the enhanced prompt from the accumulated reply: the trimmed
/// text between the first opening tag and the first closing tag after it;
/// nothing when either tag is missing.
pub fn extract_enhanced_prompt(text: &str) -> (r: Option<String>)
    ensures
        match r {
            Some(t) => exists|i: int, j: int|
                #[trigger] first_match_at(text@, open_tag(), 0, i) && #[trigger] first_match_at(
                    text@,
                    close_tag(),
                    i + open_tag().len(),
                    j,
                ) && t@ == trim_spec(text@.subrange(i + open_tag().len(), j)),
            None => (forall|i: int| !matches_at(text@, open_tag(), i)) || exists|i: int|
                #[trigger] first_match_at(text@, open_tag(), 0, i) && (forall|j: int|
                    i + open_tag().len() <= j ==> !matches_at(text@, close_tag(), j)),
        },
{
    let chars = str_chars(text);
    let open = str_chars("<augment-enhanced-prompt>");
    let close = str_chars("</augment-enhanced-prompt>");
    proof {
        reveal_strlit("<augment-enhanced-prompt>");
        reveal_strlit("</augment-enhanced-prompt>");
    }
    proof {
        assert(open@.len() == open_tag().len());
    }
    let start = match find_sub(&chars, &open, 0) {
        Some(i) => i,
        None => {
            proof {
                assert(forall|i: int| i < 0 ==> !matches_at(text@, open_tag(), i));
            }
            return None;
        },
    };
    let total_len = chars.len();
    proof {
        assert(start + open@.len() <= total_len);
    }
    let content_start = start + open.len();
    let end = match find_sub(&chars, &close, content_start) {
        Some(j) => j,
        None => {
            proof {
                assert(first_match_at(text@, open_tag(), 0, start as int));
            }
            return None;
        },
    };
    let inner = subvec(&chars, content_start, end);
    let trimmed = crate::strutil::trim_chars(&inner);
    let result = chars_to_string(&trimmed);
    proof {
        assert(first_match_at(text@, open_tag(), 0, start as int));
        assert(first_match_at(
            text@,
            close_tag(),
            start + open_tag().len(),
            end as int,
        ));
    }
    Some(result)
}

/// The payload of one stream line: the line trimmed, an optional `data:`
/// prefix dropped, and the rest trimmed again.
pub open spec fn sse_payload_spec(s: Seq<char>) -> Seq<char> {
    trim_spec(crate::strutil::strip_prefix_spec(trim_spec(s), "data:"@))
}

/// Reads the text carried by one line of the event stream: the payload
/// must parse as JSON holding a string under `text`, read exactly; a blank
/// line, a line that does not parse, or a missing or non-string field
/// carries nothing.
pub fn sse_line_text(line: &str) -> (r: Option<String>)
    ensures
        trim_spec(line@).len() == 0 ==> r is None,
        trim_spec(line@).len() > 0 ==> (match parsed_json(sse_payload_spec(line@)) {
            Some(d) => match opt_str_field(d, "text"@) {
                Some(text) => r matches Some(piece) && piece@ == text,
                None => r is None,
            },
            None => r is None,
        }),
{
    let trimmed = trim_str(line);
    if trimmed.len() == 0 {
        return None;
    }
    let unprefixed = chars_strip_prefix(&trimmed, "data:");
    let payload_chars = crate::strutil::trim_chars(&unprefixed);
    let payload = chars_to_string(&payload_chars);
    proof {
        assert(payload@ == sse_payload_spec(line@));
    }
    match json_parse(payload.as_str()) {
        Some(v) => match value_get(&v, "text") {
            Some(t) => value_as_string(t),
            None => None,
        },
        None => None,
    }
}

/// The position of the first newline in `s`, or its length when it holds
/// none.
pub open spec fn first_nl(s: Seq<char>) -> nat
    decreases s.len(),
{
    if s.len() == 0 {
        0
    } else if s[0] == '\n' {
        0
    } else {
        1 + first_nl(s.drop_first())
    }
}

/// The segments of `s` between newlines: always at least one, the last
/// being the tail after the final newline.
pub open spec fn split_nl(s: Seq<char>) -> Seq<Seq<char>>
    decreases s.len(),
{
    let i = first_nl(s);
    if i >= s.len() {
        seq![s]
    } else {
        seq![s.take(i as int)] + split_nl(s.skip(i as int + 1))
    }
}

proof fn lemma_first_nl_at(s: Seq<char>, p: int)
    requires
        0 <= p <= s.len(),
        forall|i: int| 0 <= i < p ==> s[i] != '\n',
        p == s.len() || s[p] == '\n',
    ensures
        first_nl(s) == p,
    decreases p,
{
    if p == 0 {
    } else {
        let t = s.drop_first();
        assert(forall|i: int| 0 <= i < p - 1 ==> #[trigger] t[i] != '\n');
        lemma_first_nl_at(t, p - 1);
    }
}

proof fn lemma_split_nl_len(s: Seq<char>)
    ensures
        split_nl(s).len() >= 1,
    decreases s.len(),
{
    let i = first_nl(s);
    if i < s.len() {
        lemma_split_nl_len(s.skip(i as int + 1));
    }
}

/// Splits buffered stream text into its complete lines and the unfinished
/// tail. The lines are the newline-separated segments of the buffer
/// followed by the chunk, each stripped of a trailing carriage return; the
/// tail — what follows the last newline — is returned to be buffered for
/// the next chunk, so a line split across chunks is never lost.
pub fn split_sse_lines(buffer: &str, chunk: &str) -> (r: (Vec<String>, String))
    ensures
        ({
            let parts = split_nl(buffer@ + chunk@);
            &&& r.0.deep_view().len() == parts.len() - 1
            &&& (forall|i: int|
                0 <= i < parts.len() - 1 ==> r.0.deep_view()[i] == trim_end_char_spec(
                    #[trigger] parts[i],
                    '\r',
                ))
            &&& r.1@ == parts.last()
        }),
{
    let ghost total = buffer@ + chunk@;
    proof {
        lemma_split_nl_len(total);
    }
    let bchars = str_chars(buffer);
    let cchars = str_chars(chunk);
    let mut remaining: Vec<char> = bchars;
    let mut i: usize = 0;
    while i < cchars.len()
        invariant
            cchars@ == chunk@,
            i <= cchars@.len(),
            remaining@ == buffer@ + chunk@.subrange(0, i as int),
        decreases cchars@.len() - i,
    {
        remaining.push(cchars[i]);
        i = i + 1;
        proof {
            assert(remaining@ =~= buffer@ + chunk@.subrange(0, i as int));
        }
    }
    proof {
        assert(chunk@.subrange(0, chunk@.len() as int) =~= chunk@);
        assert(remaining@ == total);
    }
    let mut lines: Vec<String> = Vec::new();
    let ghost mut emitted: Seq<Seq<char>> = Seq::empty();
    loop
        invariant
            total == buffer@ + chunk@,
            lines.deep_view().len() == emitted.len(),
            forall|k: int|
                0 <= k < emitted.len() ==> lines.deep_view()[k] == trim_end_char_spec(
                    #[trigger] emitted[k],
                    '\r',
                ),
            emitted + split_nl(remaining@) == split_nl(total),
        decreases remaining@.len(),
    {
        let n = remaining.len();
        let mut p: usize = 0;
        while p < n && remaining[p] != '\n'
            invariant
                n == remaining@.len(),
                p <= n,
                forall|t: int| 0 <= t < p ==> remaining@[t] != '\n',
            decreases n - p,
        {
            p = p + 1;
        }
        proof {
            lemma_first_nl_at(remaining@, p as int);
        }
        if p >= n {
            let tail = chars_to_string(&remaining);
            proof {
                assert(split_nl(remaining@) =~= seq![remaining@]);
                let parts = split_nl(buffer@ + chunk@);
                assert(total == buffer@ + chunk@);
                assert(emitted + split_nl(remaining@) == parts);
                assert(emitted + seq![remaining@] =~= emitted + split_nl(remaining@));
                assert(emitted + seq![remaining@] =~= parts);
                assert(emitted.len() == parts.len() - 1);
                assert(forall|k: int|
                    0 <= k < parts.len() - 1 ==> emitted[k] == #[trigger] parts[k]);
                assert(remaining@ == parts.last());
                assert(lines.deep_view().len() == parts.len() - 1);
                assert(forall|k: int|
                    0 <= k < parts.len() - 1 ==> lines.deep_view()[k] == trim_end_char_spec(
                        #[trigger] parts[k],
                        '\r',
                    ));
                assert(tail@ == parts.last());
            }
            return (lines, tail);
        }
        let ghost before = remaining@;
        let line = subvec(&remaining, 0, p);
        let stripped = trim_end_char(&line, '\r');
        lines.push(chars_to_string(&stripped));
        let rest = subvec(&remaining, p + 1, n);
        remaining = rest;
        proof {
            emitted = emitted.push(before.take(p as int));
            assert(before.subrange(0, p as int) =~= before.take(p as int));
            assert(before.subrange(p + 1, n as int) =~= before.skip(p + 1));
            assert(split_nl(before) == seq![before.take(p as int)] + split_nl(before.skip(p + 1)));
            assert(lines.deep_view().len() == emitted.len());
            assert(lines.deep_view()[emitted.len() - 1] == trim_end_char_spec(
                emitted[emitted.len() - 1],
                '\r',
            ));
            assert(emitted + split_nl(remaining@) =~= split_nl(total));
        }
    }
}

/// One line of an interaction summary.
pub open spec fn summary_line_spec(e: ZhiHistoryEntry) -> Seq<char> {
    "- Q: "@ + truncate_text_spec(e.prompt@, 200) + "\n  A: "@ + truncate_text_spec(
        e.user_reply@,
        200,
    )
}

/// Whether an entry contributes a line: something of it survives the
/// cleaning.
pub open spec fn summary_line_kept(e: ZhiHistoryEntry) -> bool {
    truncate_text_spec(e.prompt@, 200).len() > 0 || truncate_text_spec(e.user_reply@, 200).len()
        > 0
}

/// The summary lines of the first `n` entries.
pub open spec fn summary_lines_spec(entries: Seq<ZhiHistoryEntry>, n: int) -> Seq<Seq<char>>
    decreases n,
{
    if n <= 0 {
        Seq::<Seq<char>>::empty()
    } else {
        summary_lines_spec(entries, n - 1) + (if summary_line_kept(entries[n - 1]) {
            seq![summary_line_spec(entries[n - 1])]
        } else {
            Seq::<Seq<char>>::empty()
        })
    }
}

/// The interaction summary handed to the enhancement request: one line per
/// recent entry that still says something after cleaning, joined by
/// newlines, with the line count.
pub fn build_zhi_history_summary(entries: &Vec<ZhiHistoryEntry>) -> (r: (String, usize))
    ensures
        ({
            let all = summary_lines_spec(entries@, entries@.len() as int);
            &&& r.1 == all.len()
            &&& (all.len() == 0 ==> r.0@.len() == 0)
            &&& (all.len() > 0 ==> r.0@ == join_spec(all, "\n"@))
        }),
{
    let mut lines: Vec<String> = Vec::new();
    let mut i: usize = 0;
    while i < entries.len()
        invariant
            i <= entries@.len(),
            lines.deep_view() == summary_lines_spec(entries@, i as int),
        decreases entries@.len() - i,
    {
        let ghost prev = lines.deep_view();
        let prompt = truncate_text(entries[i].prompt.as_str(), 200);
        let reply = truncate_text(entries[i].user_reply.as_str(), 200);
        if prompt.as_str().unicode_len() > 0 || reply.as_str().unicode_len() > 0 {
            let mut line = String::from_str("- Q: ");
            line.append(prompt.as_str());
            line.append("\n  A: ");
            line.append(reply.as_str());
            proof {
                assert(line@ =~= summary_line_spec(entries@[i as int]));
            }
            lines.push(line);
            proof {
                assert(lines.deep_view() =~= prev.push(summary_line_spec(entries@[i as int])));
            }
        }
        i = i + 1;
        proof {
            assert(lines.deep_view() =~= summary_lines_spec(entries@, i as int));
        }
    }
    if lines.len() == 0 {
        (String::new(), 0)
    } else {
        let count = lines.len();
        let joined = crate::strutil::join_strings(&lines, "\n");
        (joined, count)
    }
}

/// The fixed instruction the user's prompt is wrapped in.
pub open spec fn enhance_system_prompt_spec() -> Seq<char> {
    "⚠️ NO TOOLS ALLOWED ⚠️\n\nHere is an instruction that I'd like to give you, but it needs to be improved. Rewrite and enhance this instruction to make it clearer, more specific, less ambiguous, and correct any mistakes. Do not use any tools: reply immediately with your answer, even if you're not sure. Consider the context of our conversation history when enhancing the prompt. If there is code in triple backticks (```) consider whether it is a code sample and should remain unchanged.Reply with the following format:\n\n### BEGIN RESPONSE ###\nHere is an enhanced version of the original instruction that is more specific and clear:\n<augment-enhanced-prompt>enhanced prompt goes here</augment-enhanced-prompt>\n\n### END RESPONSE ###\n\nHere is my original instruction:\n\n"@
}

/// The full message sent for enhancement: the fixed instruction, the
/// interaction summary when one exists, then the prompt itself.
pub open spec fn full_message_spec(prompt: Seq<char>, zhi_summary: Seq<char>) -> Seq<char> {
    enhance_system_prompt_spec() + (if zhi_summary.len() > 0 {
        "\n\n[最近交互摘要]\n"@ + zhi_summary + "\n\n"@
    } else {
        Seq::<char>::empty()
    }) + prompt
}

/// Assembles the full message sent for enhancement.
pub fn build_full_message(prompt: &str, zhi_summary: &str) -> (r: String)
    ensures
        r@ == full_message_spec(prompt@, zhi_summary@),
{
    let mut s = String::from_str(
        "⚠️ NO TOOLS ALLOWED ⚠️\n\nHere is an instruction that I'd like to give you, but it needs to be improved. Rewrite and enhance this instruction to make it clearer, more specific, less ambiguous, and correct any mistakes. Do not use any tools: reply immediately with your answer, even if you're not sure. Consider the context of our conversation history when enhancing the prompt. If there is code in triple backticks (```) consider whether it is a code sample and should remain unchanged.Reply with the following format:\n\n### BEGIN RESPONSE ###\nHere is an enhanced version of the original instruction that is more specific and clear:\n<augment-enhanced-prompt>enhanced prompt goes here</augment-enhanced-prompt>\n\n### END RESPONSE ###\n\nHere is my original instruction:\n\n",
    );
    if zhi_summary.unicode_len() > 0 {
        s.append("\n\n[最近交互摘要]\n");
        s.append(zhi_summary);
        s.append("\n\n");
    }
    s.append(prompt);
    proof {
        assert(s@ =~= full_message_spec(prompt@, zhi_summary@));
    }
    s
}

/// A request node written as JSON, fields in declaration order.
pub open spec fn req_node_json_spec(n: ChatHistoryRequestNode) -> Seq<char> {
    "{\"id\":"@ + dec_spec(n.id as nat) + ",\"node_type\":"@ + dec_spec(n.node_type as nat)
        + ",\"text_node\":"@ + (match n.text_node {
        Some(t) => "{\"content\":"@ + json_string_spec(t.content@) + "}"@,
        None => "null"@,
    }) + "}"@
}

/// A response node written as JSON, fields in declaration order.
pub open spec fn resp_node_json_spec(n: ChatHistoryResponseNode) -> Seq<char> {
    "{\"id\":"@ + dec_spec(n.id as nat) + ",\"node_type\":"@ + dec_spec(n.node_type as nat)
        + ",\"content\":"@ + opt_str_json_spec(n.content) + ",\"tool_use\":"@
        + opt_str_json_spec(n.tool_use) + ",\"thinking\":"@ + opt_str_json_spec(n.thinking)
        + ",\"billing_metadata\":"@ + opt_str_json_spec(n.billing_metadata) + ",\"metadata\":"@
        + opt_str_json_spec(n.metadata) + ",\"token_usage\":"@ + opt_str_json_spec(n.token_usage)
        + "}"@
}

/// An optional string written as JSON.
pub open spec fn opt_str_json_spec(o: Option<String>) -> Seq<char> {
    match o {
        Some(s) => json_string_spec(s@),
        None => "null"@,
    }
}

/// One history exchange written as JSON, fields in declaration order, the
/// node lists as arrays.
pub open spec fn entry_json_spec(e: ChatHistoryEntry) -> Seq<char> {
    "{\"request_message\":"@ + json_string_spec(e.request_message@) + ",\"request_id\":"@
        + json_string_spec(e.request_id@) + ",\"request_nodes\":["@ + join_spec(
        Seq::new(e.request_nodes@.len(), |i: int| req_node_json_spec(e.request_nodes@[i])),
        ","@,
    ) + "],\"response_nodes\":["@ + join_spec(
        Seq::new(e.response_nodes@.len(), |i: int| resp_node_json_spec(e.response_nodes@[i])),
        ","@,
    ) + "]}"@
}

/// The `blobs` object of the payload: the added blob names, no checkpoint,
/// nothing deleted; keys in sorted order, as the service receives them.
pub open spec fn blobs_json_spec(blob_names: Seq<Seq<char>>) -> Seq<char> {
    "{\"added_blobs\":["@ + join_spec(
        Seq::new(blob_names.len(), |i: int| json_string_spec(blob_names[i])),
        ","@,
    ) + "],\"checkpoint_id\":null,\"deleted_blobs\":[]}"@
}

/// The whole enhancement request payload: keys in sorted order, the full
/// message standing both as `message` and as the one text node, the chat
/// history as an array of exchanges, a fresh conversation id, the model the
/// service is asked for, and the fixed chat-mode settings.
pub open spec fn payload_json_spec(
    full_message: Seq<char>,
    chat_history: Seq<ChatHistoryEntry>,
    blob_names: Seq<Seq<char>>,
    path: Seq<char>,
    conversation_id: Seq<char>,
    model: Seq<char>,
) -> Seq<char> {
    "{\"agent_memories\":null,\"blobs\":"@ + blobs_json_spec(blob_names) + ",\"canvas_id\":null,\"chat_history\":["@
        + join_spec(
        Seq::new(chat_history.len(), |i: int| entry_json_spec(chat_history[i])),
        ","@,
    )
        + "],\"context_code_exchange_request_id\":\"new\",\"conversation_id\":"@
        + json_string_spec(conversation_id)
        + ",\"disable_auto_external_sources\":null,\"external_source_ids\":[],\"feature_detection_flags\":{\"support_parallel_tool_use\":true,\"support_tool_use_start\":true},\"lang\":\"\",\"message\":"@
        + json_string_spec(full_message) + ",\"mode\":\"CHAT\",\"model\":"@ + json_string_spec(
        model,
    ) + ",\"nodes\":[{\"id\":1,\"text_node\":{\"content\":"@
        + json_string_spec(full_message) + "},\"type\":0}],\"path\":"@ + json_string_spec(path)
        + ",\"persona_type\":1,\"prefix\":null,\"rules\":[],\"selected_code\":null,\"silent\":true,\"suffix\":null,\"third_party_override\":null,\"tool_definitions\":[],\"user_guided_blobs\":[],\"user_guidelines\":\"\",\"workspace_guidelines\":\"\"}"@
}

fn append_opt_str_json(out: &mut String, o: Option<&String>)
    ensures
        final(out)@ == old(out)@ + opt_str_json_spec(match o {
            Some(s) => Some(*s),
            None => None,
        }),
{
    match o {
        Some(s) => {
            append_json_string(out, s.as_str());
        },
        None => {
            out.append("null");
        },
    }
}

fn render_req_node(n: &ChatHistoryRequestNode) -> (r: String)
    ensures
        r@ == req_node_json_spec(*n),
{
    let mut s = String::from_str("{\"id\":");
    let idn = u64_to_string(n.id as u64);
    s.append(idn.as_str());
    s.append(",\"node_type\":");
    let tn = u64_to_string(n.node_type as u64);
    s.append(tn.as_str());
    s.append(",\"text_node\":");
    match n.text_node.as_ref() {
        Some(t) => {
            s.append("{\"content\":");
            append_json_string(&mut s, t.content.as_str());
            s.append("}");
        },
        None => {
            s.append("null");
        },
    }
    s.append("}");
    proof {
        assert(s@ =~= req_node_json_spec(*n));
    }
    s
}

fn render_resp_node(n: &ChatHistoryResponseNode) -> (r: String)
    ensures
        r@ == resp_node_json_spec(*n),
{
    let mut s = String::from_str("{\"id\":");
    let idn = u64_to_string(n.id as u64);
    s.append(idn.as_str());
    s.append(",\"node_type\":");
    let tn = u64_to_string(n.node_type as u64);
    s.append(tn.as_str());
    s.append(",\"content\":");
    append_opt_str_json(&mut s, n.content.as_ref());
    s.append(",\"tool_use\":");
    append_opt_str_json(&mut s, n.tool_use.as_ref());
    s.append(",\"thinking\":");
    append_opt_str_json(&mut s, n.thinking.as_ref());
    s.append(",\"billing_metadata\":");
    append_opt_str_json(&mut s, n.billing_metadata.as_ref());
    s.append(",\"metadata\":");
    append_opt_str_json(&mut s, n.metadata.as_ref());
    s.append(",\"token_usage\":");
    append_opt_str_json(&mut s, n.token_usage.as_ref());
    s.append("}");
    proof {
        assert(s@ =~= resp_node_json_spec(*n));
    }
    s
}

fn render_entry_json(e: &ChatHistoryEntry) -> (r: String)
    ensures
        r@ == entry_json_spec(*e),
{
    let mut s = String::from_str("{\"request_message\":");
    append_json_string(&mut s, e.request_message.as_str());
    s.append(",\"request_id\":");
    append_json_string(&mut s, e.request_id.as_str());
    s.append(",\"request_nodes\":[");
    let mut req_rendered: Vec<String> = Vec::new();
    let mut i: usize = 0;
    while i < e.request_nodes.len()
        invariant
            i <= e.request_nodes@.len(),
            req_rendered.deep_view() == Seq::new(
                i as nat,
                |k: int| req_node_json_spec(e.request_nodes@[k]),
            ),
        decreases e.request_nodes@.len() - i,
    {
        let ghost prev = req_rendered.deep_view();
        let piece = render_req_node(&e.request_nodes[i]);
        let ghost piece_view = piece@;
        req_rendered.push(piece);
        i = i + 1;
        proof {
            assert(req_rendered.deep_view() =~= prev.push(piece_view));
            assert(req_rendered.deep_view() =~= Seq::new(
                i as nat,
                |k: int| req_node_json_spec(e.request_nodes@[k]),
            ));
        }
    }
    let req_joined = crate::strutil::join_strings(&req_rendered, ",");
    s.append(req_joined.as_str());
    s.append("],\"response_nodes\":[");
    let mut resp_rendered: Vec<String> = Vec::new();
    let mut j: usize = 0;
    while j < e.response_nodes.len()
        invariant
            j <= e.response_nodes@.len(),
            resp_rendered.deep_view() == Seq::new(
                j as nat,
                |k: int| resp_node_json_spec(e.response_nodes@[k]),
            ),
        decreases e.response_nodes@.len() - j,
    {
        let ghost prev = resp_rendered.deep_view();
        let piece = render_resp_node(&e.response_nodes[j]);
        let ghost piece_view = piece@;
        resp_rendered.push(piece);
        j = j + 1;
        proof {
            assert(resp_rendered.deep_view() =~= prev.push(piece_view));
            assert(resp_rendered.deep_view() =~= Seq::new(
                j as nat,
                |k: int| resp_node_json_spec(e.response_nodes@[k]),
            ));
        }
    }
    let resp_joined = crate::strutil::join_strings(&resp_rendered, ",");
    s.append(resp_joined.as_str());
    s.append("]}");
    proof {
        assert(req_rendered.deep_view() =~= Seq::new(
            e.request_nodes@.len(),
            |k: int| req_node_json_spec(e.request_nodes@[k]),
        ));
        assert(resp_rendered.deep_view() =~= Seq::new(
            e.response_nodes@.len(),
            |k: int| resp_node_json_spec(e.response_nodes@[k]),
        ));
        assert(s@ =~= entry_json_spec(*e));
    }
    s
}

/// Writes the enhancement request payload, exactly as `payload_json_spec`
/// lays it out.
pub fn build_request_payload(
    full_message: &str,
    chat_history: &Vec<ChatHistoryEntry>,
    blob_names: &Vec<String>,
    path: &str,
    conversation_id: &str,
    model: &str,
) -> (r: String)
    ensures
        r@ == payload_json_spec(
            full_message@,
            chat_history@,
            blob_names.deep_view(),
            path@,
            conversation_id@,
            model@,
        ),
{
    let mut s = String::from_str("{\"agent_memories\":null,\"blobs\":");
    s.append("{\"added_blobs\":[");
    let mut blob_rendered: Vec<String> = Vec::new();
    let mut i: usize = 0;
    while i < blob_names.len()
        invariant
            i <= blob_names@.len(),
            blob_rendered.deep_view() == Seq::new(
                i as nat,
                |k: int| json_string_spec(blob_names.deep_view()[k]),
            ),
        decreases blob_names@.len() - i,
    {
        let piece = crate::jsontext::json_string(blob_names[i].as_str());
        let ghost prev_dv = blob_rendered.deep_view();
        let ghost piece_view = piece@;
        blob_rendered.push(piece);
        i = i + 1;
        proof {
            assert(blob_rendered.deep_view() =~= prev_dv.push(piece_view));
            assert(blob_rendered.deep_view() =~= Seq::new(
                i as nat,
                |k: int| json_string_spec(blob_names.deep_view()[k]),
            ));
        }
    }
    let blobs_joined = crate::strutil::join_strings(&blob_rendered, ",");
    s.append(blobs_joined.as_str());
    s.append("],\"checkpoint_id\":null,\"deleted_blobs\":[]}");
    s.append(",\"canvas_id\":null,\"chat_history\":[");
    let mut entries_rendered: Vec<String> = Vec::new();
    let mut j: usize = 0;
    while j < chat_history.len()
        invariant
            j <= chat_history@.len(),
            entries_rendered.deep_view() == Seq::new(
                j as nat,
                |k: int| entry_json_spec(chat_history@[k]),
            ),
        decreases chat_history@.len() - j,
    {
        let piece = render_entry_json(&chat_history[j]);
        let ghost prev_dv = entries_rendered.deep_view();
        let ghost piece_view = piece@;
        entries_rendered.push(piece);
        j = j + 1;
        proof {
            assert(entries_rendered.deep_view() =~= prev_dv.push(piece_view));
            assert(entries_rendered.deep_view() =~= Seq::new(
                j as nat,
                |k: int| entry_json_spec(chat_history@[k]),
            ));
        }
    }
    let entries_joined = crate::strutil::join_strings(&entries_rendered, ",");
    s.append(entries_joined.as_str());
    s.append("],\"context_code_exchange_request_id\":\"new\",\"conversation_id\":");
    append_json_string(&mut s, conversation_id);
    s.append(
        ",\"disable_auto_external_sources\":null,\"external_source_ids\":[],\"feature_detection_flags\":{\"support_parallel_tool_use\":true,\"support_tool_use_start\":true},\"lang\":\"\",\"message\":",
    );
    append_json_string(&mut s, full_message);
    s.append(",\"mode\":\"CHAT\",\"model\":");
    append_json_string(&mut s, model);
    s.append(",\"nodes\":[{\"id\":1,\"text_node\":{\"content\":");
    append_json_string(&mut s, full_message);
    s.append("},\"type\":0}],\"path\":");
    append_json_string(&mut s, path);
    s.append(
        ",\"persona_type\":1,\"prefix\":null,\"rules\":[],\"selected_code\":null,\"silent\":true,\"suffix\":null,\"third_party_override\":null,\"tool_definitions\":[],\"user_guided_blobs\":[],\"user_guidelines\":\"\",\"workspace_guidelines\":\"\"}",
    );
    proof {
        assert(blob_rendered.deep_view() =~= Seq::new(
            blob_names.deep_view().len(),
            |k: int| json_string_spec(blob_names.deep_view()[k]),
        ));
        assert(entries_rendered.deep_view() =~= Seq::new(
            chat_history@.len(),
            |k: int| entry_json_spec(chat_history@[k]),
        ));
        assert(s@ =~= payload_json_spec(
            full_message@,
            chat_history@,
            blob_names.deep_view(),
            path@,
            conversation_id@,
            model@,
        ));
    }
    s
}

/// The registry of live cancellation flags, keyed by request id. The
/// process holds one behind a lock; each operation is a pure step on it.
#[derive(Debug, Clone)]
pub struct CancelRegistry {
    pub entries: Vec<(String, bool)>,
}

/// The flag stored under an id, if any: the first entry with that id.
pub open spec fn flag_lookup(entries: Seq<(String, bool)>, id: Seq<char>) -> Option<bool>
    decreases entries.len(),
{
    if entries.len() == 0 {
        None
    } else if entries[0].0@ == id {
        Some(entries[0].1)
    } else {
        flag_lookup(entries.drop_first(), id)
    }
}

/// The entries with every pair under the id removed.
pub open spec fn drop_key_spec(entries: Seq<(String, bool)>, id: Seq<char>) -> Seq<(String, bool)>
    decreases entries.len(),
{
    if entries.len() == 0 {
        Seq::<(String, bool)>::empty()
    } else {
        drop_key_spec(entries.drop_last(), id) + (if entries.last().0@ == id {
            Seq::<(String, bool)>::empty()
        } else {
            seq![entries.last()]
        })
    }
}

/// The entries with every pair under the id set to `true`.
pub open spec fn mark_key_spec(entries: Seq<(String, bool)>, id: Seq<char>) -> Seq<(String, bool)> {
    Seq::new(
        entries.len(),
        |i: int|
            if entries[i].0@ == id {
                (entries[i].0, true)
            } else {
                entries[i]
            },
    )
}

impl CancelRegistry {
    /// An empty registry.
    pub fn new() -> (r: CancelRegistry)
        ensures
            r.entries@.len() == 0,
    {
        CancelRegistry { entries: Vec::new() }
    }

    /// Registers a fresh, unset flag for a request, replacing any flag the
    /// id already had.
    pub fn register_cancel_flag(&mut self, request_id: &str)
        ensures
            final(self).entries@ == drop_key_spec(old(self).entries@, request_id@).push(
                (final(self).entries@.last().0, false),
            ),
            final(self).entries@.len() > 0,
            final(self).entries@.last().0@ == request_id@,
            final(self).entries@.last().1 == false,
    {
        let kept = Self::drop_key(&self.entries, request_id);
        let mut entries = kept;
        entries.push((String::from_str(request_id), false));
        self.entries = entries;
    }

    /// Removes a request's flag once the call is over, so no flag leaks.
    pub fn remove_cancel_flag(&mut self, request_id: &str)
        ensures
            final(self).entries@ == drop_key_spec(old(self).entries@, request_id@),
    {
        let kept = Self::drop_key(&self.entries, request_id);
        self.entries = kept;
    }

    /// Sets a request's flag where one is registered; reports whether one
    /// was.
    pub fn cancel_request(&mut self, request_id: &str) -> (r: bool)
        ensures
            r == (flag_lookup(old(self).entries@, request_id@) is Some),
            final(self).entries@ == mark_key_spec(old(self).entries@, request_id@),
    {
        let src = &self.entries;
        let n = src.len();
        let mut out: Vec<(String, bool)> = Vec::new();
        let mut found = false;
        let mut i: usize = 0;
        proof {
            assert(src@.subrange(0, n as int) =~= src@);
        }
        while i < n
            invariant
                n == src@.len(),
                i <= n,
                out@.len() == i,
                forall|k: int|
                    0 <= k < i ==> out@[k] == mark_key_spec(src@, request_id@)[k],
                found == exists|t: int| 0 <= t < i && #[trigger] src@[t].0@ == request_id@,
                flag_lookup(src@, request_id@) == flag_lookup(
                    src@.subrange(i as int, n as int),
                    request_id@,
                ) || exists|t: int| 0 <= t < i && #[trigger] src@[t].0@ == request_id@,
            decreases n - i,
        {
            proof {
                assert(src@.subrange(i as int, n as int)[0] == src@[i as int]);
                assert(src@.subrange(i as int, n as int).drop_first() =~= src@.subrange(
                    i + 1,
                    n as int,
                ));
            }
            if crate::strutil::str_eq_str(src[i].0.as_str(), request_id) {
                out.push((src[i].0.clone(), true));
                found = true;
            } else {
                out.push((src[i].0.clone(), src[i].1));
            }
            i = i + 1;
        }
        proof {
            assert(out@ =~= mark_key_spec(src@, request_id@));
            if found {
                let t = choose|t: int| 0 <= t < n && #[trigger] src@[t].0@ == request_id@;
                lemma_flag_lookup_found(src@, request_id@, t);
            } else {
                assert(src@.subrange(n as int, n as int).len() == 0);
            }
        }
        self.entries = out;
        found
    }

    /// Whether a request's flag is set: read between streamed chunks to
    /// stop a cancelled run.
    pub fn is_cancelled(&self, request_id: &str) -> (r: bool)
        ensures
            r == (flag_lookup(self.entries@, request_id@) == Some(true)),
    {
        let n = self.entries.len();
        proof {
            assert(self.entries@.subrange(0, n as int) =~= self.entries@);
        }
        let mut i: usize = 0;
        while i < n
            invariant
                n == self.entries@.len(),
                i <= n,
                flag_lookup(self.entries@, request_id@) == flag_lookup(
                    self.entries@.subrange(i as int, n as int),
                    request_id@,
                ),
            decreases n - i,
        {
            proof {
                assert(self.entries@.subrange(i as int, n as int)[0] == self.entries@[i as int]);
                assert(self.entries@.subrange(i as int, n as int).drop_first()
                    =~= self.entries@.subrange(i + 1, n as int));
            }
            if crate::strutil::str_eq_str(self.entries[i].0.as_str(), request_id) {
                return self.entries[i].1;
            }
            i = i + 1;
        }
        false
    }

    fn drop_key(entries: &Vec<(String, bool)>, id: &str) -> (r: Vec<(String, bool)>)
        ensures
            r@ == drop_key_spec(entries@, id@),
    {
        let n = entries.len();
        let mut out: Vec<(String, bool)> = Vec::new();
        let mut i: usize = 0;
        while i < n
            invariant
                n == entries@.len(),
                i <= n,
                out@ == drop_key_spec(entries@.take(i as int), id@),
            decreases n - i,
        {
            proof {
                assert(entries@.take(i + 1).drop_last() =~= entries@.take(i as int));
                assert(entries@.take(i + 1).last() == entries@[i as int]);
            }
            if !crate::strutil::str_eq_str(entries[i].0.as_str(), id) {
                out.push((entries[i].0.clone(), entries[i].1));
                proof {
                    assert((entries@[i as int].0, entries@[i as int].1) == entries@[i as int]);
                }
            }
            i = i + 1;
            proof {
                assert(out@ =~= drop_key_spec(entries@.take(i as int), id@));
            }
        }
        proof {
            assert(entries@.take(n as int) =~= entries@);
        }
        out
    }
}

proof fn lemma_flag_lookup_found(entries: Seq<(String, bool)>, id: Seq<char>, t: int)
    requires
        0 <= t < entries.len(),
        entries[t].0@ == id,
    ensures
        flag_lookup(entries, id) is Some,
    decreases entries.len(),
{
    if entries[0].0@ == id {
    } else {
        assert(t > 0);
        assert(entries.drop_first()[t - 1] == entries[t]);
        lemma_flag_lookup_found(entries.drop_first(), id, t - 1);
    }
}

/// A copy of a string list, with the same contents.
fn copy_strings(v: &Vec<String>) -> (r: Vec<String>)
    ensures
        r.deep_view() == v.deep_view(),
{
    let mut out: Vec<String> = Vec::new();
    let mut i: usize = 0;
    while i < v.len()
        invariant
            i <= v@.len(),
            out.deep_view() == v.deep_view().subrange(0, i as int),
        decreases v@.len() - i,
    {
        let ghost prev = out.deep_view();
        let piece = v[i].clone();
        let ghost piece_view = piece@;
        out.push(piece);
        i = i + 1;
        proof {
            assert(out.deep_view() =~= prev.push(piece_view));
            assert(out.deep_view() =~= v.deep_view().subrange(0, i as int));
        }
    }
    proof {
        assert(v.deep_view().subrange(0, v.deep_view().len() as int) =~= v.deep_view());
    }
    out
}

/// True when entry `i` is the first whose key equals the root exactly.
pub open spec fn direct_blob_match_at(
    entries: Seq<(String, Vec<String>)>,
    root: Seq<char>,
    i: int,
) -> bool {
    0 <= i < entries.len() && entries[i].0@ == root && forall|j: int|
        0 <= j < i ==> (#[trigger] entries[j].0@) != root
}

/// True when entry `i` is the first whose cleaned key equals the root up
/// to case.
pub open spec fn fuzzy_blob_match_at(
    entries: Seq<(String, Vec<String>)>,
    root: Seq<char>,
    i: int,
) -> bool {
    0 <= i < entries.len() && crate::strutil::lower_of(clean_path_spec(entries[i].0@))
        == crate::strutil::lower_of(root) && forall|j: int|
        0 <= j < i ==> crate::strutil::lower_of(clean_path_spec(#[trigger] entries[j].0@))
            != crate::strutil::lower_of(root)
}

/// Finds the stored blob list for a project root: the exact key first;
/// then, where the platform compares paths without case, the first key that
/// matches once cleaned and lower-cased — older files may carry
/// extended-length prefixes. The matched root comes back cleaned.
pub fn find_project_blobs(
    entries: &Vec<(String, Vec<String>)>,
    normalized_root: &str,
    case_insensitive_fallback: bool,
) -> (r: Option<(Vec<String>, String)>)
    ensures
        match r {
            Some(found) => (exists|i: int|
                #[trigger] direct_blob_match_at(entries@, normalized_root@, i)
                    && found.0.deep_view() == entries@[i].1.deep_view() && found.1@
                    == clean_path_spec(normalized_root@)) || (case_insensitive_fallback && (
            forall|i: int|
                0 <= i < entries@.len() ==> (#[trigger] entries@[i].0@) != normalized_root@)
                && exists|i: int|
                #[trigger] fuzzy_blob_match_at(entries@, normalized_root@, i)
                    && found.0.deep_view() == entries@[i].1.deep_view() && found.1@
                    == clean_path_spec(entries@[i].0@)),
            None => (forall|i: int|
                0 <= i < entries@.len() ==> (#[trigger] entries@[i].0@) != normalized_root@) && (
            case_insensitive_fallback ==> forall|i: int|
                0 <= i < entries@.len() ==> crate::strutil::lower_of(
                    clean_path_spec(#[trigger] entries@[i].0@),
                ) != crate::strutil::lower_of(normalized_root@)),
        },
{
    let n = entries.len();
    let mut i: usize = 0;
    while i < n
        invariant
            n == entries@.len(),
            i <= n,
            forall|j: int| 0 <= j < i ==> (#[trigger] entries@[j].0@) != normalized_root@,
        decreases n - i,
    {
        if crate::strutil::str_eq_str(entries[i].0.as_str(), normalized_root) {
            proof {
                assert(direct_blob_match_at(entries@, normalized_root@, i as int));
            }
            let names = copy_strings(&entries[i].1);
            let matched = clean_path_prefix_and_slashes(normalized_root);
            return Some((names, matched));
        }
        i = i + 1;
    }
    if !case_insensitive_fallback {
        return None;
    }
    let target = crate::strutil::to_lowercase(normalized_root);
    let mut k: usize = 0;
    while k < n
        invariant
            case_insensitive_fallback,
            n == entries@.len(),
            k <= n,
            target@ == crate::strutil::lower_of(normalized_root@),
            forall|j: int| 0 <= j < n ==> (#[trigger] entries@[j].0@) != normalized_root@,
            forall|j: int|
                0 <= j < k ==> crate::strutil::lower_of(
                    clean_path_spec(#[trigger] entries@[j].0@),
                ) != crate::strutil::lower_of(normalized_root@),
        decreases n - k,
    {
        let key_clean = clean_path_prefix_and_slashes(entries[k].0.as_str());
        let key_lower = crate::strutil::to_lowercase(key_clean.as_str());
        if crate::strutil::str_eq_str(key_lower.as_str(), target.as_str()) {
            let names = copy_strings(&entries[k].1);
            proof {
                assert(fuzzy_blob_match_at(entries@, normalized_root@, k as int));
                assert(names.deep_view() == entries@[k as int].1.deep_view());
                assert(key_clean@ == clean_path_spec(entries@[k as int].0@));
                assert(case_insensitive_fallback);
            }
            return Some((names, key_clean));
        }
        k = k + 1;
    }
    None
}

/// The fallback history entry made from the user's own prompt when no
/// stored history is available: the prompt, cleaned and capped, standing
/// as both the request message and its one text node, with an empty reply.
pub fn build_fallback_history_entry(prompt: &str) -> (r: Option<ChatHistoryEntry>)
    ensures
        trim_spec(prompt@).len() == 0 <==> r is None,
        r matches Some(entry) ==> entry.request_message@ == truncate_text_spec(
            trim_spec(prompt@),
            500,
        ) && starts_with_spec(entry.request_id@, "fallback_"@) && entry.request_nodes@.len() == 1
            && entry.request_nodes@[0].id == 0u32 && entry.request_nodes@[0].node_type == 0u32 && (
        entry.request_nodes@[0].text_node matches Some(t) && t.content@ == truncate_text_spec(
            trim_spec(prompt@),
            500,
        )) && entry.response_nodes@.len() == 1 && entry.response_nodes@[0].id == 1u32
            && entry.response_nodes@[0].node_type == 0u32 && (entry.response_nodes@[0].content
            matches Some(c) && c@.len() == 0),
{
    let trimmed_chars = trim_str(prompt);
    if trimmed_chars.len() == 0 {
        return None;
    }
    let trimmed = chars_to_string(&trimmed_chars);
    let capped = truncate_text(trimmed.as_str(), 500);
    let mut request_id = String::from_str("fallback_");
    let uuid = new_uuid_string();
    request_id.append(uuid.as_str());
    proof {
        assert(request_id@.subrange(0, "fallback_"@.len() as int) =~= "fallback_"@);
    }
    let mut request_nodes: Vec<ChatHistoryRequestNode> = Vec::new();
    request_nodes.push(
        ChatHistoryRequestNode {
            id: 0,
            node_type: 0,
            text_node: Some(TextNode { content: capped.clone() }),
        },
    );
    let mut response_nodes: Vec<ChatHistoryResponseNode> = Vec::new();
    response_nodes.push(
        ChatHistoryResponseNode {
            id: 1,
            node_type: 0,
            content: Some(String::new()),
            tool_use: None,
            thinking: None,
            billing_metadata: None,
            metadata: None,
            token_usage: None,
        },
    );
    Some(
        ChatHistoryEntry {
            request_message: capped,
            request_id,
            request_nodes,
            response_nodes,
        },
    )
}

} // verus!
