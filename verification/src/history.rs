//! Conversation history for the prompt-enhancement flow: per-project files
//! named by a short hash of the normalized project path, with older hash
//! rules kept readable. The file contents are handed in and out as plain
//! data; reading and writing the files happens outside the library.

use vstd::prelude::*;

use crate::digest::{hex_lower_spec, hex_encode, ring_sha256, ring_sha256_of, take_bytes};
use crate::strutil::{chars_strip_prefix, chars_to_string, dec_spec, dec_i64_spec, i64_to_string,
    lemma_lex_total, lemma_lex_trans, lex_le, lower_of, replace_char, replace_char_spec,
    str_chars, str_eq_str, str_lex_le, strip_prefix_spec, to_lowercase, trim_end_char,
    trim_end_char_spec, trim_spec, trim_str, u64_to_string};
use crate::sys::home_dir_string;

verus! {

/// One remembered exchange: what the user asked and a summary of the reply.
#[derive(Debug, Clone)]
pub struct ChatEntry {
    pub id: String,
    pub user_input: String,
    pub ai_response_summary: String,
    pub timestamp_millis: i64,
    pub source: String,
}

/// The contents of one history file.
#[derive(Debug, Clone)]
pub struct ChatHistoryData {
    pub project_path: String,
    pub entries: Vec<ChatEntry>,
    pub last_updated_millis: Option<i64>,
}

/// A text node of the upstream chat API shape.
#[derive(Debug, Clone)]
pub struct TextNode {
    pub content: String,
}

/// A request node of the upstream chat API shape.
#[derive(Debug, Clone)]
pub struct ChatHistoryRequestNode {
    pub id: u32,
    pub node_type: u32,
    pub text_node: Option<TextNode>,
}

/// A response node of the upstream chat API shape.
#[derive(Debug, Clone)]
pub struct ChatHistoryResponseNode {
    pub id: u32,
    pub node_type: u32,
    pub content: Option<String>,
    pub tool_use: Option<String>,
    pub thinking: Option<String>,
    pub billing_metadata: Option<String>,
    pub metadata: Option<String>,
    pub token_usage: Option<String>,
}

/// One exchange in the upstream chat API shape.
#[derive(Debug, Clone)]
pub struct ChatHistoryEntry {
    pub request_message: String,
    pub request_id: String,
    pub request_nodes: Vec<ChatHistoryRequestNode>,
    pub response_nodes: Vec<ChatHistoryResponseNode>,
}

/// The older path rule: trimmed, lower-cased, backslashes forward.
pub open spec fn normalize_v1_spec(s: Seq<char>) -> Seq<char> {
    replace_char_spec(lower_of(trim_spec(s)), '\\', '/')
}

/// The current path rule: the older rule with extended-length prefixes and
/// trailing slashes removed first, so one project gets one hash.
pub open spec fn normalize_v2_spec(s: Seq<char>) -> Seq<char> {
    lower_of(
        trim_end_char_spec(
            strip_prefix_spec(
                replace_char_spec(
                    strip_prefix_spec(strip_prefix_spec(trim_spec(s), "\\\\?\\"@), "//?/"@),
                    '\\',
                    '/',
                ),
                "//?/"@,
            ),
            '/',
        ),
    )
}

/// The short project hash: the first eight bytes of the SHA-256 digest, in
/// lower-case hexadecimal.
pub open spec fn short_hash_spec(s: Seq<char>) -> Seq<char> {
    hex_lower_spec(ring_sha256_of(s).take(8))
}

/// The hash of a path under the current rule.
pub open spec fn hash_v2_spec(s: Seq<char>) -> Seq<char> {
    short_hash_spec(normalize_v2_spec(s))
}

/// The hash candidates older files may be stored under, before duplicates
/// and the current hash are removed: the older rule as it was, the older
/// rule without trailing slashes, and — where the normalized path is not
/// empty — the extended-length prefixed form with and without a trailing
/// slash.
pub open spec fn legacy_candidates_spec(s: Seq<char>) -> Seq<Seq<char>> {
    seq![
        short_hash_spec(normalize_v1_spec(s)),
        short_hash_spec(trim_end_char_spec(normalize_v1_spec(s), '/')),
    ] + (if normalize_v2_spec(s).len() > 0 {
        seq![
            short_hash_spec(prefixed_v2_spec(s)),
            short_hash_spec(prefixed_v2_spec(s).push('/')),
        ]
    } else {
        Seq::<Seq<char>>::empty()
    })
}

/// The extended-length form a normalized path once took: UNC paths keep
/// their server part behind `//?/unc/`, drive paths stand behind `//?/`.
pub open spec fn prefixed_v2_spec(s: Seq<char>) -> Seq<char> {
    let v2 = normalize_v2_spec(s);
    if v2.len() >= 2 && v2[0] == '/' && v2[1] == '/' {
        "//?/unc/"@ + crate::strutil::trim_start_char_spec(v2, '/')
    } else {
        "//?/"@ + v2
    }
}

/// The first `n` candidates with the current hash and duplicates removed,
/// keeping first occurrences in order.
pub open spec fn dedup_candidates(cands: Seq<Seq<char>>, excl: Seq<char>, n: int) -> Seq<
    Seq<char>,
>
    decreases n,
{
    if n <= 0 {
        Seq::<Seq<char>>::empty()
    } else {
        dedup_candidates(cands, excl, n - 1) + (if cands[n - 1] != excl && (forall|j: int|
            0 <= j < n - 1 ==> #[trigger] cands[j] != cands[n - 1]) {
            seq![cands[n - 1]]
        } else {
            Seq::<Seq<char>>::empty()
        })
    }
}

proof fn lemma_dedup_membership(cands: Seq<Seq<char>>, excl: Seq<char>, n: int, x: Seq<char>)
    requires
        n <= cands.len(),
    ensures
        (exists|k: int|
            0 <= k < dedup_candidates(cands, excl, n).len() && #[trigger] dedup_candidates(
                cands,
                excl,
                n,
            )[k] == x) <==> (x != excl && exists|j: int| 0 <= j < n && #[trigger] cands[j] == x),
    decreases n,
{
    if n > 0 {
        lemma_dedup_membership(cands, excl, n - 1, x);
        let d = dedup_candidates(cands, excl, n);
        let dprev = dedup_candidates(cands, excl, n - 1);
        let keep = cands[n - 1] != excl && (forall|j: int|
            0 <= j < n - 1 ==> #[trigger] cands[j] != cands[n - 1]);
        if keep {
            assert(d =~= dprev.push(cands[n - 1]));
            if x != excl && exists|j: int| 0 <= j < n && #[trigger] cands[j] == x {
                let j = choose|j: int| 0 <= j < n && #[trigger] cands[j] == x;
                if j == n - 1 {
                    assert(d[d.len() - 1] == x);
                } else {
                    let k = choose|k: int|
                        0 <= k < dprev.len() && #[trigger] dprev[k] == x;
                    assert(d[k] == x);
                }
            }
            if exists|k: int| 0 <= k < d.len() && #[trigger] d[k] == x {
                let k = choose|k: int| 0 <= k < d.len() && #[trigger] d[k] == x;
                if k < dprev.len() {
                    assert(dprev[k] == x);
                } else {
                    assert(cands[n - 1] == x);
                }
            }
        } else {
            assert(d =~= dprev);
            if x != excl && exists|j: int| 0 <= j < n && #[trigger] cands[j] == x {
                let j = choose|j: int| 0 <= j < n && #[trigger] cands[j] == x;
                if j == n - 1 {
                    if cands[n - 1] == excl {
                    } else {
                        let j2 = choose|j2: int|
                            0 <= j2 < n - 1 && #[trigger] cands[j2] == cands[n - 1];
                        assert(cands[j2] == x);
                    }
                }
            }
        }
    }
}

/// The manager for one project's history files: the current hash, the older
/// hashes still looked at, the path itself, and the entry cap.
#[derive(Debug, Clone)]
pub struct ChatHistoryManager {
    pub project_hash: String,
    pub legacy_hashes: Vec<String>,
    pub project_path: String,
    pub max_entries: usize,
}

/// The path normalized under the older rule.
pub fn normalize_path_v1(path: &str) -> (r: String)
    ensures
        r@ == normalize_v1_spec(path@),
{
    let trimmed = trim_str(path);
    let t = chars_to_string(&trimmed);
    let lowered = to_lowercase(t.as_str());
    let lchars = str_chars(lowered.as_str());
    let replaced = replace_char(&lchars, '\\', '/');
    chars_to_string(&replaced)
}

/// The path normalized under the current rule.
pub fn normalize_path_v2(path: &str) -> (r: String)
    ensures
        r@ == normalize_v2_spec(path@),
{
    let trimmed = trim_str(path);
    let s1 = chars_strip_prefix(&trimmed, "\\\\?\\");
    let s2 = chars_strip_prefix(&s1, "//?/");
    let s3 = replace_char(&s2, '\\', '/');
    let s4 = chars_strip_prefix(&s3, "//?/");
    let s5 = trim_end_char(&s4, '/');
    let t = chars_to_string(&s5);
    to_lowercase(t.as_str())
}

/// The short hash of a string: eight digest bytes as hexadecimal text.
pub fn sha256_short_hex(input: &str) -> (r: String)
    ensures
        r@ == short_hash_spec(input@),
{
    let digest = ring_sha256(input);
    let head = take_bytes(&digest, 8);
    hex_encode(&head)
}

/// The current hash of a project path.
pub fn hash_path_v2(path: &str) -> (r: String)
    ensures
        r@ == hash_v2_spec(path@),
{
    let normalized = normalize_path_v2(path);
    sha256_short_hex(normalized.as_str())
}

/// The older hashes a project's files may still be stored under: the
/// candidates of `legacy_candidates_spec`, first occurrences only, without
/// the current hash.
pub fn legacy_hashes(project_path: &str, v2_hash: &str) -> (r: Vec<String>)
    ensures
        r.deep_view() == dedup_candidates(
            legacy_candidates_spec(project_path@),
            v2_hash@,
            legacy_candidates_spec(project_path@).len() as int,
        ),
{
    let ghost cands = legacy_candidates_spec(project_path@);
    let mut candidates: Vec<String> = Vec::new();
    let v1 = normalize_path_v1(project_path);
    candidates.push(sha256_short_hex(v1.as_str()));
    let v1_chars = str_chars(v1.as_str());
    let v1_trim = trim_end_char(&v1_chars, '/');
    let v1_trim_str = chars_to_string(&v1_trim);
    candidates.push(sha256_short_hex(v1_trim_str.as_str()));
    let v2 = normalize_path_v2(project_path);
    if v2.as_str().unicode_len() > 0 {
        let v2_chars = str_chars(v2.as_str());
        let prefixed: String = if v2_chars.len() >= 2 && v2_chars[0] == '/' && v2_chars[1] == '/' {
            let without = crate::strutil::trim_start_char(&v2_chars, '/');
            let mut p = String::from_str("//?/unc/");
            let w = chars_to_string(&without);
            p.append(w.as_str());
            proof {
                assert(p@ =~= prefixed_v2_spec(project_path@));
            }
            p
        } else {
            let mut p = String::from_str("//?/");
            p.append(v2.as_str());
            proof {
                assert(p@ =~= prefixed_v2_spec(project_path@));
            }
            p
        };
        candidates.push(sha256_short_hex(prefixed.as_str()));
        let mut with_slash = prefixed.clone();
        crate::strutil::push_char(&mut with_slash, '/');
        candidates.push(sha256_short_hex(with_slash.as_str()));
    }
    proof {
        assert(candidates.deep_view() =~= cands);
    }
    let mut out: Vec<String> = Vec::new();
    let mut i: usize = 0;
    while i < candidates.len()
        invariant
            candidates.deep_view() == cands,
            i <= cands.len(),
            out.deep_view() == dedup_candidates(cands, v2_hash@, i as int),
        decreases cands.len() - i,
    {
        let ghost prev = out.deep_view();
        let c = &candidates[i];
        let mut dup = str_eq_str(c.as_str(), v2_hash);
        let mut k: usize = 0;
        while k < out.len()
            invariant
                0 <= i < candidates@.len(),
                candidates.deep_view() == cands,
                out.deep_view() == prev,
                k <= out@.len(),
                dup == (c@ == v2_hash@ || exists|t: int|
                    0 <= t < k && out.deep_view()[t] == c@),
            decreases out@.len() - k,
        {
            if str_eq_str(out[k].as_str(), c.as_str()) {
                dup = true;
                proof {
                    assert(out.deep_view()[k as int] == c@);
                }
                k = out.len();
            } else {
                k = k + 1;
            }
        }
        proof {
            lemma_dedup_membership(cands, v2_hash@, i as int, c@);
        }
        if !dup {
            out.push(c.clone());
        }
        i = i + 1;
        proof {
            let keep = cands[i - 1] != v2_hash@ && (forall|j: int|
                0 <= j < i - 1 ==> #[trigger] cands[j] != cands[i - 1]);
            if keep {
                assert(!dup);
                assert(out.deep_view() =~= prev.push(cands[i - 1]));
                assert(out.deep_view() =~= dedup_candidates(cands, v2_hash@, i as int));
            } else {
                if cands[i - 1] != v2_hash@ {
                    let j = choose|j: int|
                        0 <= j < i - 1 && #[trigger] cands[j] == cands[i - 1];
                    assert(dup);
                } else {
                    assert(dup);
                }
                assert(out.deep_view() =~= dedup_candidates(cands, v2_hash@, i as int));
            }
        }
    }
    out
}

/// The directory history files live in: under the user's home directory
/// where the platform reports one, under the working directory otherwise.
pub fn history_dir() -> (r: String)
    ensures
        exists|h: Seq<char>| r@ == h + "/.sanshu/chat_history"@,
{
    let mut base = match home_dir_string() {
        Some(h) => h,
        None => String::from_str("."),
    };
    let ghost h = base@;
    base.append("/.sanshu/chat_history");
    proof {
        assert(base@ == h + "/.sanshu/chat_history"@);
    }
    base
}

/// The file a given hash's history is stored in.
pub fn history_file_path_for_hash(hash: &str) -> (r: String)
    ensures
        exists|h: Seq<char>| r@ == h + "/.sanshu/chat_history/"@ + hash@ + ".json"@,
{
    let mut p = history_dir();
    let ghost base = p@;
    let ghost h = choose|h: Seq<char>| base == h + "/.sanshu/chat_history"@;
    p.append("/");
    p.append(hash);
    p.append(".json");
    proof {
        reveal_strlit("/.sanshu/chat_history");
        reveal_strlit("/.sanshu/chat_history/");
        reveal_strlit("/");
        assert(p@ =~= h + "/.sanshu/chat_history/"@ + hash@ + ".json"@);
    }
    p
}

impl ChatHistoryManager {
    /// A manager for the project at the given path, hashing it under the
    /// current rule and keeping the older hashes, with the default cap of
    /// twenty entries.
    pub fn new(project_path: &str) -> (r: ChatHistoryManager)
        ensures
            r.project_hash@ == hash_v2_spec(project_path@),
            r.legacy_hashes.deep_view() == dedup_candidates(
                legacy_candidates_spec(project_path@),
                hash_v2_spec(project_path@),
                legacy_candidates_spec(project_path@).len() as int,
            ),
            r.project_path@ == project_path@,
            r.max_entries == 20,
    {
        let project_hash = hash_path_v2(project_path);
        let legacy = legacy_hashes(project_path, project_hash.as_str());
        ChatHistoryManager {
            project_hash,
            legacy_hashes: legacy,
            project_path: String::from_str(project_path),
            max_entries: 20,
        }
    }

    /// The same manager with another entry cap.
    pub fn with_max_entries(self, max: usize) -> (r: ChatHistoryManager)
        ensures
            r.project_hash == self.project_hash,
            r.legacy_hashes == self.legacy_hashes,
            r.project_path == self.project_path,
            r.max_entries == max,
    {
        ChatHistoryManager { max_entries: max, ..self }
    }

    /// The file the current rule stores this project's history in.
    pub fn primary_history_file_path(&self) -> (r: String)
        ensures
            exists|h: Seq<char>|
                r@ == h + "/.sanshu/chat_history/"@ + self.project_hash@ + ".json"@,
    {
        history_file_path_for_hash(self.project_hash.as_str())
    }

    /// Every file this project's history may be stored in: the current rule
    /// first, then the older hashes.
    pub fn history_file_paths(&self) -> (r: Vec<String>)
        ensures
            r@.len() == 1 + self.legacy_hashes@.len(),
    {
        let mut out: Vec<String> = Vec::new();
        out.push(self.primary_history_file_path());
        let mut i: usize = 0;
        while i < self.legacy_hashes.len()
            invariant
                i <= self.legacy_hashes@.len(),
                out@.len() == 1 + i,
            decreases self.legacy_hashes@.len() - i,
        {
            out.push(history_file_path_for_hash(self.legacy_hashes[i].as_str()));
            i = i + 1;
        }
        out
    }

    /// An empty history for this project.
    pub fn empty_history(&self) -> (r: ChatHistoryData)
        ensures
            r.project_path@ == self.project_path@,
            r.entries@.len() == 0,
            r.last_updated_millis is None,
    {
        ChatHistoryData {
            project_path: self.project_path.clone(),
            entries: Vec::new(),
            last_updated_millis: None,
        }
    }
}

/// A copy of an entry, equal to it.
pub fn copy_entry(e: &ChatEntry) -> (r: ChatEntry)
    ensures
        r == *e,
{
    ChatEntry {
        id: e.id.clone(),
        user_input: e.user_input.clone(),
        ai_response_summary: e.ai_response_summary.clone(),
        timestamp_millis: e.timestamp_millis,
        source: e.source.clone(),
    }
}

/// The merge order: by timestamp, ties broken by id.
pub open spec fn entry_le(a: ChatEntry, b: ChatEntry) -> bool {
    a.timestamp_millis < b.timestamp_millis || (a.timestamp_millis == b.timestamp_millis && lex_le(
        a.id@,
        b.id@,
    ))
}

/// Pairwise sortedness under the merge order.
pub open spec fn entries_sorted(s: Seq<ChatEntry>) -> bool {
    forall|i: int, j: int| 0 <= i < j < s.len() ==> entry_le(s[i], s[j])
}

proof fn lemma_entry_le_total(a: ChatEntry, b: ChatEntry)
    ensures
        entry_le(a, b) || entry_le(b, a),
{
    if a.timestamp_millis == b.timestamp_millis {
        lemma_lex_total(a.id@, b.id@);
    }
}

proof fn lemma_entry_le_trans(a: ChatEntry, b: ChatEntry, c: ChatEntry)
    requires
        entry_le(a, b),
        entry_le(b, c),
    ensures
        entry_le(a, c),
{
    if a.timestamp_millis == b.timestamp_millis && b.timestamp_millis == c.timestamp_millis {
        lemma_lex_trans(a.id@, b.id@, c.id@);
    }
}

fn entry_le_exec(a: &ChatEntry, b: &ChatEntry) -> (r: bool)
    ensures
        r == entry_le(*a, *b),
{
    if a.timestamp_millis < b.timestamp_millis {
        true
    } else if a.timestamp_millis == b.timestamp_millis {
        str_lex_le(a.id.as_str(), b.id.as_str())
    } else {
        false
    }
}

/// The entries sorted under the merge order; a permutation of the input.
pub fn sort_entries(entries: Vec<ChatEntry>) -> (r: Vec<ChatEntry>)
    ensures
        entries_sorted(r@),
        r@.to_multiset() == entries@.to_multiset(),
{
    broadcast use vstd::seq_lib::group_to_multiset_ensures;

    let mut rest = entries;
    let mut out: Vec<ChatEntry> = Vec::new();
    proof {
        assert(out@.to_multiset().add(rest@.to_multiset()) =~= rest@.to_multiset());
    }
    while rest.len() > 0
        invariant
            entries_sorted(out@),
            out@.to_multiset().add(rest@.to_multiset()) == entries@.to_multiset(),
        decreases rest@.len(),
    {
        let ghost old_rest = rest@;
        let ghost old_out = out@;
        let e = rest.remove(0);
        proof {
            assert(old_rest.remove(0) =~= rest@);
            vstd::seq_lib::to_multiset_remove(old_rest, 0);
            assert(old_rest[0] == e);
            assert(old_rest.contains(e));
            old_rest.to_multiset_ensures();
            assert(old_rest.to_multiset().count(e) > 0);
            assert(old_rest.to_multiset() =~= rest@.to_multiset().insert(e));
        }
        let mut pos: usize = 0;
        while pos < out.len() && entry_le_exec(&out[pos], &e)
            invariant
                pos <= out@.len(),
                forall|t: int| 0 <= t < pos ==> entry_le(out@[t], e),
            decreases out@.len() - pos,
        {
            pos = pos + 1;
        }
        proof {
            if pos < out@.len() {
                lemma_entry_le_total(out@[pos as int], e);
                assert(entry_le(e, out@[pos as int]));
            }
        }
        out.insert(pos, e);
        proof {
            assert forall|i: int, j: int| 0 <= i < j < out@.len() implies entry_le(
                out@[i],
                out@[j],
            ) by {
                if i < pos && j == pos {
                    assert(out@[i] == old_out[i]);
                    assert(entry_le(out@[i], e));
                } else if i == pos && j > pos {
                    assert(out@[j] == old_out[j - 1]);
                    assert(entry_le(e, old_out[pos as int]));
                    if j - 1 > pos {
                        assert(entry_le(old_out[pos as int], old_out[j - 1]));
                        lemma_entry_le_trans(e, old_out[pos as int], old_out[j - 1]);
                    }
                } else if i < pos && j > pos {
                    assert(out@[i] == old_out[i]);
                    assert(out@[j] == old_out[j - 1]);
                } else if j < pos {
                    assert(out@[i] == old_out[i] && out@[j] == old_out[j]);
                } else if i > pos {
                    assert(out@[i] == old_out[i - 1] && out@[j] == old_out[j - 1]);
                }
            }
            vstd::seq_lib::to_multiset_insert(old_out, pos as int, e);
            assert(out@.to_multiset() =~= old_out.to_multiset().insert(e));
        }
    }
    proof {
        assert(rest@.to_multiset() =~= Seq::<ChatEntry>::empty().to_multiset());
        assert(out@.to_multiset().add(rest@.to_multiset()) =~= out@.to_multiset());
    }
    out
}

/// Every entry of the loaded files, file order then entry order.
pub open spec fn flatten_entries(files: Seq<ChatHistoryData>) -> Seq<ChatEntry>
    decreases files.len(),
{
    if files.len() == 0 {
        Seq::<ChatEntry>::empty()
    } else {
        files[0].entries@ + flatten_entries(files.drop_first())
    }
}

/// The first `n` entries with later repeats of an id removed: the first
/// occurrence of each id wins.
pub open spec fn dedup_by_id(s: Seq<ChatEntry>, n: int) -> Seq<ChatEntry>
    decreases n,
{
    if n <= 0 {
        Seq::<ChatEntry>::empty()
    } else {
        dedup_by_id(s, n - 1) + (if forall|j: int| 0 <= j < n - 1 ==> #[trigger] s[j].id@ != s[n
            - 1].id@ {
            seq![s[n - 1]]
        } else {
            Seq::<ChatEntry>::empty()
        })
    }
}

proof fn lemma_dedup_by_id_membership(s: Seq<ChatEntry>, n: int, x: Seq<char>)
    requires
        n <= s.len(),
    ensures
        (exists|k: int|
            0 <= k < dedup_by_id(s, n).len() && #[trigger] dedup_by_id(s, n)[k].id@ == x) <==> (
        exists|j: int| 0 <= j < n && #[trigger] s[j].id@ == x),
    decreases n,
{
    if n > 0 {
        lemma_dedup_by_id_membership(s, n - 1, x);
        let d = dedup_by_id(s, n);
        let dprev = dedup_by_id(s, n - 1);
        let keep = forall|j: int| 0 <= j < n - 1 ==> #[trigger] s[j].id@ != s[n - 1].id@;
        if keep {
            assert(d =~= dprev.push(s[n - 1]));
            if exists|j: int| 0 <= j < n && #[trigger] s[j].id@ == x {
                let j = choose|j: int| 0 <= j < n && #[trigger] s[j].id@ == x;
                if j == n - 1 {
                    assert(d[d.len() - 1].id@ == x);
                } else {
                    let k = choose|k: int| 0 <= k < dprev.len() && #[trigger] dprev[k].id@ == x;
                    assert(d[k].id@ == x);
                }
            }
            if exists|k: int| 0 <= k < d.len() && #[trigger] d[k].id@ == x {
                let k = choose|k: int| 0 <= k < d.len() && #[trigger] d[k].id@ == x;
                if k < dprev.len() {
                    assert(dprev[k].id@ == x);
                } else {
                    assert(s[n - 1].id@ == x);
                }
            }
        } else {
            assert(d =~= dprev);
            if exists|j: int| 0 <= j < n && #[trigger] s[j].id@ == x {
                let j = choose|j: int| 0 <= j < n && #[trigger] s[j].id@ == x;
                if j == n - 1 {
                    let j2 = choose|j2: int| 0 <= j2 < n - 1 && #[trigger] s[j2].id@ == s[n
                        - 1].id@;
                    assert(s[j2].id@ == x);
                }
            }
        }
    }
}

impl ChatHistoryManager {
    /// Merges the history files that were read for this project. `loaded`
    /// holds the files that parsed, in path order; `found_any_file` says
    /// whether any file existed at all; `first_error` is the first read or
    /// parse failure. No file at all is an empty history; files that all
    /// failed are an error, so a caller can tell empty from broken. What
    /// loaded is merged: the first occurrence of each entry id wins, and
    /// the result is ordered by timestamp, ties broken by id.
    pub fn load_history_merged(
        &self,
        loaded: Vec<ChatHistoryData>,
        found_any_file: bool,
        first_error: Option<String>,
        now_millis: i64,
    ) -> (r: Result<ChatHistoryData, String>)
        ensures
            loaded@.len() == 0 && !found_any_file ==> (r matches Ok(h) && h.project_path@
                == self.project_path@ && h.entries@.len() == 0 && h.last_updated_millis is None),
            loaded@.len() == 0 && found_any_file ==> (r matches Err(e) && (match first_error {
                Some(msg) => e@ == msg@,
                None => e@ == "对话历史文件读取/解析失败"@,
            })),
            loaded@.len() > 0 ==> (r matches Ok(h) && h.project_path@ == self.project_path@
                && entries_sorted(h.entries@) && h.entries@.to_multiset() == dedup_by_id(
                flatten_entries(loaded@),
                flatten_entries(loaded@).len() as int,
            ).to_multiset() && h.last_updated_millis == Some(now_millis)),
    {
        if loaded.len() == 0 {
            if !found_any_file {
                return Ok(self.empty_history());
            }
            return Err(
                match first_error {
                    Some(msg) => msg,
                    None => String::from_str("对话历史文件读取/解析失败"),
                },
            );
        }
        let ghost orig = loaded@;
        let mut files = loaded;
        let mut all: Vec<ChatEntry> = Vec::new();
        proof {
            assert(Seq::<ChatEntry>::empty() + flatten_entries(files@) =~= flatten_entries(
                orig,
            ));
        }
        while files.len() > 0
            invariant
                all@ + flatten_entries(files@) == flatten_entries(orig),
            decreases files@.len(),
        {
            let ghost files_before = files@;
            let f = files.remove(0);
            proof {
                assert(files_before.drop_first() =~= files@);
                assert(flatten_entries(files_before) == f.entries@ + flatten_entries(files@));
            }
            let mut es = f.entries;
            while es.len() > 0
                invariant
                    all@ + (es@ + flatten_entries(files@)) == flatten_entries(orig),
                decreases es@.len(),
            {
                let ghost es_before = es@;
                let ghost all_before = all@;
                let e = es.remove(0);
                all.push(e);
                proof {
                    assert(es_before.drop_first() =~= es@);
                    assert(all@ =~= all_before.push(e));
                    assert(all@ + (es@ + flatten_entries(files@)) =~= all_before + (es_before
                        + flatten_entries(files@)));
                }
            }
            proof {
                assert(all@ + (es@ + flatten_entries(files@)) =~= all@ + flatten_entries(
                    files@,
                ));
            }
        }
        proof {
            assert(all@ + flatten_entries(files@) =~= all@);
            assert(all@ == flatten_entries(orig));
        }
        let flat = all;
        let mut unique: Vec<ChatEntry> = Vec::new();
        let mut i: usize = 0;
        while i < flat.len()
            invariant
                flat@ == flatten_entries(orig),
                i <= flat@.len(),
                unique@ == dedup_by_id(flat@, i as int),
            decreases flat@.len() - i,
        {
            let ghost prev = unique@;
            let mut dup = false;
            let mut k: usize = 0;
            while k < unique.len()
                invariant
                    0 <= i < flat@.len(),
                    unique@ == prev,
                    k <= unique@.len(),
                    dup == exists|t: int|
                        0 <= t < k && #[trigger] unique@[t].id@ == flat@[i as int].id@,
                decreases unique@.len() - k,
            {
                if str_eq_str(unique[k].id.as_str(), flat[i].id.as_str()) {
                    dup = true;
                    proof {
                        assert(unique@[k as int].id@ == flat@[i as int].id@);
                    }
                    k = unique.len();
                } else {
                    k = k + 1;
                }
            }
            proof {
                lemma_dedup_by_id_membership(flat@, i as int, flat@[i as int].id@);
            }
            if !dup {
                unique.push(copy_entry(&flat[i]));
            }
            i = i + 1;
            proof {
                let keep = forall|j: int|
                    0 <= j < i - 1 ==> #[trigger] flat@[j].id@ != flat@[i - 1].id@;
                if keep {
                    assert(!dup);
                    assert(unique@ =~= prev.push(flat@[i - 1]));
                    assert(unique@ =~= dedup_by_id(flat@, i as int));
                } else {
                    let j = choose|j: int|
                        0 <= j < i - 1 && #[trigger] flat@[j].id@ == flat@[i - 1].id@;
                    assert(dup);
                    assert(unique@ =~= dedup_by_id(flat@, i as int));
                }
            }
        }
        let sorted = sort_entries(unique);
        Ok(
            ChatHistoryData {
                project_path: self.project_path.clone(),
                entries: sorted,
                last_updated_millis: Some(now_millis),
            },
        )
    }
}

/// What is kept of a summary: at most five hundred characters.
pub open spec fn summary_spec(s: Seq<char>) -> Seq<char> {
    if s.len() <= 500 {
        s
    } else {
        s.take(500)
    }
}

/// The last `max` entries, in order.
pub open spec fn keep_last(s: Seq<ChatEntry>, max: int) -> Seq<ChatEntry> {
    if s.len() <= max {
        s
    } else {
        s.skip(s.len() - max)
    }
}

/// An entry id: the timestamp and a random value, joined by an underscore.
pub fn new_entry_id(now_millis: i64, rand: u32) -> (r: String)
    ensures
        r@ == dec_i64_spec(now_millis as int) + "_"@ + dec_spec(rand as nat),
{
    let mut s = i64_to_string(now_millis);
    s.append("_");
    let tail = u64_to_string(rand as u64);
    s.append(tail.as_str());
    proof {
        reveal_strlit("_");
        assert(s@ =~= dec_i64_spec(now_millis as int) + "_"@ + dec_spec(rand as nat));
    }
    s
}

impl ChatHistoryManager {
    /// Appends one exchange to a history: the summary is capped at five
    /// hundred characters, and the oldest entries are dropped from the
    /// front until the cap is met.
    pub fn add_entry(
        &self,
        history: ChatHistoryData,
        user_input: &str,
        ai_response: &str,
        source: &str,
        entry_id: String,
        now_millis: i64,
    ) -> (r: ChatHistoryData)
        ensures
            r.project_path == history.project_path,
            r.last_updated_millis == Some(now_millis),
            exists|e: ChatEntry|
                e.id@ == entry_id@ && e.user_input@ == user_input@ && e.ai_response_summary@
                    == summary_spec(ai_response@) && e.timestamp_millis == now_millis && e.source@
                    == source@ && r.entries@ == #[trigger] keep_last(
                    history.entries@.push(e),
                    self.max_entries as int,
                ),
    {
        let chars = str_chars(ai_response);
        let summary = if chars.len() <= 500 {
            chars_to_string(&chars)
        } else {
            let head = crate::strutil::subvec(&chars, 0, 500);
            chars_to_string(&head)
        };
        let entry = ChatEntry {
            id: entry_id,
            user_input: String::from_str(user_input),
            ai_response_summary: summary,
            timestamp_millis: now_millis,
            source: String::from_str(source),
        };
        let ghost e = entry;
        let mut entries = history.entries;
        entries.push(entry);
        let ghost full = entries@;
        let ghost mut dropped: int = 0;
        while entries.len() > self.max_entries
            invariant
                entries@ == full.skip(dropped),
                0 <= dropped <= full.len(),
                dropped > 0 ==> full.len() - (dropped - 1) > self.max_entries,
            decreases entries@.len(),
        {
            let ghost before = entries@;
            entries.remove(0);
            proof {
                dropped = dropped + 1;
                assert(before.drop_first() =~= full.skip(dropped));
            }
        }
        proof {
            if full.len() <= self.max_entries {
                assert(dropped == 0int);
                assert(full.skip(0) =~= full);
            } else {
                assert(entries@.len() == self.max_entries);
            }
            assert(entries@ =~= keep_last(full, self.max_entries as int));
            assert(full == history.entries@.push(e));
            assert(e.ai_response_summary@ == summary_spec(ai_response@));
        }
        ChatHistoryData {
            project_path: history.project_path,
            entries,
            last_updated_millis: Some(now_millis),
        }
    }

    /// An emptied history for this project, stamped with the given time.
    pub fn cleared(&self, now_millis: i64) -> (r: ChatHistoryData)
        ensures
            r.project_path@ == self.project_path@,
            r.entries@.len() == 0,
            r.last_updated_millis == Some(now_millis),
    {
        ChatHistoryData {
            project_path: self.project_path.clone(),
            entries: Vec::new(),
            last_updated_millis: Some(now_millis),
        }
    }
}

/// The last `count` entries, oldest first.
pub fn get_recent(entries: &Vec<ChatEntry>, count: usize) -> (r: Vec<ChatEntry>)
    ensures
        r@ == keep_last(entries@, count as int),
{
    let n = entries.len();
    let start: usize = if n <= count {
        0
    } else {
        n - count
    };
    let mut out: Vec<ChatEntry> = Vec::new();
    let mut i: usize = start;
    while i < n
        invariant
            n == entries@.len(),
            start <= i <= n,
            out@ == entries@.subrange(start as int, i as int),
        decreases n - i,
    {
        out.push(copy_entry(&entries[i]));
        i = i + 1;
        proof {
            assert(out@ =~= entries@.subrange(start as int, i as int));
        }
    }
    proof {
        assert(entries@.subrange(start as int, n as int) =~= keep_last(entries@, count as int));
    }
    out
}

/// The entry stored under an id, if any: the last occurrence wins, as a
/// keyed insertion would have it.
pub open spec fn lookup_entry(entries: Seq<ChatEntry>, id: Seq<char>) -> Option<ChatEntry>
    decreases entries.len(),
{
    if entries.len() == 0 {
        None
    } else if entries.last().id@ == id {
        Some(entries.last())
    } else {
        lookup_entry(entries.drop_last(), id)
    }
}

/// The entries the given ids name, in the ids' order, skipping unknown ids.
pub open spec fn by_ids_spec(entries: Seq<ChatEntry>, ids: Seq<Seq<char>>) -> Seq<ChatEntry>
    decreases ids.len(),
{
    if ids.len() == 0 {
        Seq::<ChatEntry>::empty()
    } else {
        by_ids_spec(entries, ids.drop_last()) + (match lookup_entry(entries, ids.last()) {
            Some(e) => seq![e],
            None => Seq::<ChatEntry>::empty(),
        })
    }
}

fn find_by_id(entries: &Vec<ChatEntry>, id: &str) -> (r: Option<ChatEntry>)
    ensures
        match r {
            Some(e) => lookup_entry(entries@, id@) == Some(e),
            None => lookup_entry(entries@, id@) is None,
        },
{
    let n = entries.len();
    proof {
        assert(entries@.take(n as int) =~= entries@);
    }
    let mut k: usize = n;
    while k > 0
        invariant
            n == entries@.len(),
            k <= n,
            lookup_entry(entries@, id@) == lookup_entry(entries@.take(k as int), id@),
        decreases k,
    {
        proof {
            assert(entries@.take(k as int).last() == entries@[k - 1]);
            assert(entries@.take(k as int).drop_last() =~= entries@.take(k - 1));
        }
        if str_eq_str(entries[k - 1].id.as_str(), id) {
            return Some(copy_entry(&entries[k - 1]));
        }
        k = k - 1;
    }
    None
}

/// The entries named by the ids, in the ids' order; repeats repeat, and
/// unknown ids are skipped.
pub fn get_by_ids(entries: &Vec<ChatEntry>, ids: &Vec<String>) -> (r: Vec<ChatEntry>)
    ensures
        r@ == by_ids_spec(entries@, ids.deep_view()),
{
    let ghost idv = ids.deep_view();
    let mut out: Vec<ChatEntry> = Vec::new();
    let mut i: usize = 0;
    while i < ids.len()
        invariant
            idv == ids.deep_view(),
            i <= idv.len(),
            out@ == by_ids_spec(entries@, idv.take(i as int)),
        decreases idv.len() - i,
    {
        let ghost prev = out@;
        match find_by_id(entries, ids[i].as_str()) {
            Some(e) => {
                out.push(e);
            },
            None => {},
        }
        i = i + 1;
        proof {
            assert(idv.take(i as int).drop_last() =~= idv.take(i - 1));
            assert(idv.take(i as int).last() == idv[i - 1]);
            assert(out@ =~= by_ids_spec(entries@, idv.take(i as int)));
        }
    }
    proof {
        assert(idv.take(idv.len() as int) =~= idv);
    }
    out
}

/// The entries with the given id removed.
pub open spec fn drop_id_spec(entries: Seq<ChatEntry>, id: Seq<char>) -> Seq<ChatEntry>
    decreases entries.len(),
{
    if entries.len() == 0 {
        Seq::<ChatEntry>::empty()
    } else {
        drop_id_spec(entries.drop_last(), id) + (if entries.last().id@ == id {
            Seq::<ChatEntry>::empty()
        } else {
            seq![entries.last()]
        })
    }
}

impl ChatHistoryManager {
    /// Removes every entry with the given id from a history; reports
    /// whether anything was removed, and stamps the history only then.
    pub fn remove_entry(&self, history: ChatHistoryData, entry_id: &str, now_millis: i64) -> (r: (
        ChatHistoryData,
        bool,
    ))
        ensures
            r.0.project_path == history.project_path,
            r.0.entries@ == drop_id_spec(history.entries@, entry_id@),
            r.1 == (drop_id_spec(history.entries@, entry_id@).len() != history.entries@.len()),
            r.1 ==> r.0.last_updated_millis == Some(now_millis),
            !r.1 ==> r.0.last_updated_millis == history.last_updated_millis,
    {
        let src = &history.entries;
        let n = src.len();
        let mut out: Vec<ChatEntry> = Vec::new();
        let mut i: usize = 0;
        while i < n
            invariant
                n == src@.len(),
                i <= n,
                out@ == drop_id_spec(src@.take(i as int), entry_id@),
            decreases n - i,
        {
            proof {
                assert(src@.take(i + 1).drop_last() =~= src@.take(i as int));
                assert(src@.take(i + 1).last() == src@[i as int]);
            }
            if !str_eq_str(src[i].id.as_str(), entry_id) {
                out.push(copy_entry(&src[i]));
            }
            i = i + 1;
            proof {
                assert(out@ =~= drop_id_spec(src@.take(i as int), entry_id@));
            }
        }
        proof {
            assert(src@.take(n as int) =~= src@);
        }
        let removed = out.len() != n;
        let stamped: Option<i64> = if removed {
            Some(now_millis)
        } else {
            history.last_updated_millis
        };
        (
            ChatHistoryData {
                project_path: history.project_path,
                entries: out,
                last_updated_millis: stamped,
            },
            removed,
        )
    }
}

/// True when an API entry is the given exchange in the upstream shape: the
/// message and id carried over, one text request node, one response node
/// holding the summary and nothing else.
pub open spec fn api_entry_ok(a: ChatHistoryEntry, e: ChatEntry) -> bool {
    &&& a.request_message@ == e.user_input@
    &&& a.request_id@ == e.id@
    &&& a.request_nodes@.len() == 1
    &&& a.request_nodes@[0].id == 0u32
    &&& a.request_nodes@[0].node_type == 0u32
    &&& (a.request_nodes@[0].text_node matches Some(t) && t.content@ == e.user_input@)
    &&& a.response_nodes@.len() == 1
    &&& a.response_nodes@[0].id == 1u32
    &&& a.response_nodes@[0].node_type == 0u32
    &&& (a.response_nodes@[0].content matches Some(c) && c@ == e.ai_response_summary@)
    &&& a.response_nodes@[0].tool_use is None
    &&& a.response_nodes@[0].thinking is None
    &&& a.response_nodes@[0].billing_metadata is None
    &&& a.response_nodes@[0].metadata is None
    &&& a.response_nodes@[0].token_usage is None
}

fn to_api_entry(e: &ChatEntry) -> (r: ChatHistoryEntry)
    ensures
        api_entry_ok(r, *e),
{
    let mut request_nodes: Vec<ChatHistoryRequestNode> = Vec::new();
    request_nodes.push(
        ChatHistoryRequestNode {
            id: 0,
            node_type: 0,
            text_node: Some(TextNode { content: e.user_input.clone() }),
        },
    );
    let mut response_nodes: Vec<ChatHistoryResponseNode> = Vec::new();
    response_nodes.push(
        ChatHistoryResponseNode {
            id: 1,
            node_type: 0,
            content: Some(e.ai_response_summary.clone()),
            tool_use: None,
            thinking: None,
            billing_metadata: None,
            metadata: None,
            token_usage: None,
        },
    );
    ChatHistoryEntry {
        request_message: e.user_input.clone(),
        request_id: e.id.clone(),
        request_nodes,
        response_nodes,
    }
}

impl ChatHistoryManager {
    /// The last `count` entries of a history, in the upstream chat API
    /// shape, oldest first.
    pub fn to_api_format(&self, history: &ChatHistoryData, count: usize) -> (r: Vec<
        ChatHistoryEntry,
    >)
        ensures
            r@.len() == keep_last(history.entries@, count as int).len(),
            forall|i: int|
                0 <= i < r@.len() ==> api_entry_ok(
                    #[trigger] r@[i],
                    keep_last(history.entries@, count as int)[i],
                ),
    {
        let recent = get_recent(&history.entries, count);
        Self::map_api_entries(&recent)
    }

    /// The entries the ids name, in the ids' order, in the upstream chat
    /// API shape.
    pub fn to_api_format_by_ids(&self, history: &ChatHistoryData, ids: &Vec<String>) -> (r: Vec<
        ChatHistoryEntry,
    >)
        ensures
            r@.len() == by_ids_spec(history.entries@, ids.deep_view()).len(),
            forall|i: int|
                0 <= i < r@.len() ==> api_entry_ok(
                    #[trigger] r@[i],
                    by_ids_spec(history.entries@, ids.deep_view())[i],
                ),
    {
        let picked = get_by_ids(&history.entries, ids);
        Self::map_api_entries(&picked)
    }

    /// The last `count` entries of a history, oldest first — the reading
    /// callers use beside `to_api_format`.
    pub fn get_recent_entries(&self, history: &ChatHistoryData, count: usize) -> (r: Vec<
        ChatEntry,
    >)
        ensures
            r@ == keep_last(history.entries@, count as int),
    {
        get_recent(&history.entries, count)
    }

    fn map_api_entries(entries: &Vec<ChatEntry>) -> (r: Vec<ChatHistoryEntry>)
        ensures
            r@.len() == entries@.len(),
            forall|i: int|
                0 <= i < r@.len() ==> api_entry_ok(#[trigger] r@[i], entries@[i]),
    {
        let mut out: Vec<ChatHistoryEntry> = Vec::new();
        let mut i: usize = 0;
        while i < entries.len()
            invariant
                i <= entries@.len(),
                out@.len() == i,
                forall|j: int|
                    0 <= j < i ==> api_entry_ok(#[trigger] out@[j], entries@[j]),
            decreases entries@.len() - i,
        {
            out.push(to_api_entry(&entries[i]));
            i = i + 1;
        }
        out
    }
}

} // verus!
