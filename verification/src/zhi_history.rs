//! Interaction history for the review popup: what was asked and what the
//! user replied, a few entries per project, in a file named by a short hash
//! of the project path. As with the chat history, files are read and
//! written outside the library.

use vstd::prelude::*;

use crate::digest::{hex_lower_spec, hex_encode, sha2_sha256, sha2_sha256_of, take_bytes};
use crate::history::{normalize_path_v1, normalize_v1_spec};

verus! {

/// One recorded interaction: the shown prompt and the user's reply.
#[derive(Debug, Clone)]
pub struct ZhiHistoryEntry {
    pub id: String,
    pub request_id: String,
    pub prompt: String,
    pub user_reply: String,
    pub timestamp_millis: i64,
    pub source: String,
}

/// The contents of one interaction-history file.
#[derive(Debug, Clone)]
pub struct ZhiHistoryData {
    pub project_path: String,
    pub entries: Vec<ZhiHistoryEntry>,
    pub last_updated_millis: Option<i64>,
}

/// The manager for one project's interaction history.
#[derive(Debug, Clone)]
pub struct ZhiHistoryManager {
    pub project_hash: String,
    pub project_path: String,
    pub max_entries: usize,
}

/// The short project hash this history uses: the first eight bytes of the
/// SHA-256 digest of the normalized path, in lower-case hexadecimal.
pub open spec fn zhi_hash_spec(s: Seq<char>) -> Seq<char> {
    hex_lower_spec(sha2_sha256_of(normalize_v1_spec(s)).take(8))
}

/// The hash of a project path for this history.
pub fn zhi_hash_path(path: &str) -> (r: String)
    ensures
        r@ == zhi_hash_spec(path@),
{
    let normalized = normalize_path_v1(path);
    let digest = sha2_sha256(normalized.as_str());
    let head = take_bytes(&digest, 8);
    hex_encode(&head)
}

/// The last `max` entries, in order.
pub open spec fn zhi_keep_last(s: Seq<ZhiHistoryEntry>, max: int) -> Seq<ZhiHistoryEntry> {
    if s.len() <= max {
        s
    } else {
        s.skip(s.len() - max)
    }
}

/// A copy of an entry, equal to it.
fn copy_zhi_entry(e: &ZhiHistoryEntry) -> (r: ZhiHistoryEntry)
    ensures
        r == *e,
{
    ZhiHistoryEntry {
        id: e.id.clone(),
        request_id: e.request_id.clone(),
        prompt: e.prompt.clone(),
        user_reply: e.user_reply.clone(),
        timestamp_millis: e.timestamp_millis,
        source: e.source.clone(),
    }
}

impl ZhiHistoryManager {
    /// A manager for the project at the given path, with the default cap of
    /// twenty entries.
    pub fn new(project_path: &str) -> (r: ZhiHistoryManager)
        ensures
            r.project_hash@ == zhi_hash_spec(project_path@),
            r.project_path@ == project_path@,
            r.max_entries == 20,
    {
        ZhiHistoryManager {
            project_hash: zhi_hash_path(project_path),
            project_path: String::from_str(project_path),
            max_entries: 20,
        }
    }

    /// The same manager with another entry cap.
    pub fn with_max_entries(self, max: usize) -> (r: ZhiHistoryManager)
        ensures
            r.project_hash == self.project_hash,
            r.project_path == self.project_path,
            r.max_entries == max,
    {
        ZhiHistoryManager { max_entries: max, ..self }
    }

    /// The file this project's interaction history is stored in.
    pub fn history_file_path(&self, home: Option<&String>) -> (r: String)
        ensures
            exists|h: Seq<char>|
                r@ == h + "/.sanshu/zhi_history/"@ + self.project_hash@ + ".json"@,
    {
        let mut p = match home {
            Some(h) => h.clone(),
            None => String::from_str("."),
        };
        let ghost base = p@;
        p.append("/.sanshu/zhi_history/");
        p.append(self.project_hash.as_str());
        p.append(".json");
        proof {
            assert(p@ =~= base + "/.sanshu/zhi_history/"@ + self.project_hash@ + ".json"@);
        }
        p
    }

    /// An empty history for this project.
    pub fn empty_history(&self) -> (r: ZhiHistoryData)
        ensures
            r.project_path@ == self.project_path@,
            r.entries@.len() == 0,
            r.last_updated_millis is None,
    {
        ZhiHistoryData {
            project_path: self.project_path.clone(),
            entries: Vec::new(),
            last_updated_millis: None,
        }
    }

    /// Appends one interaction to a history, dropping the oldest entries
    /// from the front until the cap is met.
    pub fn add_entry(
        &self,
        history: ZhiHistoryData,
        request_id: &str,
        prompt: &str,
        user_reply: &str,
        source: &str,
        entry_id: String,
        now_millis: i64,
    ) -> (r: ZhiHistoryData)
        ensures
            r.project_path == history.project_path,
            r.last_updated_millis == Some(now_millis),
            exists|e: ZhiHistoryEntry|
                e.id@ == entry_id@ && e.request_id@ == request_id@ && e.prompt@ == prompt@
                    && e.user_reply@ == user_reply@ && e.timestamp_millis == now_millis
                    && e.source@ == source@ && r.entries@ == #[trigger] zhi_keep_last(
                    history.entries@.push(e),
                    self.max_entries as int,
                ),
    {
        let entry = ZhiHistoryEntry {
            id: entry_id,
            request_id: String::from_str(request_id),
            prompt: String::from_str(prompt),
            user_reply: String::from_str(user_reply),
            timestamp_millis: now_millis,
            source: String::from_str(source),
        };
        let ghost e = entry;
        let mut entries = history.entries;
        entries.push(entry);
        let ghost full = entries@;
        let ghost mut dropped: int = 0;
        while entries.len() > self.max_entries
            invariant
                entries@ == full.skip(dropped),
                0 <= dropped <= full.len(),
                dropped > 0 ==> full.len() - (dropped - 1) > self.max_entries,
            decreases entries@.len(),
        {
            let ghost before = entries@;
            entries.remove(0);
            proof {
                dropped = dropped + 1;
                assert(before.drop_first() =~= full.skip(dropped));
            }
        }
        proof {
            if full.len() <= self.max_entries {
                assert(dropped == 0int);
                assert(full.skip(0) =~= full);
            } else {
                assert(entries@.len() == self.max_entries);
            }
            assert(entries@ =~= zhi_keep_last(full, self.max_entries as int));
            assert(full == history.entries@.push(e));
        }
        ZhiHistoryData {
            project_path: history.project_path,
            entries,
            last_updated_millis: Some(now_millis),
        }
    }

    /// The last `count` entries, oldest first.
    pub fn get_recent(&self, history: &ZhiHistoryData, count: usize) -> (r: Vec<ZhiHistoryEntry>)
        ensures
            r@ == zhi_keep_last(history.entries@, count as int),
    {
        let entries = &history.entries;
        let n = entries.len();
        let start: usize = if n <= count {
            0
        } else {
            n - count
        };
        let mut out: Vec<ZhiHistoryEntry> = Vec::new();
        let mut i: usize = start;
        while i < n
            invariant
                n == entries@.len(),
                start <= i <= n,
                out@ == entries@.subrange(start as int, i as int),
            decreases n - i,
        {
            out.push(copy_zhi_entry(&entries[i]));
            i = i + 1;
            proof {
                assert(out@ =~= entries@.subrange(start as int, i as int));
            }
        }
        proof {
            assert(entries@.subrange(start as int, n as int) =~= zhi_keep_last(
                history.entries@,
                count as int,
            ));
        }
        out
    }

    /// Every entry, oldest first.
    pub fn get_all(&self, history: &ZhiHistoryData) -> (r: Vec<ZhiHistoryEntry>)
        ensures
            r@ == history.entries@,
    {
        let entries = &history.entries;
        let n = entries.len();
        let mut out: Vec<ZhiHistoryEntry> = Vec::new();
        let mut i: usize = 0;
        while i < n
            invariant
                n == entries@.len(),
                i <= n,
                out@ == entries@.subrange(0, i as int),
            decreases n - i,
        {
            out.push(copy_zhi_entry(&entries[i]));
            i = i + 1;
            proof {
                assert(out@ =~= entries@.subrange(0, i as int));
            }
        }
        proof {
            assert(entries@.subrange(0, n as int) =~= entries@);
        }
        out
    }

    /// An emptied history for this project, stamped with the given time.
    pub fn clear(&self, now_millis: i64) -> (r: ZhiHistoryData)
        ensures
            r.project_path@ == self.project_path@,
            r.entries@.len() == 0,
            r.last_updated_millis == Some(now_millis),
    {
        ZhiHistoryData {
            project_path: self.project_path.clone(),
            entries: Vec::new(),
            last_updated_millis: Some(now_millis),
        }
    }
}

} // verus!
