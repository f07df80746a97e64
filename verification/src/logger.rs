//! The logging configuration and the rotation rules: when a file rotates,
//! what its backups are named, which backups are too old to keep, and when
//! a periodic cleanup is due. Opening, renaming and deleting the files is
//! done outside the library against these decisions.

use vstd::prelude::*;

use crate::strutil::dec_spec;
use crate::sys::config_dir_string;

verus! {

/// The log level, most severe first.
#[derive(Debug, Clone, Copy, PartialEq, Eq, Structural)]
pub enum LogLevel {
    Off,
    Error,
    Warn,
    Info,
    Debug,
    Trace,
}

/// How a log file rotates: the size that triggers rotation, how long
/// backups are kept, and how many there may be.
#[derive(Debug, Clone)]
pub struct LogRotationConfig {
    pub max_size_bytes: u64,
    pub retention_days: u32,
    pub max_backup_count: u32,
}

impl Default for LogRotationConfig {
    /// Two hundred mebibytes per file, seven days, five backups.
    fn default() -> (r: LogRotationConfig)
        ensures
            r.max_size_bytes == 209715200u64,
            r.retention_days == 7u32,
            r.max_backup_count == 5u32,
    {
        LogRotationConfig { max_size_bytes: 200 * 1024 * 1024, retention_days: 7, max_backup_count: 5 }
    }
}

/// The logger's settings: level, optional file, whether the process speaks
/// a protocol on its standard streams, and the rotation rules.
#[derive(Debug, Clone)]
pub struct LogConfig {
    pub level: LogLevel,
    pub file_path: Option<String>,
    pub is_mcp_mode: bool,
    pub rotation: LogRotationConfig,
}

impl Default for LogConfig {
    /// Warnings only, no file, ordinary mode, default rotation.
    fn default() -> (r: LogConfig)
        ensures
            r.level == LogLevel::Warn,
            r.file_path is None,
            !r.is_mcp_mode,
            r.rotation.max_size_bytes == 209715200u64,
            r.rotation.retention_days == 7u32,
            r.rotation.max_backup_count == 5u32,
    {
        LogConfig {
            level: LogLevel::Warn,
            file_path: None,
            is_mcp_mode: false,
            rotation: Default::default(),
        }
    }
}

/// How many seconds pass between periodic cleanups.
pub const LOG_CLEANUP_INTERVAL_SECS: u64 = 60;

/// The log file used in GUI mode, under the platform's configuration
/// directory when it reports one.
pub fn gui_log_path() -> (r: Option<String>)
    ensures
        r matches Some(p) ==> exists|h: Seq<char>| p@ == h + "/sanshu/log/acemcp.log"@,
{
    match config_dir_string() {
        Some(dir) => {
            let mut p = dir;
            let ghost base = p@;
            p.append("/sanshu/log/acemcp.log");
            proof {
                assert(p@ == base + "/sanshu/log/acemcp.log"@);
            }
            Some(p)
        },
        None => None,
    }
}

/// True when the file has grown enough to rotate.
pub fn needs_rotation(current_size: u64, rotation: &LogRotationConfig) -> (r: bool)
    ensures
        r == (current_size >= rotation.max_size_bytes),
{
    current_size >= rotation.max_size_bytes
}

/// The name of the `index`-th backup of a log file.
pub fn backup_file_name(log_name: &str, index: u32) -> (r: String)
    ensures
        r@ == log_name@ + "."@ + dec_spec(index as nat),
{
    let mut s = String::from_str(log_name);
    s.append(".");
    let idx = crate::strutil::u64_to_string(index as u64);
    s.append(idx.as_str());
    proof {
        reveal_strlit(".");
        assert(s@ =~= log_name@ + "."@ + dec_spec(index as nat));
    }
    s
}

/// The renames a rotation performs, oldest backup first: each backup moves
/// one index up, so index one is free for the current file.
pub fn rotation_renames(max_backup_count: u32) -> (r: Vec<(u32, u32)>)
    ensures
        max_backup_count == 0 ==> r@.len() == 0,
        max_backup_count > 0 ==> r@.len() == max_backup_count - 1,
        forall|k: int|
            0 <= k < r@.len() ==> (#[trigger] r@[k]).0 == max_backup_count - 1 - k && r@[k].1
                == max_backup_count - k,
{
    let mut out: Vec<(u32, u32)> = Vec::new();
    if max_backup_count == 0 {
        return out;
    }
    let mut i: u32 = max_backup_count - 1;
    while i >= 1
        invariant
            max_backup_count > 0,
            i <= max_backup_count - 1,
            out@.len() == max_backup_count - 1 - i,
            forall|k: int|
                0 <= k < out@.len() ==> (#[trigger] out@[k]).0 == max_backup_count - 1 - k
                    && out@[k].1 == max_backup_count - k,
        decreases i,
    {
        out.push((i, i + 1));
        i = i - 1;
    }
    out
}

/// The moment before which a backup is too old to keep: the retention
/// window back from now, saturating at the epoch.
pub fn retention_threshold_secs(now_secs: u64, rotation: &LogRotationConfig) -> (r: u64)
    ensures
        rotation.retention_days as int * 86400 <= now_secs as int ==> r == now_secs as int
            - rotation.retention_days as int * 86400,
        rotation.retention_days as int * 86400 > now_secs as int ==> r == 0,
{
    let retention_secs: u64 = (rotation.retention_days as u64) * 86400;
    if retention_secs <= now_secs {
        now_secs - retention_secs
    } else {
        0
    }
}

/// True when a backup last changed before the threshold and goes away.
pub fn backup_expired(modified_secs: u64, threshold_secs: u64) -> (r: bool)
    ensures
        r == (modified_secs < threshold_secs),
{
    modified_secs < threshold_secs
}

/// True when enough time has passed since the last periodic cleanup; a
/// clock that ran backwards also triggers one.
pub fn cleanup_due(last_cleanup_secs: u64, now_secs: u64) -> (r: bool)
    ensures
        now_secs >= last_cleanup_secs ==> r == (now_secs - last_cleanup_secs
            >= LOG_CLEANUP_INTERVAL_SECS),
        now_secs < last_cleanup_secs ==> r,
{
    if now_secs >= last_cleanup_secs {
        now_secs - last_cleanup_secs >= LOG_CLEANUP_INTERVAL_SECS
    } else {
        true
    }
}

} // verus!
