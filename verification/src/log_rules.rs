//! Rules of the log files: their configuration and defaults, the node id in their names, which
//! entries of the log directory a cleanup removes, and the sanitising of written bytes so that
//! the files stay plain text.

use vstd::prelude::*;
use crate::etdr_build::text;
use crate::text::trim_seq;

verus! {

/// Logging configuration: directory, file name, rotation size, retention, level, and whether a
/// separate debug file is written.
#[derive(Debug, Clone)]
pub struct LoggingConfig {
    pub log_dir: String,
    pub log_file_name: String,
    pub max_file_size: u64,
    pub retention_days: u64,
    pub log_level: String,
    pub enable_debug_file: bool,
}

/// Five mebibytes, the default rotation size.
pub const DEFAULT_MAX_FILE_SIZE: u64 = 5 * 1024 * 1024;

impl Default for LoggingConfig {
    fn default() -> (r: LoggingConfig)
        ensures
            r.log_dir@ == "./logs"@,
            r.log_file_name@ == "rct"@,
            r.max_file_size == DEFAULT_MAX_FILE_SIZE,
            r.retention_days == 7,
            r.log_level@ == "info"@,
            !r.enable_debug_file,
    {
        LoggingConfig {
            log_dir: text("./logs"),
            log_file_name: text("rct"),
            max_file_size: DEFAULT_MAX_FILE_SIZE,
            retention_days: 7,
            log_level: text("info"),
            enable_debug_file: false,
        }
    }
}

/// Configuration of the log cleanup: directory, file name prefix of the old flat files, log
/// retention, cleanup interval, and the retention of statistics files (`None`: never removed).
#[derive(Debug, Clone)]
pub struct CleanupConfig {
    pub log_dir: String,
    pub log_file_pattern: String,
    pub retention_days: u64,
    pub cleanup_interval_seconds: u64,
    pub statistics_retention_days: Option<u64>,
}

impl Default for CleanupConfig {
    fn default() -> (r: CleanupConfig)
        ensures
            r.log_dir@ == "./logs"@,
            r.log_file_pattern@ == "rct"@,
            r.retention_days == 7,
            r.cleanup_interval_seconds == 3600,
            r.statistics_retention_days == Some(30u64),
    {
        CleanupConfig {
            log_dir: text("./logs"),
            log_file_pattern: text("rct"),
            retention_days: 7,
            cleanup_interval_seconds: 3600,
            statistics_retention_days: Some(30),
        }
    }
}

/// Name for what `str::parse::<u64>` gives for a text (`None` where it returns an error).
pub uninterp spec fn parsed_u64(s: Seq<char>) -> Option<u64>;

/// Wraps `str::parse::<u64>`, its error mapped to `None`.
#[verifier::external_body]
fn parse_u64(s: &str) -> (r: Option<u64>)
    ensures
        r == parsed_u64(s@),
{
    s.parse::<u64>().ok()
}

/// A numeric setting: the parsed value of `v`, or `d` when absent or not a number.
pub open spec fn u64_setting(v: Option<String>, d: u64) -> u64 {
    match v {
        Some(s) => match parsed_u64(s@) {
            Some(n) => n,
            None => d,
        },
        None => d,
    }
}

/// A text setting: `v`, or `d` when absent.
pub open spec fn text_setting(v: Option<String>, d: Seq<char>) -> Seq<char> {
    match v {
        Some(s) => s@,
        None => d,
    }
}

/// Whether a flag setting is on: `1`, `true` or `yes`, around white space.
pub open spec fn flag_on(v: Option<String>) -> bool {
    match v {
        Some(s) => trim_seq(s@) == "1"@ || trim_seq(s@) == "true"@ || trim_seq(s@) == "yes"@,
        None => false,
    }
}

fn flag_setting(v: &Option<String>) -> (r: bool)
    ensures
        r == flag_on(*v),
{
    match v {
        Some(s) => {
            let t = crate::text::trim_str(s.as_str());
            t == text("1") || t == text("true") || t == text("yes")
        },
        None => false,
    }
}

fn u64_or(v: &Option<String>, d: u64) -> (r: u64)
    ensures
        r == u64_setting(*v, d),
{
    match v {
        Some(s) => match parse_u64(s.as_str()) {
            Some(n) => n,
            None => d,
        },
        None => d,
    }
}

fn text_or(v: Option<String>, d: &str) -> (r: String)
    ensures
        r@ == text_setting(v, d@),
{
    match v {
        Some(s) => s,
        None => text(d),
    }
}

/// The logging configuration given the values of its settings (each `None` when unset): the
/// directory, file name, rotation size, retention, level and debug-file flag.
pub fn logging_config_from_settings(
    log_dir: Option<String>,
    log_file_name: Option<String>,
    max_file_size: Option<String>,
    retention_days: Option<String>,
    log_level: Option<String>,
    debug_file: Option<String>,
) -> (r: LoggingConfig)
    ensures
        r.log_dir@ == text_setting(log_dir, "./logs"@),
        r.log_file_name@ == text_setting(log_file_name, "rct"@),
        r.max_file_size == u64_setting(max_file_size, DEFAULT_MAX_FILE_SIZE),
        r.retention_days == u64_setting(retention_days, 7),
        r.log_level@ == text_setting(log_level, "info"@),
        r.enable_debug_file == flag_on(debug_file),
{
    let size = u64_or(&max_file_size, DEFAULT_MAX_FILE_SIZE);
    let days = u64_or(&retention_days, 7);
    let dbg = flag_setting(&debug_file);
    LoggingConfig {
        log_dir: text_or(log_dir, "./logs"),
        log_file_name: text_or(log_file_name, "rct"),
        max_file_size: size,
        retention_days: days,
        log_level: text_or(log_level, "info"),
        enable_debug_file: dbg,
    }
}

/// Whether `c` is a lowercase hexadecimal digit.
pub open spec fn is_lower_hex(c: char) -> bool {
    ('0' <= c && c <= '9') || ('a' <= c && c <= 'f')
}

/// Wraps `uuid::Uuid::new_v4().simple().to_string()`: a random identifier written, as the
/// crate's simple format does, as 32 lowercase hexadecimal digits. Which digits is left open.
#[verifier::external_body]
fn random_uuid_simple() -> (s: String)
    ensures
        s@.len() == 32,
        forall|i: int| 0 <= i < 32 ==> #[trigger] is_lower_hex(s@[i]),
{
    uuid::Uuid::new_v4().simple().to_string()
}

/// The configured node id, when set and not empty.
pub open spec fn configured_id(c: Option<String>) -> Option<Seq<char>> {
    match c {
        Some(s) => if s@.len() > 0 { Some(s@) } else { None },
        None => None,
    }
}

/// The node id in log file names: the configured one when set and not empty, else the first six
/// digits of a random identifier.
pub fn node_id_from(configured: Option<String>) -> (r: String)
    ensures
        configured_id(configured) matches Some(v) ==> r@ == v,
        configured_id(configured) is None ==> r@.len() == 6
            && forall|i: int| 0 <= i < 6 ==> #[trigger] is_lower_hex(r@[i]),
{
    match configured {
        Some(s) => {
            if s.as_str().is_empty() {
                first_six(random_uuid_simple())
            } else {
                s
            }
        },
        None => first_six(random_uuid_simple()),
    }
}

fn first_six(u: String) -> (r: String)
    requires
        u@.len() == 32,
        forall|i: int| 0 <= i < 32 ==> #[trigger] is_lower_hex(u@[i]),
    ensures
        r@ == u@.subrange(0, 6),
        r@.len() == 6,
        forall|i: int| 0 <= i < 6 ==> #[trigger] is_lower_hex(r@[i]),
{
    let t = u.as_str();
    let n = t.unicode_len();
    let sub = t.substring_char(0, 6);
    let r = sub.to_owned();
    proof {
        assert forall|i: int| 0 <= i < 6 implies #[trigger] is_lower_hex(r@[i]) by {
            assert(r@[i] == u@[i]);
        }
    }
    r
}

/// Whether `b` makes a log file unsafe as plain text: NUL, or a control byte other than tab,
/// line feed and carriage return.
pub open spec fn is_bad_byte(b: u8) -> bool {
    b == 0 || (1 <= b <= 0x1F && b != 0x09 && b != 0x0A && b != 0x0D)
}

/// What is written for byte `b`: `\0` (backslash, zero) for NUL, `.` for another bad byte, the
/// byte itself otherwise.
pub open spec fn byte_written(b: u8) -> Seq<u8> {
    if b == 0 {
        seq![0x5Cu8, 0x30u8]
    } else if is_bad_byte(b) {
        seq![0x2Eu8]
    } else {
        seq![b]
    }
}

/// What is written for `s`, byte by byte.
pub open spec fn sanitized(s: Seq<u8>) -> Seq<u8>
    decreases s.len(),
{
    if s.len() == 0 {
        Seq::empty()
    } else {
        sanitized(s.drop_last()) + byte_written(s.last())
    }
}

/// A writer that writes plain-text-safe bytes to an inner writer (see [`sanitized`]).
pub struct SanitizeWriter<W> {
    inner: W,
}

impl<W> SanitizeWriter<W> {
    /// The inner writer.
    pub closed spec fn inner(&self) -> W {
        self.inner
    }

    /// A sanitising writer around `inner`.
    pub fn new(inner: W) -> (r: SanitizeWriter<W>)
        ensures
            r.inner() == inner,
    {
        SanitizeWriter { inner }
    }

    /// The inner writer, to work on it directly.
    pub fn get_inner_mut(&mut self) -> (r: &mut W)
        ensures
            *r == old(self).inner(),
            final(self).inner() == *final(r),
    {
        &mut self.inner
    }

    /// Whether `buf` holds a bad byte (see [`is_bad_byte`]).
    pub fn has_bad_bytes(buf: &[u8]) -> (r: bool)
        ensures
            r == exists|i: int| 0 <= i < buf@.len() && is_bad_byte(#[trigger] buf@[i]),
    {
        let mut i: usize = 0;
        while i < buf.len()
            invariant
                i <= buf@.len(),
                forall|j: int| 0 <= j < i ==> !is_bad_byte(#[trigger] buf@[j]),
            decreases buf@.len() - i,
        {
            let b = buf[i];
            if b == 0 || (b >= 0x01 && b <= 0x1F && b != 0x09 && b != 0x0A && b != 0x0D) {
                return true;
            }
            i = i + 1;
        }
        false
    }

    /// The bytes written for `buf`: `buf` itself when it holds no bad byte, else each byte as
    /// [`byte_written`] says.
    pub fn sanitize(buf: &[u8]) -> (r: Vec<u8>)
        ensures
            r@ == sanitized(buf@),
    {
        if !Self::has_bad_bytes(buf) {
            let mut out: Vec<u8> = Vec::new();
            crate::wire::push_bytes(&mut out, buf);
            proof {
                lemma_sanitized_clean(buf@);
                assert(out@ =~= buf@);
            }
            return out;
        }
        let mut out: Vec<u8> = Vec::new();
        let mut i: usize = 0;
        while i < buf.len()
            invariant
                i <= buf@.len(),
                out@ == sanitized(buf@.subrange(0, i as int)),
            decreases buf@.len() - i,
        {
            let b = buf[i];
            proof {
                assert(buf@.subrange(0, i + 1).drop_last() =~= buf@.subrange(0, i as int));
            }
            if b == 0 {
                out.push(0x5C);
                out.push(0x30);
            } else if b >= 0x01 && b <= 0x1F && b != 0x09 && b != 0x0A && b != 0x0D {
                out.push(0x2E);
            } else {
                out.push(b);
            }
            proof {
                assert(out@ =~= sanitized(buf@.subrange(0, i + 1)));
            }
            i = i + 1;
        }
        proof {
            assert(buf@.subrange(0, buf@.len() as int) =~= buf@);
        }
        out
    }
}

/// Bytes without a bad byte are written as they are.
pub proof fn lemma_sanitized_clean(s: Seq<u8>)
    requires
        forall|i: int| 0 <= i < s.len() ==> !is_bad_byte(#[trigger] s[i]),
    ensures
        sanitized(s) == s,
    decreases s.len(),
{
    if s.len() > 0 {
        assert forall|i: int| 0 <= i < s.drop_last().len() implies !is_bad_byte(#[trigger] s.drop_last()[i]) by {
            assert(s.drop_last()[i] == s[i]);
        }
        lemma_sanitized_clean(s.drop_last());
        assert(!is_bad_byte(s[s.len() - 1]));
        assert(s.drop_last() + seq![s.last()] =~= s);
    }
}

/// What is written never holds a bad byte.
pub proof fn law_sanitized_is_clean(s: Seq<u8>)
    ensures
        forall|i: int| 0 <= i < sanitized(s).len() ==> !is_bad_byte(#[trigger] sanitized(s)[i]),
    decreases s.len(),
{
    if s.len() > 0 {
        law_sanitized_is_clean(s.drop_last());
        let a = sanitized(s.drop_last());
        let b = byte_written(s.last());
        assert forall|i: int| 0 <= i < sanitized(s).len() implies !is_bad_byte(#[trigger] sanitized(s)[i]) by {
            if i < a.len() {
                assert(sanitized(s)[i] == a[i]);
            } else {
                assert(sanitized(s)[i] == b[i - a.len()]);
            }
        }
    }
}

/// Writing two pieces one after the other writes what writing them at once writes.
pub proof fn law_sanitized_concat(a: Seq<u8>, b: Seq<u8>)
    ensures
        sanitized(a + b) == sanitized(a) + sanitized(b),
    decreases b.len(),
{
    if b.len() == 0 {
        assert(a + b =~= a);
        assert(sanitized(a) + sanitized(b) =~= sanitized(a));
    } else {
        law_sanitized_concat(a, b.drop_last());
        assert((a + b).drop_last() =~= a + b.drop_last());
        assert((a + b).last() == b.last());
        assert(sanitized(a) + sanitized(b.drop_last()) + byte_written(b.last()) =~= sanitized(a) + (sanitized(b.drop_last()) + byte_written(b.last())));
    }
}

/// What a cleanup of the log directory does with one of its entries.
#[derive(Debug, Clone, Copy, PartialEq, Eq, Structural)]
pub enum LogEntryAction {
    /// The statistics directory: remove its files last modified before this time (ms).
    CleanStatistics(i64),
    /// A day directory older than the retention: remove it whole.
    RemoveDir,
    /// An old log file of the former flat layout: remove it.
    RemoveFile,
    /// Leave the entry.
    Keep,
}

/// The number of hyphens in `s`.
pub open spec fn hyphens(s: Seq<char>) -> nat
    decreases s.len(),
{
    if s.len() == 0 {
        0
    } else {
        hyphens(s.drop_last()) + if s.last() == '-' { 1nat } else { 0nat }
    }
}

/// Whether `s` names a day directory: ten characters, digits and exactly two hyphens.
pub open spec fn is_day_dir_name(s: Seq<char>) -> bool {
    &&& s.len() == 10
    &&& hyphens(s) == 2
    &&& forall|i: int| 0 <= i < s.len() ==> (('0' <= #[trigger] s[i] && s[i] <= '9') || s[i] == '-')
}

/// Whether `a` sorts before `b`, character by character (the order of `str`).
pub open spec fn text_lt(a: Seq<char>, b: Seq<char>) -> bool
    decreases a.len(),
{
    if a.len() == 0 {
        b.len() > 0
    } else if b.len() == 0 {
        false
    } else if a[0] != b[0] {
        a[0] < b[0]
    } else {
        text_lt(a.drop_first(), b.drop_first())
    }
}

/// Whether `p` begins `s`.
pub open spec fn starts_with(s: Seq<char>, p: Seq<char>) -> bool {
    p.len() <= s.len() && s.subrange(0, p.len() as int) == p
}

/// What a cleanup does with an entry named `name` of the log directory: the statistics
/// directory is cleaned when statistics expire; a day directory named before `cutoff_day` is
/// removed; a file whose name begins with `pattern` and that was last modified (`mtime`, ms;
/// `None` when unknown) before `cutoff_ms` is removed; everything else stays.
pub open spec fn log_entry_action_of(is_dir: bool, is_file: bool, name: Seq<char>, cutoff_day: Seq<char>, stats_cutoff: Option<i64>, pattern: Seq<char>, mtime: Option<i64>, cutoff_ms: i64) -> LogEntryAction {
    if is_dir {
        if name == "statistics"@ {
            match stats_cutoff {
                Some(c) => LogEntryAction::CleanStatistics(c),
                None => LogEntryAction::Keep,
            }
        } else if is_day_dir_name(name) && text_lt(name, cutoff_day) {
            LogEntryAction::RemoveDir
        } else {
            LogEntryAction::Keep
        }
    } else if is_file && starts_with(name, pattern) && (mtime matches Some(t) && t < cutoff_ms) {
        LogEntryAction::RemoveFile
    } else {
        LogEntryAction::Keep
    }
}

fn is_day_dir_name_exec(s: &str) -> (r: bool)
    ensures
        r == is_day_dir_name(s@),
{
    let n = s.unicode_len();
    if n != 10 {
        return false;
    }
    let mut count: usize = 0;
    let mut ok = true;
    let mut i: usize = 0;
    while i < n
        invariant
            n == s@.len(),
            i <= n,
            count == hyphens(s@.subrange(0, i as int)),
            count <= i,
            ok == forall|j: int| 0 <= j < i ==> (('0' <= #[trigger] s@[j] && s@[j] <= '9') || s@[j] == '-'),
        decreases n - i,
    {
        let c = s.get_char(i);
        proof {
            assert(s@.subrange(0, i + 1).drop_last() =~= s@.subrange(0, i as int));
        }
        if c == '-' {
            count = count + 1;
        }
        if !(('0' <= c && c <= '9') || c == '-') {
            ok = false;
        }
        i = i + 1;
    }
    proof {
        assert(s@.subrange(0, n as int) =~= s@);
    }
    ok && count == 2
}

fn text_lt_exec(a: &str, b: &str) -> (r: bool)
    ensures
        r == text_lt(a@, b@),
{
    let na = a.unicode_len();
    let nb = b.unicode_len();
    let mut i: usize = 0;
    proof {
        assert(a@.subrange(0, na as int) =~= a@);
        assert(b@.subrange(0, nb as int) =~= b@);
    }
    while i < na && i < nb
        invariant
            na == a@.len(),
            nb == b@.len(),
            i <= na && i <= nb,
            text_lt(a@, b@) == text_lt(a@.subrange(i as int, na as int), b@.subrange(i as int, nb as int)),
        decreases na - i,
    {
        let ca = a.get_char(i);
        let cb = b.get_char(i);
        let ghost sa = a@.subrange(i as int, na as int);
        let ghost sb = b@.subrange(i as int, nb as int);
        proof {
            assert(sa[0] == ca);
            assert(sb[0] == cb);
            assert(sa.drop_first() =~= a@.subrange(i + 1, na as int));
            assert(sb.drop_first() =~= b@.subrange(i + 1, nb as int));
        }
        if ca != cb {
            return ca < cb;
        }
        i = i + 1;
    }
    i == na && i < nb
}

fn starts_with_exec(s: &str, p: &str) -> (r: bool)
    ensures
        r == starts_with(s@, p@),
{
    let ns = s.unicode_len();
    let np = p.unicode_len();
    if np > ns {
        return false;
    }
    let mut i: usize = 0;
    while i < np
        invariant
            ns == s@.len(),
            np == p@.len(),
            np <= ns,
            i <= np,
            forall|j: int| 0 <= j < i ==> s@[j] == p@[j],
        decreases np - i,
    {
        if s.get_char(i) != p.get_char(i) {
            proof {
                assert(s@.subrange(0, np as int)[i as int] != p@[i as int]);
            }
            return false;
        }
        i = i + 1;
    }
    proof {
        assert(s@.subrange(0, np as int) =~= p@);
    }
    true
}

/// What a cleanup does with one entry of the log directory (see [`log_entry_action_of`]).
pub fn log_entry_action(is_dir: bool, is_file: bool, name: &str, cutoff_day: &str, stats_cutoff: Option<i64>, pattern: &str, mtime: Option<i64>, cutoff_ms: i64) -> (r: LogEntryAction)
    ensures
        r == log_entry_action_of(is_dir, is_file, name@, cutoff_day@, stats_cutoff, pattern@, mtime, cutoff_ms),
{
    if is_dir {
        if text("statistics") == text(name) {
            match stats_cutoff {
                Some(c) => LogEntryAction::CleanStatistics(c),
                None => LogEntryAction::Keep,
            }
        } else if is_day_dir_name_exec(name) && text_lt_exec(name, cutoff_day) {
            LogEntryAction::RemoveDir
        } else {
            LogEntryAction::Keep
        }
    } else if is_file && starts_with_exec(name, pattern) {
        match mtime {
            Some(t) => if t < cutoff_ms { LogEntryAction::RemoveFile } else { LogEntryAction::Keep },
            None => LogEntryAction::Keep,
        }
    } else {
        LogEntryAction::Keep
    }
}

/// Bytes written between two flushes of a log file (64 KiB).
pub const FLUSH_INTERVAL_BYTES: usize = 65536;

/// Whether a log writer must open the file of `today` before writing: it has no open file, or
/// its file belongs to another day.
pub fn needs_new_file(has_file: bool, current_date: &str, today: &str) -> (r: bool)
    ensures
        r == (!has_file || current_date@ != today@),
{
    !has_file || text(current_date) != text(today)
}

/// Whether the current log file must be rotated for its size: rotation by size is on (a
/// positive limit), a file is open for a day, and its size (`None` when it cannot be read)
/// reached the limit.
pub fn needs_size_rotation(max_file_size: u64, current_date: &str, file_len: Option<u64>) -> (r: bool)
    ensures
        r == (max_file_size != 0 && current_date@.len() > 0 && (file_len matches Some(l) && l >= max_file_size)),
{
    if max_file_size == 0 || current_date.is_empty() {
        return false;
    }
    match file_len {
        Some(l) => l >= max_file_size,
        None => false,
    }
}

/// The count of bytes written since the last flush after `n` more bytes, and whether the
/// writer flushes (and checks the size) now, which starts the count again.
pub fn after_write(bytes_since_flush: usize, n: usize) -> (r: (usize, bool))
    requires
        bytes_since_flush + n <= usize::MAX,
    ensures
        r.1 == (bytes_since_flush + n >= FLUSH_INTERVAL_BYTES),
        r.0 == if r.1 { 0 } else { bytes_since_flush + n },
{
    let total = bytes_since_flush + n;
    if total >= FLUSH_INTERVAL_BYTES {
        (0, true)
    } else {
        (total, false)
    }
}

/// The name of a day's log file: the file name, a hyphen, the suffix and `.log`.
pub fn log_file_name_for(log_file_name: &str, suffix: &str) -> (r: String)
    ensures
        r@ == log_file_name@ + "-"@ + suffix@ + ".log"@,
{
    text(log_file_name).concat("-").concat(suffix).concat(".log")
}

/// The name a log file is copied to when rotated for its size: the file name, the suffix and
/// the time of the rotation, joined by hyphens, and `.log`.
pub fn rotated_file_name_for(log_file_name: &str, suffix: &str, stamp: &str) -> (r: String)
    ensures
        r@ == log_file_name@ + "-"@ + suffix@ + "-"@ + stamp@ + ".log"@,
{
    text(log_file_name).concat("-").concat(suffix).concat("-").concat(stamp).concat(".log")
}

} // verus!
