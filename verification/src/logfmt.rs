//! Log record text: severity levels, UTC timestamp text, the stable record
//! shape `<timestamp> [<LEVEL>] <message>`, and the names of rotated log
//! files.

use vstd::prelude::*;
use vstd::string::*;

verus! {

/// Last UTC second that the timestamp formatters accept (end of year 9999).
pub const TIMESTAMP_LIMIT_SECS: u64 = 253402300799;

/// Severity of a log record.
#[derive(Clone, Copy, PartialEq, Eq, Structural, Debug)]
pub enum Level {
    Info,
    Warn,
    Error,
}

impl Level {
    /// The text that stands for this level in a record.
    pub open spec fn spec_label(self) -> Seq<char> {
        match self {
            Level::Info => "INFO"@,
            Level::Warn => "WARN"@,
            Level::Error => "ERROR"@,
        }
    }

    pub fn label(&self) -> (r: &'static str)
        ensures
            r@ == self.spec_label(),
    {
        match self {
            Level::Info => "INFO",
            Level::Warn => "WARN",
            Level::Error => "ERROR",
        }
    }
}

/// The text `"%Y-%m-%d %H:%M:%S UTC"` for a count of UTC seconds; a function
/// of the seconds alone.
pub uninterp spec fn utc_display_of(secs: u64) -> Seq<char>;

/// The text `"%Y%m%d_%H%M%S"` for a count of UTC seconds; a function of the
/// seconds alone.
pub uninterp spec fn utc_stamp_of(secs: u64) -> Seq<char>;

/// Relies on chrono's `DateTime::from_timestamp` (which is `Some` for every
/// second up to the year 9999) and on its `%Y-%m-%d %H:%M:%S UTC` formatter:
/// the text depends on the epoch seconds alone.
#[verifier::external_body]
fn format_utc_display(secs: u64) -> (r: String)
    requires
        secs <= TIMESTAMP_LIMIT_SECS,
    ensures
        r@ == utc_display_of(secs),
{
    let dt = chrono::DateTime::from_timestamp(secs as i64, 0).unwrap();
    dt.format("%Y-%m-%d %H:%M:%S UTC").to_string()
}

/// Relies on chrono's `DateTime::from_timestamp` (which is `Some` for every
/// second up to the year 9999) and on its `%Y%m%d_%H%M%S` formatter: the text
/// depends on the epoch seconds alone.
#[verifier::external_body]
fn format_utc_stamp(secs: u64) -> (r: String)
    requires
        secs <= TIMESTAMP_LIMIT_SECS,
    ensures
        r@ == utc_stamp_of(secs),
{
    let dt = chrono::DateTime::from_timestamp(secs as i64, 0).unwrap();
    dt.format("%Y%m%d_%H%M%S").to_string()
}

/// The one parseable record shape every sink write uses.
pub open spec fn spec_record_text(secs: u64, level: Level, msg: Seq<char>) -> Seq<char> {
    utc_display_of(secs) + " ["@ + level.spec_label() + "] "@ + msg
}

/// Format one record as `<timestamp> [<LEVEL>] <message>`.
pub fn format_record(secs: u64, level: Level, msg: &str) -> (r: String)
    requires
        secs <= TIMESTAMP_LIMIT_SECS,
    ensures
        r@ == spec_record_text(secs, level, msg@),
{
    let mut out = format_utc_display(secs);
    out.append(" [");
    out.append(level.label());
    out.append("] ");
    out.append(msg);
    proof {
        assert(out@ =~= spec_record_text(secs, level, msg@));
    }
    out
}

/// The name a log file created at `secs` carries.
pub open spec fn spec_log_file_name(secs: u64) -> Seq<char> {
    "gdrive_sync_"@ + utc_stamp_of(secs) + ".log"@
}

/// Name of a fresh log file: `gdrive_sync_<UTC stamp>.log`.
pub fn log_file_name(secs: u64) -> (r: String)
    requires
        secs <= TIMESTAMP_LIMIT_SECS,
    ensures
        r@ == spec_log_file_name(secs),
{
    let mut out = "gdrive_sync_".to_owned();
    let stamp = format_utc_stamp(secs);
    out.append(stamp.as_str());
    out.append(".log");
    proof {
        assert(out@ =~= spec_log_file_name(secs));
    }
    out
}

/// Every fresh log file's name matches the sink's own naming pattern, so a
/// rotation's retention count sees the file it just created.
pub proof fn lemma_fresh_name_matches_pattern(secs: u64)
    ensures
        spec_is_log_file_name(spec_log_file_name(secs)),
{
    let s = spec_log_file_name(secs);
    assert(s.subrange(0, "gdrive_sync_"@.len() as int) =~= "gdrive_sync_"@);
    assert(s.subrange(s.len() - ".log"@.len(), s.len() as int) =~= ".log"@);
}

/// Whether a directory entry name matches the sink's naming pattern.
pub open spec fn spec_is_log_file_name(s: Seq<char>) -> bool {
    &&& s.len() >= "gdrive_sync_"@.len() + ".log"@.len()
    &&& s.subrange(0, "gdrive_sync_"@.len() as int) == "gdrive_sync_"@
    &&& s.subrange(s.len() - ".log"@.len(), s.len() as int) == ".log"@
}

/// Tell whether `name` starts with `gdrive_sync_` and ends with `.log`.
pub fn is_log_file_name(name: &str) -> (r: bool)
    ensures
        r == spec_is_log_file_name(name@),
{
    let prefix = "gdrive_sync_";
    let suffix = ".log";
    let n = name.unicode_len();
    let pn = prefix.unicode_len();
    let sn = suffix.unicode_len();
    if n < pn || n - pn < sn {
        return false;
    }
    let mut i: usize = 0;
    while i < pn
        invariant
            i <= pn,
            n == name@.len(),
            pn == prefix@.len(),
            sn == suffix@.len(),
            prefix@ == "gdrive_sync_"@,
            suffix@ == ".log"@,
            n >= pn + sn,
            forall|j: int| 0 <= j < i ==> name@[j] == prefix@[j],
        decreases pn - i,
    {
        if name.get_char(i) != prefix.get_char(i) {
            proof {
                assert(name@.subrange(0, pn as int)[i as int] == name@[i as int]);
            }
            return false;
        }
        i += 1;
    }
    let mut k: usize = 0;
    while k < sn
        invariant
            k <= sn,
            n == name@.len(),
            pn == prefix@.len(),
            sn == suffix@.len(),
            prefix@ == "gdrive_sync_"@,
            suffix@ == ".log"@,
            n >= pn + sn,
            forall|j: int| 0 <= j < pn ==> name@[j] == prefix@[j],
            forall|j: int| 0 <= j < k ==> name@[n - sn + j] == suffix@[j],
        decreases sn - k,
    {
        if name.get_char(n - sn + k) != suffix.get_char(k) {
            proof {
                assert(name@.subrange(n as int - sn as int, n as int)[k as int]
                    == name@[n - sn + k]);
            }
            return false;
        }
        k += 1;
    }
    proof {
        assert(name@.subrange(0, pn as int) =~= prefix@);
        assert(name@.subrange(n as int - sn as int, n as int) =~= suffix@);
    }
    true
}

} // verus!
