//! The upload dispatcher's decisions: which detected paths are uploaded,
//! under what remote name, no earlier than when, and what each outcome logs.
//! The caller performs the waiting, the file read and the network call, and
//! hands every outcome back; no outcome stops the pipeline.

use vstd::prelude::*;
use vstd::string::*;
use crate::logfmt::Level;

verus! {

/// How long a detected file is left alone before its bytes are read, so that
/// a writer that has not yet closed it can finish.
pub const SETTLE_DELAY_SECS: u64 = 2;

/// A path separator, either direction.
pub open spec fn spec_is_sep(c: char) -> bool {
    c == '/' || c == '\\'
}

/// The final segment of a path: the longest suffix free of separators.
pub open spec fn spec_file_name_of(s: Seq<char>) -> Seq<char>
    decreases s.len(),
{
    if s.len() == 0 {
        s
    } else if spec_is_sep(s.last()) {
        Seq::empty()
    } else {
        spec_file_name_of(s.drop_last()).push(s.last())
    }
}

proof fn lemma_file_name_suffix(s: Seq<char>, idx: int)
    requires
        0 <= idx <= s.len(),
        forall|j: int| idx <= j < s.len() ==> !spec_is_sep(#[trigger] s[j]),
        idx == 0 || spec_is_sep(s[idx - 1]),
    ensures
        spec_file_name_of(s) == s.subrange(idx, s.len() as int),
    decreases s.len(),
{
    if idx == s.len() {
        assert(spec_file_name_of(s) =~= s.subrange(idx, s.len() as int));
    } else {
        lemma_file_name_suffix(s.drop_last(), idx);
        assert(spec_file_name_of(s) =~= s.subrange(idx, s.len() as int));
    }
}

/// The display name a path uploads under: its final segment.
pub fn file_display_name(path: &str) -> (r: String)
    ensures
        r@ == spec_file_name_of(path@),
{
    let n = path.unicode_len();
    let mut idx: usize = n;
    while idx > 0
        invariant_except_break
            idx <= n,
            n == path@.len(),
            forall|j: int| idx <= j < n ==> !spec_is_sep(#[trigger] path@[j]),
        ensures
            idx <= n,
            n == path@.len(),
            forall|j: int| idx <= j < n ==> !spec_is_sep(#[trigger] path@[j]),
            idx == 0 || spec_is_sep(path@[idx - 1]),
        decreases idx,
    {
        let c = path.get_char(idx - 1);
        if c == '/' || c == '\\' {
            break;
        }
        idx -= 1;
    }
    proof {
        lemma_file_name_suffix(path@, idx as int);
    }
    let seg = path.substring_char(idx, n);
    seg.to_owned()
}

/// What the dispatcher does with one detected path.
pub enum UploadPlan {
    /// The entry is not a regular file (a directory, or already vanished):
    /// it never reaches the remote API.
    Skip,
    /// Upload under `file_name`, no earlier than `not_before`.
    Upload { file_name: String, not_before: u64 },
}

/// The plan `plan_upload` owes one path.
pub open spec fn spec_plan_is_for(
    plan: UploadPlan,
    path: Seq<char>,
    is_regular_file: bool,
    received_at: u64,
) -> bool {
    &&& !is_regular_file ==> (plan is Skip)
    &&& is_regular_file ==> (plan matches UploadPlan::Upload { file_name, not_before }
        && file_name@ == spec_file_name_of(path)
        && not_before == received_at + SETTLE_DELAY_SECS)
}

/// Decide one path: skip anything but a regular file; otherwise upload its
/// final segment's name, no earlier than the settle delay after receipt.
pub fn plan_upload(path: &str, is_regular_file: bool, received_at: u64) -> (r: UploadPlan)
    requires
        received_at <= u64::MAX - SETTLE_DELAY_SECS,
    ensures
        spec_plan_is_for(r, path@, is_regular_file, received_at),
{
    if !is_regular_file {
        UploadPlan::Skip
    } else {
        UploadPlan::Upload {
            file_name: file_display_name(path),
            not_before: received_at + SETTLE_DELAY_SECS,
        }
    }
}

/// Plan a whole received batch. Each entry's plan is a function of that entry
/// alone, so no path's failure can change what another is owed.
pub fn plan_batch(paths: &Vec<String>, is_regular_file: &Vec<bool>, received_at: u64) -> (r: Vec<
    UploadPlan,
>)
    requires
        paths@.len() == is_regular_file@.len(),
        received_at <= u64::MAX - SETTLE_DELAY_SECS,
    ensures
        r@.len() == paths@.len(),
        forall|i: int|
            0 <= i < r@.len() ==> spec_plan_is_for(
                #[trigger] r@[i],
                paths@[i]@,
                is_regular_file@[i],
                received_at,
            ),
{
    let mut plans: Vec<UploadPlan> = Vec::new();
    let mut i: usize = 0;
    while i < paths.len()
        invariant
            i <= paths@.len(),
            paths@.len() == is_regular_file@.len(),
            received_at <= u64::MAX - SETTLE_DELAY_SECS,
            plans@.len() == i,
            forall|j: int|
                0 <= j < i ==> spec_plan_is_for(
                    #[trigger] plans@[j],
                    paths@[j]@,
                    is_regular_file@[j],
                    received_at,
                ),
        decreases paths@.len() - i,
    {
        let plan = plan_upload(paths[i].as_str(), is_regular_file[i], received_at);
        plans.push(plan);
        i += 1;
    }
    plans
}

/// What one create-with-content request carries to the remote API.
pub struct UploadRequest {
    pub name: String,
    pub parents: Vec<String>,
    pub content_type: String,
}

/// Build the request: the display name, exactly the configured parent folder,
/// and the generic binary content type.
pub fn make_upload_request(file_name: String, parent_folder_id: &str) -> (r: UploadRequest)
    ensures
        r.name@ == file_name@,
        r.parents@.len() == 1,
        r.parents@[0]@ == parent_folder_id@,
        r.content_type@ == "application/octet-stream"@,
{
    let mut parents: Vec<String> = Vec::new();
    parents.push(parent_folder_id.to_owned());
    UploadRequest { name: file_name, parents, content_type: "application/octet-stream".to_owned() }
}

/// How one attempted path ended, as the caller saw it.
pub enum UploadOutcome {
    /// The remote API assigned this identifier.
    Uploaded { remote_id: String },
    /// The file could not be opened (deleted between detection and upload).
    OpenFailed { error_text: String },
    /// The remote API refused or the transfer failed.
    UploadFailed { error_text: String },
}

/// What one outcome puts in the log, and whether the pipeline goes on.
pub struct OutcomeReport {
    pub level: Level,
    pub message: String,
    pub proceed: bool,
}

/// Turn an outcome into its log line. Every outcome, success or failure,
/// leaves `proceed` true: one file's failure never stops the next.
pub fn report_outcome(file_name: &str, outcome: &UploadOutcome) -> (r: OutcomeReport)
    ensures
        r.proceed == true,
        (outcome matches UploadOutcome::Uploaded { remote_id } ==> r.level == Level::Info
            && r.message@ == "Successfully uploaded '"@ + file_name@ + "' with ID: "@
            + remote_id@),
        (outcome matches UploadOutcome::OpenFailed { error_text } ==> r.level == Level::Error
            && r.message@ == "Failed to open file '"@ + file_name@ + "': "@ + error_text@),
        (outcome matches UploadOutcome::UploadFailed { error_text } ==> r.level == Level::Error
            && r.message@ == "Failed to upload '"@ + file_name@ + "'. Error: "@ + error_text@),
{
    match outcome {
        UploadOutcome::Uploaded { remote_id } => {
            let mut msg = "Successfully uploaded '".to_owned();
            msg.append(file_name);
            msg.append("' with ID: ");
            msg.append(remote_id.as_str());
            proof {
                assert(msg@ =~= "Successfully uploaded '"@ + file_name@ + "' with ID: "@
                    + remote_id@);
            }
            OutcomeReport { level: Level::Info, message: msg, proceed: true }
        },
        UploadOutcome::OpenFailed { error_text } => {
            let mut msg = "Failed to open file '".to_owned();
            msg.append(file_name);
            msg.append("': ");
            msg.append(error_text.as_str());
            proof {
                assert(msg@ =~= "Failed to open file '"@ + file_name@ + "': "@ + error_text@);
            }
            OutcomeReport { level: Level::Error, message: msg, proceed: true }
        },
        UploadOutcome::UploadFailed { error_text } => {
            let mut msg = "Failed to upload '".to_owned();
            msg.append(file_name);
            msg.append("'. Error: ");
            msg.append(error_text.as_str());
            proof {
                assert(msg@ =~= "Failed to upload '"@ + file_name@ + "'. Error: "@
                    + error_text@);
            }
            OutcomeReport { level: Level::Error, message: msg, proceed: true }
        },
    }
}

/// The detection line logged when a batch hands the dispatcher a path.
pub fn detection_line(path: &str) -> (r: String)
    ensures
        r@ == "New file detected: "@ + path@,
{
    let mut out = "New file detected: ".to_owned();
    out.append(path);
    out
}

/// The line logged right before a transfer starts.
pub fn uploading_line(file_name: &str) -> (r: String)
    ensures
        r@ == "Uploading '"@ + file_name@ + "' to Google Drive"@,
{
    let mut out = "Uploading '".to_owned();
    out.append(file_name);
    out.append("' to Google Drive");
    proof {
        assert(out@ =~= "Uploading '"@ + file_name@ + "' to Google Drive"@);
    }
    out
}

} // verus!
