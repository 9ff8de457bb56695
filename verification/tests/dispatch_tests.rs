use gdrive_sync::dispatch::{
    detection_line, file_display_name, make_upload_request, plan_batch, plan_upload,
    report_outcome, uploading_line, UploadOutcome, UploadPlan, SETTLE_DELAY_SECS,
};
use gdrive_sync::logfmt::Level;

#[test]
fn display_name_is_the_final_segment() {
    assert_eq!(file_display_name("D/report.txt"), "report.txt");
    assert_eq!(file_display_name("/watch/dir/data.bin"), "data.bin");
    assert_eq!(file_display_name("C:\\watch\\file.bin"), "file.bin");
    assert_eq!(file_display_name("bare"), "bare");
    assert_eq!(file_display_name("dir/"), "");
    assert_eq!(file_display_name(""), "");
}

#[test]
fn non_regular_entries_are_skipped() {
    // A created directory never reaches the remote API.
    let plan = plan_upload("D/newdir", false, 500);
    assert!(matches!(plan, UploadPlan::Skip));
}

#[test]
fn uploads_wait_for_the_settle_delay() {
    let plan = plan_upload("D/report.txt", true, 500);
    match plan {
        UploadPlan::Upload { file_name, not_before } => {
            assert_eq!(file_name, "report.txt");
            assert_eq!(not_before, 500 + SETTLE_DELAY_SECS);
        },
        UploadPlan::Skip => panic!("a regular file must be uploaded"),
    }
}

#[test]
fn each_path_in_a_batch_is_planned_on_its_own() {
    let paths = vec![
        "D/a.txt".to_string(),
        "D/subdir".to_string(),
        "D/b.txt".to_string(),
    ];
    let regular = vec![true, false, true];
    let plans = plan_batch(&paths, &regular, 100);
    assert_eq!(plans.len(), 3);
    assert!(matches!(&plans[0], UploadPlan::Upload { file_name, not_before }
        if file_name == "a.txt" && *not_before == 102));
    assert!(matches!(&plans[1], UploadPlan::Skip));
    assert!(matches!(&plans[2], UploadPlan::Upload { file_name, not_before }
        if file_name == "b.txt" && *not_before == 102));
}

#[test]
fn request_carries_name_parent_and_binary_type() {
    let req = make_upload_request("report.txt".to_string(), "F1");
    assert_eq!(req.name, "report.txt");
    assert_eq!(req.parents, vec!["F1"]);
    assert_eq!(req.content_type, "application/octet-stream");
}

#[test]
fn success_is_logged_with_the_remote_id() {
    let outcome = UploadOutcome::Uploaded { remote_id: "remote-42".to_string() };
    let report = report_outcome("report.txt", &outcome);
    assert_eq!(report.level, Level::Info);
    assert_eq!(report.message, "Successfully uploaded 'report.txt' with ID: remote-42");
    assert!(report.proceed);
}

#[test]
fn an_api_failure_is_logged_and_the_pipeline_goes_on() {
    let outcome = UploadOutcome::UploadFailed { error_text: "network unreachable".to_string() };
    let report = report_outcome("report.txt", &outcome);
    assert_eq!(report.level, Level::Error);
    assert_eq!(report.message, "Failed to upload 'report.txt'. Error: network unreachable");
    assert!(report.proceed);
}

#[test]
fn an_open_failure_is_logged_and_the_pipeline_goes_on() {
    let outcome = UploadOutcome::OpenFailed { error_text: "No such file".to_string() };
    let report = report_outcome("vanished.txt", &outcome);
    assert_eq!(report.level, Level::Error);
    assert_eq!(report.message, "Failed to open file 'vanished.txt': No such file");
    assert!(report.proceed);
}

#[test]
fn a_failed_file_never_blocks_the_next_one() {
    // Two files arrive; the first upload fails.
    let paths = vec!["D/a.txt".to_string(), "D/b.txt".to_string()];
    let regular = vec![true, true];
    let plans = plan_batch(&paths, &regular, 10);
    let failure = UploadOutcome::UploadFailed { error_text: "quota".to_string() };
    let report = report_outcome("a.txt", &failure);
    assert!(report.proceed);
    // The second file's plan stands untouched.
    assert!(matches!(&plans[1], UploadPlan::Upload { file_name, .. } if file_name == "b.txt"));
}

#[test]
fn status_lines_name_the_path_and_the_file() {
    assert_eq!(detection_line("D/report.txt"), "New file detected: D/report.txt");
    assert_eq!(uploading_line("report.txt"), "Uploading 'report.txt' to Google Drive");
}

#[test]
fn one_created_file_goes_end_to_end() {
    // A 10-byte file `report.txt` lands in the watched folder `D`, remote
    // folder `F1`: exactly one request, under the right name and parent.
    let content: &[u8] = b"0123456789";
    let plan = plan_upload("D/report.txt", true, 300);
    let (file_name, not_before) = match plan {
        UploadPlan::Upload { file_name, not_before } => (file_name, not_before),
        UploadPlan::Skip => panic!("a regular file must be uploaded"),
    };
    assert!(not_before >= 300 + SETTLE_DELAY_SECS);
    let req = make_upload_request(file_name, "F1");
    assert_eq!(req.name, "report.txt");
    assert_eq!(req.parents, vec!["F1"]);
    assert_eq!(content.len(), 10);
    let outcome = UploadOutcome::Uploaded { remote_id: "id-001".to_string() };
    let report = report_outcome(&req.name, &outcome);
    assert!(report.message.contains("Successfully uploaded"));
    assert!(report.message.contains("id-001"));
}
