//! The immutable run configuration and the diagnostics of a failed start.

use vstd::prelude::*;
use vstd::string::*;

verus! {

/// Loaded once at startup and fixed for the process lifetime. That the local
/// folder exists and is a directory is checked by the caller at watch-start.
pub struct SyncConfig {
    pub local_folder_path: String,
    pub gdrive_folder_id: String,
}

impl SyncConfig {
    pub fn new(local_folder_path: String, gdrive_folder_id: String) -> (c: SyncConfig)
        ensures
            c.local_folder_path@ == local_folder_path@,
            c.gdrive_folder_id@ == gdrive_folder_id@,
    {
        SyncConfig { local_folder_path, gdrive_folder_id }
    }
}

/// The startup step that failed; each is fatal and keeps the pipeline from
/// starting.
#[derive(Clone, Copy, PartialEq, Eq, Structural, Debug)]
pub enum StartupStage {
    ExePath,
    ConfigRead,
    ConfigParse,
    CredentialsRead,
    CredentialsParse,
    Authenticator,
}

/// The fixed prefix of the diagnostic each startup failure logs.
pub open spec fn spec_stage_prefix(stage: StartupStage) -> Seq<char> {
    match stage {
        StartupStage::ExePath => "Failed to get current executable path: "@,
        StartupStage::ConfigRead => "Failed to read config.json: "@,
        StartupStage::ConfigParse => "Failed to parse config.json: "@,
        StartupStage::CredentialsRead => "Failed to read credentials.json: "@,
        StartupStage::CredentialsParse => "Failed to parse service account key: "@,
        StartupStage::Authenticator => "Failed to create authenticator: "@,
    }
}

/// The diagnostic logged when a startup step fails: its fixed prefix followed
/// by the collaborator's own message.
pub fn startup_failure_line(stage: StartupStage, detail: &str) -> (r: String)
    ensures
        r@ == spec_stage_prefix(stage) + detail@,
{
    let mut out = match stage {
        StartupStage::ExePath => "Failed to get current executable path: ".to_owned(),
        StartupStage::ConfigRead => "Failed to read config.json: ".to_owned(),
        StartupStage::ConfigParse => "Failed to parse config.json: ".to_owned(),
        StartupStage::CredentialsRead => "Failed to read credentials.json: ".to_owned(),
        StartupStage::CredentialsParse => "Failed to parse service account key: ".to_owned(),
        StartupStage::Authenticator => "Failed to create authenticator: ".to_owned(),
    };
    out.append(detail);
    out
}

/// The status lines written once the remote connection stands and the watch
/// begins, in the order they are logged.
pub fn startup_banner(config: &SyncConfig) -> (r: Vec<String>)
    ensures
        r@.len() == 4,
        r@[0]@ == "Google Drive connection established successfully"@,
        r@[1]@ == "Initial sync starting for folder '"@ + config.local_folder_path@ + "'"@,
        r@[2]@ == "Now watching for new files in: "@ + config.local_folder_path@,
        r@[3]@ == "Target Google Drive folder ID: "@ + config.gdrive_folder_id@,
{
    let mut lines: Vec<String> = Vec::new();
    lines.push("Google Drive connection established successfully".to_owned());
    let mut starting = "Initial sync starting for folder '".to_owned();
    starting.append(config.local_folder_path.as_str());
    starting.append("'");
    lines.push(starting);
    let mut watching = "Now watching for new files in: ".to_owned();
    watching.append(config.local_folder_path.as_str());
    lines.push(watching);
    let mut target = "Target Google Drive folder ID: ".to_owned();
    target.append(config.gdrive_folder_id.as_str());
    lines.push(target);
    lines
}

} // verus!
