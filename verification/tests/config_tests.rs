use gdrive_sync::config::{startup_banner, startup_failure_line, StartupStage, SyncConfig};

#[test]
fn config_keeps_its_fields() {
    let c = SyncConfig::new("/watch/D".to_string(), "F1".to_string());
    assert_eq!(c.local_folder_path, "/watch/D");
    assert_eq!(c.gdrive_folder_id, "F1");
}

#[test]
fn every_startup_failure_names_its_step() {
    assert_eq!(
        startup_failure_line(StartupStage::ExePath, "denied"),
        "Failed to get current executable path: denied"
    );
    assert_eq!(
        startup_failure_line(StartupStage::ConfigRead, "not found"),
        "Failed to read config.json: not found"
    );
    assert_eq!(
        startup_failure_line(StartupStage::ConfigParse, "bad json"),
        "Failed to parse config.json: bad json"
    );
    assert_eq!(
        startup_failure_line(StartupStage::CredentialsRead, "not found"),
        "Failed to read credentials.json: not found"
    );
    assert_eq!(
        startup_failure_line(StartupStage::CredentialsParse, "bad key"),
        "Failed to parse service account key: bad key"
    );
    assert_eq!(
        startup_failure_line(StartupStage::Authenticator, "no token"),
        "Failed to create authenticator: no token"
    );
}

#[test]
fn the_banner_names_the_folder_and_the_target() {
    let c = SyncConfig::new("/watch/D".to_string(), "F1".to_string());
    let lines = startup_banner(&c);
    assert_eq!(
        lines,
        vec![
            "Google Drive connection established successfully",
            "Initial sync starting for folder '/watch/D'",
            "Now watching for new files in: /watch/D",
            "Target Google Drive folder ID: F1",
        ]
    );
}
