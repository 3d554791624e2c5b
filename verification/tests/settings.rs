use exifrensc::db::{DbError, DbLink};
use exifrensc::patterns::{remove_file_pattern, KEPT_PATTERN};
use exifrensc::settings::{ApplySettings, SettingsForm};

fn dead_link() -> DbLink {
    let (tx, rx) = std::sync::mpsc::channel();
    drop(rx);
    DbLink::new(tx)
}

#[test]
fn applying_settings_needs_the_service() {
    let mut link = dead_link();
    let form = SettingsForm {
        choices: vec![(1004, 1), (1005, 0)],
        tool_path_id: 1010,
        tool_path: "C:\\exiftool.exe".to_string(),
        nx_studio_id: 1011,
        nx_studio: 1,
    };
    assert_eq!(ApplySettings(&mut link, &form), Err(DbError::Disconnected));
}

#[test]
fn applying_a_form_without_choices_still_writes_the_rest() {
    let mut link = dead_link();
    let form = SettingsForm {
        choices: Vec::new(),
        tool_path_id: 1010,
        tool_path: String::new(),
        nx_studio_id: 1011,
        nx_studio: 0,
    };
    assert_eq!(ApplySettings(&mut link, &form), Err(DbError::Disconnected));
}

#[test]
fn the_all_files_pattern_stays() {
    let mut link = dead_link();
    assert_eq!(KEPT_PATTERN, "All files");
    assert_eq!(remove_file_pattern(&mut link, "All files"), Ok(false));
}

#[test]
fn other_patterns_are_deleted_through_the_service() {
    let mut link = dead_link();
    assert_eq!(remove_file_pattern(&mut link, "Nikon"), Err(DbError::Disconnected));
    assert_eq!(remove_file_pattern(&mut link, "all files"), Err(DbError::Disconnected));
}
