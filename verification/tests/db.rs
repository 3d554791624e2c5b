use exifrensc::db::{
    begin, commit, send_cmd, AddFilePattern, Count, DbError, DbLink, DeleteFilePattern,
    DeleteFromDatabase, GetFilePatterns, GetFileSpec, GetIntSetting, GetTextSetting,
    MakeTempFilePatternDatabase, QuickNonReturningSqlCommand, ReloadSettings,
    RestoreFilePatternDatabase, SaveSettings, SetIntSetting, SetTextSetting, request_exif_list,
    request_file_list,
};
use exifrensc::patterns::load_file_patterns;

fn dead_link() -> DbLink {
    let (tx, rx) = std::sync::mpsc::channel();
    drop(rx);
    DbLink::new(tx)
}

#[test]
fn every_command_reports_a_missing_service() {
    let mut link = dead_link();
    let d = Err(DbError::Disconnected);
    assert_eq!(GetIntSetting(&mut link, 1), d.map(|_: ()| 0usize));
    assert_eq!(SetIntSetting(&mut link, 1, 2), d);
    assert_eq!(GetTextSetting(&mut link, 1), Err(DbError::Disconnected));
    assert_eq!(SetTextSetting(&mut link, 1, "x".to_string()), d);
    assert_eq!(ReloadSettings(&mut link), d);
    assert_eq!(SaveSettings(&mut link), d);
    assert_eq!(Count(&mut link, "idx", "file_pat"), Err(DbError::Disconnected));
    let mut name = "kept".to_string();
    let mut spec = "kept too".to_string();
    assert_eq!(GetFilePatterns(&mut link, 1, &mut name, &mut spec), d);
    assert_eq!(name, "kept");
    assert_eq!(spec, "kept too");
    assert_eq!(GetFileSpec(&mut link, 1, &mut spec), d);
    assert_eq!(spec, "kept too");
    assert_eq!(DeleteFilePattern(&mut link, &mut name), d);
    assert_eq!(MakeTempFilePatternDatabase(&mut link), d);
    assert_eq!(RestoreFilePatternDatabase(&mut link), d);
    assert_eq!(AddFilePattern(&mut link, 1, "a\0".to_string(), "*.a\0".to_string()), d);
    assert_eq!(QuickNonReturningSqlCommand(&mut link, "x;".to_string()), d);
    assert_eq!(DeleteFromDatabase(&mut link, "C:\\a.nef".to_string()), d);
    assert_eq!(begin(&mut link), d);
    assert_eq!(commit(&mut link), d);
    assert_eq!(request_file_list(&mut link), d);
    assert_eq!(request_exif_list(&mut link, "C:\\a.nef"), d);
    assert_eq!(send_cmd(&mut link, "Begin"), None);
    assert!(load_file_patterns(&mut link).is_err());
}

