//! The service run against a real in-memory SQLite database.

use exifrensc::exiftool::{classify_exiftool_line, ExifToolLine};
use exifrensc::import::{missing_date_command, unwanted_files_command, PROTECT_LISTED_SQL};
use exifrensc::protocol::{read_number_reply, read_pattern_reply, CREATE_LISTS_SQL};
use exifrensc::records::file_row;
use exifrensc::rename::rename_command;
use exifrensc::db::DBcommand;
use exifrensc::service::{answer_command, serve_command, start_service, AnswerKind, Served, ServiceError, StartError};
use exifrensc::sqlite::ServiceDb;

fn service() -> ServiceDb {
    let mut db = ServiceDb::open().unwrap();
    let setup = "CREATE TABLE 'settings' (name,ID,value);
         INSERT INTO settings VALUES ('conflict', 1004, 0), ('tool', 1010, ''), ('filter', 1009, 1);
         CREATE TABLE 'file_pat' (idx INTEGER PRIMARY KEY AUTOINCREMENT NOT NULL UNIQUE, pszName TEXT, pszSpec TEXT);
         INSERT INTO file_pat (pszName, pszSpec) VALUES ('All files', '*.*'), ('Nikon', '*.nef;*.jpg');";
    run(&mut db, &format!("QuickNonReturningSqlCommand={};", setup));
    run(&mut db, &format!("QuickNonReturningSqlCommand={};", CREATE_LISTS_SQL));
    db
}

/// Runs one command as the service does and gives its reply.
fn run(db: &mut ServiceDb, cmd: &str) -> String {
    match serve_command(db, cmd, "unused.sqlite") {
        Ok(Served::Reply(reply)) => reply,
        Ok(_) => String::new(),
        Err(e) => panic!("{:?} for {}", e, cmd),
    }
}

fn quick(db: &mut ServiceDb, sql: &str) {
    run(db, &format!("QuickNonReturningSqlCommand={}", sql));
}

#[test]
fn an_integer_setting_reads_back_what_was_written() {
    let mut db = service();
    run(&mut db, "SetIntSetting=1004=1");
    assert_eq!(read_number_reply(&run(&mut db, "GetIntSetting=1004")), Some(1));
}

#[test]
fn a_text_setting_reads_back_what_was_written() {
    let mut db = service();
    run(&mut db, "SetTextSetting=1010=C:\\Tools\\exiftool.exe");
    assert_eq!(run(&mut db, "GetTextSetting=1010"), "C:\\Tools\\exiftool.exe");
}

#[test]
fn patterns_can_be_added_read_and_restored() {
    let mut db = service();
    assert_eq!(read_number_reply(&run(&mut db, "Count=idx=file_pat")), Some(2));
    run(&mut db, "MakeTempFilePatternDatabase");
    run(&mut db, "AddFilePattern=1|+|JPEG\0|$|*.jpg\0");
    assert_eq!(read_number_reply(&run(&mut db, "Count=idx=file_pat")), Some(3));
    assert_eq!(
        read_pattern_reply(&run(&mut db, "GetFilePatterns=2")),
        Some(("JPEG".to_string(), "*.jpg".to_string()))
    );
    assert_eq!(
        read_pattern_reply(&run(&mut db, "GetFilePatterns=3")),
        Some(("Nikon".to_string(), "*.nef;*.jpg".to_string()))
    );
    run(&mut db, "RestoreFilePatternDatabase");
    assert_eq!(read_number_reply(&run(&mut db, "Count=idx=file_pat")), Some(2));
    run(&mut db, "DeleteFilePattern=Nikon");
    assert_eq!(read_number_reply(&run(&mut db, "Count=idx=file_pat")), Some(1));
}

#[test]
fn the_drag_and_drop_filter_picks_its_pattern() {
    let mut db = service();
    assert_eq!(run(&mut db, "GetFileSpec=1009"), "*.nef;*.jpg");
}

#[test]
fn bulk_import_drops_unwanted_files() {
    let mut db = service();
    quick(&mut db, &file_row("C:\\a.NEF", "c", "m", "a.NEF", ""));
    quick(&mut db, &file_row("C:\\b.txt", "c", "m", "b.txt", ""));
    quick(&mut db, &format!("{};", unwanted_files_command("*.nef;*.jpg")));
    assert_eq!(read_number_reply(&run(&mut db, "Count=path=files")), Some(1));
}

#[test]
fn renaming_by_tag_uses_the_tag_value() {
    let mut db = service();
    quick(&mut db, &file_row("C:\\a.nef", "c", "m", "a.nef", ""));
    match classify_exiftool_line("[EXIF] 272 Model: NIKON Z 6", "C:\\a.nef") {
        ExifToolLine::Record(sql) => quick(&mut db, &sql),
        _ => panic!("expected a row"),
    }
    quick(&mut db, &rename_command("$(Model)_x").unwrap());
    quick(&mut db, "UPDATE settings SET value=(SELECT new_file_name FROM files) WHERE ID=1010;");
    assert_eq!(run(&mut db, "GetTextSetting=1010"), "NIKON Z 6_x");
}

#[test]
fn the_file_list_comes_with_its_lock_flags() {
    let mut db = service();
    quick(&mut db, &file_row("C:\\a.nef", "c", "m", "a.nef", ""));
    match serve_command(&mut db, "transfer_data_to_main_file_list", "unused.sqlite") {
        Ok(Served::FileRows(rows)) => {
            assert_eq!(rows, vec![("C:\\a.nef\0".to_string(), "a.nef\0".to_string(), 0)]);
        }
        _ => panic!("expected the file list"),
    }
}

#[test]
fn the_exif_list_comes_with_its_values() {
    let mut db = service();
    match classify_exiftool_line("[EXIF] 272 Model: NIKON Z 6", "C:\\a.nef") {
        ExifToolLine::Record(sql) => quick(&mut db, &sql),
        _ => panic!("expected a row"),
    }
    match serve_command(&mut db, "transfer_data_to_exif_browser_listC:\\a.nef", "unused.sqlite") {
        Ok(Served::ExifRows(rows)) => {
            assert_eq!(rows, vec![("Model\0".to_string(), "NIKON Z 6\0".to_string(), 0)]);
        }
        _ => panic!("expected the EXIF list"),
    }
}

#[test]
fn failing_sql_and_odd_commands_are_reported() {
    let mut db = service();
    assert!(matches!(
        serve_command(&mut db, "QuickNonReturningSqlCommand=NOT SQL;", "unused.sqlite"),
        Err(ServiceError::SqlFailed)
    ));
    assert!(matches!(serve_command(&mut db, "GetIntSetting=9999", "unused.sqlite"), Err(ServiceError::SqlFailed)));
    assert!(matches!(serve_command(&mut db, "Quit", "unused.sqlite"), Ok(Served::Quit)));
    assert!(matches!(serve_command(&mut db, "Hello", "unused.sqlite"), Ok(Served::Unrecognised)));
    assert!(matches!(serve_command(&mut db, "SetIntSetting=1004", "unused.sqlite"), Err(ServiceError::Malformed)));
}

#[test]
fn a_settings_database_without_settings_stops_the_start() {
    let failure = start_service(":memory:").err().unwrap();
    assert_eq!(failure.error, StartError::SettingsFailed);
    assert!(failure.db.is_some());
    assert!(failure.cause.is_none());
}

#[test]
fn files_listed_before_a_bulk_import_are_kept() {
    let mut db = service();
    quick(&mut db, &file_row("C:\\notes.txt", "c", "m", "notes.txt", ""));
    quick(&mut db, &format!("{};", PROTECT_LISTED_SQL));
    quick(&mut db, &file_row("C:\\b.NEF", "c", "m", "b.NEF", ""));
    quick(&mut db, &file_row("C:\\c.txt", "c", "m", "c.txt", ""));
    quick(&mut db, &format!("{};", unwanted_files_command("*.nef")));
    run(&mut db, "Commit");
    assert_eq!(read_number_reply(&run(&mut db, "Count=path=files")), Some(2));
    quick(&mut db, "UPDATE settings SET value=(SELECT group_concat(orig_file_name) FROM files) WHERE ID=1010;");
    assert_eq!(run(&mut db, "GetTextSetting=1010"), "notes.txt,b.NEF");
}

#[test]
fn a_missing_shooting_date_is_taken_from_the_file() {
    let mut db = service();
    quick(&mut db, &file_row("C:\\a.nef", "2022-10-31 15:37:25+10:00", "2022-11-01 01:39:18+10:00", "a.nef", ""));
    match classify_exiftool_line("[EXIF] 272 Model: NIKON Z 6", "C:\\a.nef") {
        ExifToolLine::Record(sql) => quick(&mut db, &sql),
        _ => panic!("expected a row"),
    }
    quick(&mut db, &file_row("C:\\b.nef", "2021-01-02 03:04:05+10:00", "2021-01-03 03:04:05+10:00", "b.nef", ""));
    quick(&mut db, &format!("{};", missing_date_command(0)));
    quick(&mut db, "UPDATE settings SET value=(SELECT value FROM exif WHERE tag='DateTimeOriginal' AND path='C:\\b.nef') WHERE ID=1004;");
    assert_eq!(run(&mut db, "GetTextSetting=1004"), "2021-01-02 03:04:05+10:00");
    quick(&mut db, "UPDATE settings SET value=(SELECT value FROM exif WHERE tag='DateTimeOriginal' AND path='C:\\a.nef') WHERE ID=1010;");
    assert_eq!(run(&mut db, "GetTextSetting=1010"), "2022-10-31 15:37:25+10:00");
    quick(&mut db, "DELETE FROM exif WHERE tag='DateTimeOriginal';");
    quick(&mut db, &format!("{};", missing_date_command(1)));
    quick(&mut db, "UPDATE settings SET value=(SELECT value FROM exif WHERE tag='DateTimeOriginal' AND path='C:\\a.nef') WHERE ID=1010;");
    assert_eq!(run(&mut db, "GetTextSetting=1010"), "2022-11-01 01:39:18+10:00");
}

#[test]
fn a_text_setting_may_hold_equals_signs() {
    let mut db = service();
    run(&mut db, "SetTextSetting=1010=a=b");
    assert_eq!(run(&mut db, "GetTextSetting=1010"), "a=b");
}

#[test]
fn the_file_list_shows_the_new_name() {
    let mut db = service();
    quick(&mut db, &file_row("C:\\a.nef", "c", "m", "a.nef", ""));
    quick(&mut db, "UPDATE files SET new_file_name='b.nef';");
    match serve_command(&mut db, "transfer_data_to_main_file_list", "unused.sqlite") {
        Ok(Served::FileRows(rows)) => assert_eq!(rows[0].1, "b.nef\0"),
        _ => panic!("expected the file list"),
    }
}

#[test]
fn the_all_files_pattern_keeps_files_with_an_extension() {
    let mut db = service();
    quick(&mut db, &file_row("C:\\a.nef", "c", "m", "a.nef", ""));
    quick(&mut db, &file_row("C:\\README", "c", "m", "README", ""));
    quick(&mut db, &unwanted_files_command("*.*"));
    assert_eq!(read_number_reply(&run(&mut db, "Count=path=files")), Some(1));
}

/// Answers the command `cmd` as the service loop does, giving what the loop
/// is told and every reply that reached the asker's channel.
fn answer(db: &mut ServiceDb, cmd: &str, rows: &mut Vec<(String, String, usize)>) -> (Result<(AnswerKind, bool), ServiceError>, Vec<String>) {
    let (tx, rx) = std::sync::mpsc::channel();
    let mut asked = DBcommand::new(tx, cmd.to_string());
    let r = answer_command(db, &mut asked, "unused.sqlite", rows);
    drop(asked);
    (r, rx.iter().collect())
}

#[test]
fn each_command_gets_one_reply_on_its_own_channel() {
    let mut db = service();
    let mut rows = Vec::new();
    assert_eq!(answer(&mut db, "SetIntSetting=1004=3", &mut rows), (Ok((AnswerKind::Replied, true)), vec![String::new()]));
    assert_eq!(answer(&mut db, "GetIntSetting=1004", &mut rows), (Ok((AnswerKind::Replied, true)), vec!["3".to_string()]));
    assert_eq!(
        answer(&mut db, "GetFilePatterns=2", &mut rows),
        (Ok((AnswerKind::Replied, true)), vec!["Nikon&*.nef;*.jpg".to_string()])
    );
    assert_eq!(answer(&mut db, "Hello", &mut rows), (Ok((AnswerKind::Unrecognised, true)), vec![String::new()]));
    let add = format!("QuickNonReturningSqlCommand={}", file_row("C:\\a.nef", "c", "m", "a.nef", ""));
    assert_eq!(answer(&mut db, &add, &mut rows), (Ok((AnswerKind::Replied, true)), vec![String::new()]));
    assert!(rows.is_empty());
    assert_eq!(
        answer(&mut db, "transfer_data_to_main_file_list", &mut rows),
        (Ok((AnswerKind::Replied, true)), vec![String::new()])
    );
    assert_eq!(rows, vec![("C:\\a.nef\0".to_string(), "a.nef\0".to_string(), 0)]);
    assert_eq!(answer(&mut db, "Quit", &mut rows), (Ok((AnswerKind::Quit, true)), vec![String::new()]));
}

#[test]
fn a_failed_command_gets_no_reply() {
    let mut db = service();
    let mut rows = Vec::new();
    assert_eq!(answer(&mut db, "GetIntSetting=9999", &mut rows), (Err(ServiceError::SqlFailed), vec![]));
    assert_eq!(answer(&mut db, "SetIntSetting=1004", &mut rows), (Err(ServiceError::Malformed), vec![]));
    assert!(rows.is_empty());
}

#[test]
fn a_reply_nobody_waits_for_is_reported() {
    let mut db = service();
    let mut rows = Vec::new();
    let (tx, rx) = std::sync::mpsc::channel();
    drop(rx);
    let mut asked = DBcommand::new(tx, "Begin".to_string());
    assert_eq!(answer_command(&mut db, &mut asked, "unused.sqlite", &mut rows), Ok((AnswerKind::Replied, false)));
}
