use exifrensc::protocol::{
    format_number_reply, format_pattern_reply, plan_command, read_number_reply,
    read_pattern_reply, DbAction, ADD_PATTERN_SQL_0, ADD_PATTERN_SQL_1, ADD_PATTERN_SQL_2,
    ADD_PATTERN_SQL_3, ADD_PATTERN_SQL_4, FILE_SPEC_SQL_HEAD, FILE_SPEC_SQL_TAIL, LIST_FILES_SQL,
    MAKE_TEMP_PATTERNS_SQL, RELOAD_SQL_HEAD, RELOAD_SQL_TAIL, RESTORE_PATTERNS_SQL, SAVE_SQL_HEAD,
    SAVE_SQL_TAIL,
};

const SETTINGS: &str = "C:\\Users\\me\\AppData\\Local\\exifrensc\\settings.sqlite";

fn text(a: DbAction) -> (String, String) {
    match a {
        DbAction::Execute(s) => ("execute".to_string(), s),
        DbAction::Batch(s) => ("batch".to_string(), s),
        DbAction::QueryNumber(s) => ("number".to_string(), s),
        DbAction::QueryText(s) => ("text".to_string(), s),
        DbAction::QueryNamePattern(s) => ("pattern".to_string(), s),
        DbAction::ListFiles(s) => ("files".to_string(), s),
        DbAction::ListExif(s) => ("exif".to_string(), s),
        DbAction::Quit => ("quit".to_string(), String::new()),
        DbAction::Unrecognised => ("unrecognised".to_string(), String::new()),
        DbAction::Malformed => ("malformed".to_string(), String::new()),
    }
}

fn plan(cmd: &str) -> (String, String) {
    text(plan_command(cmd, SETTINGS))
}

fn pair(kind: &str, sql: &str) -> (String, String) {
    (kind.to_string(), sql.to_string())
}

#[test]
fn get_int_setting_queries_the_setting() {
    assert_eq!(plan("GetIntSetting=1004"), pair("number", "SELECT value FROM settings where ID=1004"));
    assert_eq!(plan("GetIntSetting=-3"), pair("number", "SELECT value FROM settings where ID=-3"));
}

#[test]
fn get_int_setting_without_id_is_malformed() {
    assert_eq!(plan("GetIntSetting").0, "malformed");
    // byte 14 falls inside the two-byte character
    assert_eq!(plan("GetIntSetting\u{e9}5").0, "malformed");
}

#[test]
fn set_int_setting_updates_the_setting() {
    assert_eq!(
        plan("SetIntSetting=1004=2"),
        pair("execute", "UPDATE settings SET value=2 WHERE id=1004;")
    );
    assert_eq!(plan("SetIntSetting=5").0, "malformed");
}

#[test]
fn get_text_setting_keeps_the_equals_sign() {
    assert_eq!(plan("GetTextSetting=1010"), pair("text", "SELECT value FROM settings where ID==1010"));
}

#[test]
fn set_text_setting_quotes_the_value() {
    assert_eq!(
        plan("SetTextSetting=1010=C:\\Tools\\exiftool.exe"),
        pair("execute", "UPDATE settings SET value='C:\\Tools\\exiftool.exe' WHERE id=1010;")
    );
}

#[test]
fn set_text_setting_value_keeps_its_equals_signs() {
    assert_eq!(
        plan("SetTextSetting=3=a=b"),
        pair("execute", "UPDATE settings SET value='a=b' WHERE id=3;")
    );
}

#[test]
fn save_and_reload_use_the_settings_path() {
    assert_eq!(
        plan("SaveSettings"),
        pair("batch", &format!("{}{}{}", SAVE_SQL_HEAD, SETTINGS, SAVE_SQL_TAIL))
    );
    assert_eq!(
        plan("ReloadSettings"),
        pair("batch", &format!("{}{}{}", RELOAD_SQL_HEAD, SETTINGS, RELOAD_SQL_TAIL))
    );
    assert!(SAVE_SQL_HEAD.starts_with("ATTACH DATABASE '"));
}

#[test]
fn count_counts_distinct_values() {
    assert_eq!(
        plan("Count=idx=file_pat"),
        pair("number", "SELECT COUNT( DISTINCT idx) FROM file_pat;")
    );
    assert_eq!(plan("Count").0, "malformed");
}

#[test]
fn file_pattern_commands() {
    assert_eq!(
        plan("GetFilePatterns=3"),
        pair("pattern", "SELECT pszName, pszSpec FROM file_pat WHERE idx=3;")
    );
    assert_eq!(
        plan("DeleteFilePattern=Nikon RAW"),
        pair("execute", "DELETE FROM file_pat WHERE pszName='Nikon RAW';")
    );
    assert_eq!(plan("MakeTempFilePatternDatabase"), pair("batch", MAKE_TEMP_PATTERNS_SQL));
    assert_eq!(plan("RestoreFilePatternDatabase"), pair("batch", RESTORE_PATTERNS_SQL));
    assert_eq!(
        plan("GetFileSpec=1007"),
        pair("text", &format!("{}1007{}", FILE_SPEC_SQL_HEAD, FILE_SPEC_SQL_TAIL))
    );
}

#[test]
fn add_file_pattern_drops_the_terminating_characters() {
    let expected = format!(
        "{}2{}JPEG{}*.jpg{}2{}",
        ADD_PATTERN_SQL_0, ADD_PATTERN_SQL_1, ADD_PATTERN_SQL_2, ADD_PATTERN_SQL_3, ADD_PATTERN_SQL_4
    );
    assert_eq!(plan("AddFilePattern=2|+|JPEG\0|$|*.jpg\0"), pair("batch", &expected));
}

#[test]
fn add_file_pattern_without_specification_is_malformed() {
    assert_eq!(plan("AddFilePattern=1|+|a\0|$|").0, "malformed");
    assert_eq!(plan("AddFilePattern=1|+|a\0").0, "malformed");
}

#[test]
fn quick_sql_runs_the_script_as_sent() {
    assert_eq!(
        plan("QuickNonReturningSqlCommand=DELETE FROM exif;"),
        pair("batch", "DELETE FROM exif;")
    );
    assert_eq!(plan("QuickNonReturningSqlCommand=DELETE FROM files"), pair("batch", "DELETE FROM files"));
    assert_eq!(plan("QuickNonReturningSqlCommand=").0, "batch");
    assert_eq!(plan("QuickNonReturningSqlCommand").0, "malformed");
}

#[test]
fn transactions_lists_and_quit() {
    assert_eq!(plan("Begin"), pair("execute", "BEGIN;"));
    assert_eq!(plan("Commit"), pair("execute", "COMMIT;"));
    assert_eq!(plan("transfer_data_to_main_file_list"), pair("files", LIST_FILES_SQL));
    assert_eq!(
        plan("transfer_data_to_exif_browser_listC:\\a.nef"),
        pair("exif", "SELECT tag, value FROM exif WHERE path='C:\\a.nef';")
    );
    assert_eq!(plan("Quit").0, "quit");
    assert_eq!(plan("Hello").0, "unrecognised");
    assert_eq!(plan("").0, "unrecognised");
}

#[test]
fn number_replies_read_back() {
    let r = format_number_reply(42);
    assert_eq!(r, "42");
    assert_eq!(read_number_reply(&r), Some(42));
    assert_eq!(read_number_reply(&format_number_reply(0)), Some(0));
    assert_eq!(read_number_reply(&format_number_reply(u32::MAX)), Some(u32::MAX as usize));
}

#[test]
fn number_reply_parsing_follows_str_parse() {
    assert_eq!(read_number_reply("+7"), Some(7));
    assert_eq!(read_number_reply(""), None);
    assert_eq!(read_number_reply("+"), None);
    assert_eq!(read_number_reply("-1"), None);
    assert_eq!(read_number_reply(" 1"), None);
    assert_eq!(read_number_reply("18446744073709551616"), None);
    assert_eq!(read_number_reply("007"), Some(7));
}

#[test]
fn pattern_replies_read_back() {
    let r = format_pattern_reply("Nikon RAW", "*.nef");
    assert_eq!(r, "Nikon RAW&*.nef");
    assert_eq!(read_pattern_reply(&r), Some(("Nikon RAW".to_string(), "*.nef".to_string())));
    assert_eq!(read_pattern_reply("a&b&c"), Some(("a&b".to_string(), "c".to_string())));
    assert_eq!(read_pattern_reply("no separator"), None);
}
