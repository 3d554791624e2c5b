use exifrensc::db::{DbError, DbLink};
use exifrensc::import::{
    check_if_in_NXstudio, delete_unwanted_files_after_bulk_import, finish_bulk_import, finish_import,
    fill_in_missing_DateTimeOriginal, missing_date_command, nx_studio_command,
    unwanted_files_command, DATE_FROM_CREATED_SQL, DATE_FROM_MODIFIED_SQL, NX_STUDIO_SQL_HEAD,
    NX_STUDIO_SQL_TAIL,
};

#[test]
fn unwanted_files_keep_the_specified_extensions() {
    assert_eq!(
        unwanted_files_command("*.nef;*.jpg;*.jpeg"),
        "DELETE FROM files WHERE tmp_lock=0 AND lower(orig_file_name) NOT LIKE lower('%.nef') AND lower(orig_file_name) NOT LIKE lower('%.jpg') AND lower(orig_file_name) NOT LIKE lower('%.jpeg');\n                       UPDATE files SET tmp_lock=0;"
    );
}

#[test]
fn unwanted_files_with_all_files() {
    assert_eq!(
        unwanted_files_command("*.*"),
        "DELETE FROM files WHERE tmp_lock=0 AND lower(orig_file_name) NOT LIKE lower('%.%');\n                       UPDATE files SET tmp_lock=0;"
    );
}

#[test]
fn a_semicolon_without_a_star_stays_inside_one_test() {
    assert_eq!(
        unwanted_files_command("*.nef;.jpg"),
        "DELETE FROM files WHERE tmp_lock=0 AND lower(orig_file_name) NOT LIKE lower('%.nef;.jpg');\n                       UPDATE files SET tmp_lock=0;"
    );
}

#[test]
fn nx_studio_uses_its_location() {
    let loc = "C:\\Users\\me\\AppData\\Local\\Nikon\\NX Studio\\DB\\FileData.db";
    assert_eq!(nx_studio_command(loc), format!("{}{}{}", NX_STUDIO_SQL_HEAD, loc, NX_STUDIO_SQL_TAIL));
}

#[test]
fn missing_dates_come_from_created_or_modified() {
    assert_eq!(missing_date_command(0), DATE_FROM_CREATED_SQL);
    assert_eq!(missing_date_command(1), DATE_FROM_MODIFIED_SQL);
    assert!(DATE_FROM_CREATED_SQL.contains("36867"));
}

fn dead_link() -> DbLink {
    let (tx, rx) = std::sync::mpsc::channel();
    drop(rx);
    DbLink::new(tx)
}

#[test]
fn bulk_steps_stop_when_the_service_is_gone() {
    let mut link = dead_link();
    assert_eq!(fill_in_missing_DateTimeOriginal(&mut link, 1005), Err(DbError::Disconnected));
    assert_eq!(check_if_in_NXstudio(&mut link, 1011, "x"), Err(DbError::Disconnected));
    assert_eq!(delete_unwanted_files_after_bulk_import(&mut link, 1009), Err(DbError::Disconnected));
}

#[test]
fn finishing_an_import_stops_when_the_service_is_gone() {
    let mut link = dead_link();
    assert_eq!(finish_import(&mut link, 1011, "x", 1005), Err(DbError::Disconnected));
    assert_eq!(finish_bulk_import(&mut link, 1009, 1011, "x", 1005), Err(DbError::Disconnected));
}
