use exifrensc::ui::{
    app_data_dir, convert_x_to_client_coords, convert_y_to_client_coords, hiword, lock_glyph,
    loword, manual_rename_command, narrow_wide_text, nx_studio_db_path, settings_db_path,
    utf8_to_utf16, wide_buffer_text, NxStudioDB,
};

#[test]
fn message_words() {
    assert_eq!(loword(0x1234_5678), 0x5678);
    assert_eq!(hiword(0x1234_5678), 0x1234);
    assert_eq!(loword(0xffff_ffff_0001_0002), 2);
    assert_eq!(hiword(0xffff_ffff_0001_0002), 1);
}

#[test]
fn dialog_units_to_pixels() {
    assert_eq!(convert_x_to_client_coords(100), 175);
    assert_eq!(convert_y_to_client_coords(100), 192);
    assert_eq!(convert_x_to_client_coords(-1), -1);
    assert_eq!(convert_y_to_client_coords(-1), -1);
    assert_eq!(convert_x_to_client_coords(0), 0);
}

#[test]
fn wide_text_reads_every_second_byte() {
    assert_eq!(narrow_wide_text(&[65, 0, 66, 0, 0, 0]), Some(vec![65, 66]));
    assert_eq!(narrow_wide_text(&[0, 0]), Some(vec![]));
    assert_eq!(narrow_wide_text(&[65, 0, 66]), None);
    assert_eq!(wide_buffer_text(&[67, 0, 58, 0, 0, 0]), Some("C:".to_string()));
    assert_eq!(wide_buffer_text(&[0xff, 0, 0, 0]), None);
}

#[test]
fn paths_under_local_app_data() {
    let base = "C:\\Users\\me\\AppData\\Local";
    assert_eq!(app_data_dir(base), "C:\\Users\\me\\AppData\\Local\\exifrensc");
    assert_eq!(settings_db_path(base), "C:\\Users\\me\\AppData\\Local\\exifrensc\\settings.sqlite");
    assert_eq!(nx_studio_db_path(base), "C:\\Users\\me\\AppData\\Local\\Nikon\\NX Studio\\DB\\FileData.db");
}

#[test]
fn nx_studio_database_is_found_once() {
    let mut db = NxStudioDB::new();
    assert_eq!(db.existant("a", false), false);
    assert_eq!(db.location(), "");
    assert_eq!(db.existant("b", true), true);
    assert_eq!(db.location(), "b");
    assert_eq!(db.existant("c", false), true);
    assert_eq!(db.location(), "b");
}

#[test]
fn manual_rename_statement() {
    assert_eq!(
        manual_rename_command("holiday.nef", "C:\\a.nef"),
        "UPDATE files SET new_file_name='holiday.nef' WHERE path='C:\\a.nef';"
    );
}

#[test]
fn lock_column() {
    assert_eq!(lock_glyph(0), "\u{1F513}");
    assert_eq!(lock_glyph(1), "\u{1F512}");
}

#[test]
fn utf16_encoding() {
    assert_eq!(utf8_to_utf16("A\u{e9}"), vec![0x41, 0xe9]);
    assert_eq!(utf8_to_utf16("\u{1F513}"), vec![0xD83D, 0xDD13]);
    assert_eq!(utf8_to_utf16("Scanning files\0"), "Scanning files\0".encode_utf16().collect::<Vec<u16>>());
}
