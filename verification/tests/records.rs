use exifrensc::records::{find_sidecar, sidecar_path};
use exifrensc::records::{exif_field_row, file_row, placeholder_update, sidecar_key, ExifField};

fn field(primary: bool, described: bool, name: &str, number: u16, display: &str) -> ExifField {
    ExifField {
        primary,
        has_description: described,
        tag_name: name.to_string(),
        tag_number: number,
        display: display.to_string(),
    }
}

#[test]
fn kept_field_becomes_a_row() {
    let f = field(true, true, "Model", 272, " \"NIKON Z 6\" ");
    assert_eq!(
        exif_field_row("C:\\a.nef", &f),
        Some("INSERT OR IGNORE INTO exif (path,tag,tag_id,value) VALUES('C:\\a.nef','Model',272,'NIKON Z 6');".to_string())
    );
}

#[test]
fn other_fields_are_dropped() {
    assert_eq!(exif_field_row("p", &field(false, true, "Model", 272, "x")), None);
    assert_eq!(exif_field_row("p", &field(true, false, "Model", 272, "x")), None);
    assert_eq!(exif_field_row("p", &field(true, true, "MakerNote", 37500, "x")), None);
    assert_eq!(exif_field_row("p", &field(true, true, "X", 1, "0x00000000000000000000000000")), None);
}

#[test]
fn file_rows_with_and_without_sidecar() {
    assert_eq!(
        file_row("C:\\a.nef", "2022-10-31 15:37:25+10:00", "2022-11-01 01:39:18+10:00", "a.nef", ""),
        "INSERT OR IGNORE INTO files (path,created,modified,orig_file_name) VALUES('C:\\a.nef','2022-10-31 15:37:25+10:00','2022-11-01 01:39:18+10:00','a.nef');"
    );
    assert_eq!(
        file_row("C:\\a.nef", "c", "m", "a.nef", "C:\\NKSC_PARAM\\a.nef.nksc"),
        "INSERT OR IGNORE INTO files (path,created,modified,orig_file_name,nksc_path) VALUES('C:\\a.nef','c','m','a.nef','C:\\NKSC_PARAM\\a.nef.nksc');"
    );
}

#[test]
fn sidecar_key_is_the_image_name() {
    assert_eq!(
        sidecar_key("C:\\Photos\\NKSC_PARAM\\DSC_0001.NEF.nksc"),
        Some("DSC_0001.NEF".to_string())
    );
    assert_eq!(sidecar_key("no separators"), None);
    assert_eq!(sidecar_key("C:\\a.b\\c"), None);
}

#[test]
fn sidecar_key_offsets_come_from_the_untrimmed_path() {
    assert_eq!(sidecar_key(" C:\\a\\b.nksc"), Some(".".to_string()));
}

#[test]
fn placeholder_rows_get_the_path() {
    assert_eq!(
        placeholder_update("C:\\a.nef"),
        "UPDATE exif SET path='C:\\a.nef' WHERE path='file_path';"
    );
}

#[test]
fn sidecars_live_in_nksc_param_beside_the_image() {
    assert_eq!(sidecar_path("C:\\Photos\\a.nef"), Some("C:\\Photos\\NKSC_PARAM\\a.nef.nksc".to_string()));
    assert_eq!(sidecar_path("a.nef"), Some("NKSC_PARAM\\a.nef.nksc".to_string()));
    assert_eq!(sidecar_path("C:/photos/a.nef"), Some("C:/photos\\NKSC_PARAM\\a.nef.nksc".to_string()));
    assert_eq!(sidecar_path("C:\\x\\"), Some("C:\\NKSC_PARAM\\x.nksc".to_string()));
    assert_eq!(sidecar_path("\\a.nef"), Some("\\NKSC_PARAM\\a.nef.nksc".to_string()));
    assert_eq!(sidecar_path("C:\\x\\\\y"), Some("C:\\x\\NKSC_PARAM\\y.nksc".to_string()));
    assert_eq!(sidecar_path("\\/"), None);
    assert_eq!(sidecar_path(""), None);
}

#[test]
fn the_last_sidecar_filed_under_a_name_is_found() {
    let sidecars = vec![
        ("a.nef".to_string(), "X\\a.nef.nksc".to_string()),
        ("b.nef".to_string(), "X\\b.nef.nksc".to_string()),
        ("a.nef".to_string(), "Y\\a.nef.nksc".to_string()),
    ];
    assert_eq!(find_sidecar(&sidecars, "a.nef"), "Y\\a.nef.nksc");
    assert_eq!(find_sidecar(&sidecars, "b.nef"), "X\\b.nef.nksc");
    assert_eq!(find_sidecar(&sidecars, "c.nef"), "");
}
