use exifrensc::db::{DbError, DbLink};
use exifrensc::exiftool::ExifToolLine;
use exifrensc::ingest::{record_exif_fields, record_file, record_tool_output};
use exifrensc::records::ExifField;

fn dead_link() -> DbLink {
    let (tx, rx) = std::sync::mpsc::channel();
    drop(rx);
    DbLink::new(tx)
}

fn field(primary: bool, described: bool, name: &str, value: &str) -> ExifField {
    ExifField {
        primary,
        has_description: described,
        tag_name: name.to_string(),
        tag_number: 271,
        display: value.to_string(),
    }
}

#[test]
fn no_fields_need_no_service() {
    let mut link = dead_link();
    assert_eq!(record_exif_fields(&mut link, "C:\\a.nef", &Vec::new()), Ok(()));
}

#[test]
fn fields_that_are_not_kept_send_nothing() {
    let mut link = dead_link();
    let fields = vec![
        field(false, true, "Make", "NIKON"),
        field(true, false, "Make", "NIKON"),
        field(true, true, "MakerNote", "xyz"),
        field(true, true, "Make", "0x00000000000000000000000000"),
    ];
    assert_eq!(record_exif_fields(&mut link, "C:\\a.nef", &fields), Ok(()));
}

#[test]
fn a_kept_field_needs_the_service() {
    let mut link = dead_link();
    let fields = vec![field(false, true, "Make", "NIKON"), field(true, true, "Make", "NIKON")];
    assert_eq!(record_exif_fields(&mut link, "C:\\a.nef", &fields), Err(DbError::Disconnected));
}

#[test]
fn a_file_row_needs_the_service() {
    let mut link = dead_link();
    assert_eq!(
        record_file(&mut link, "C:\\a.nef", "2022-10-31 15:37:25+10:00", "", "a.nef", ""),
        Err(DbError::Disconnected)
    );
}

#[test]
fn tool_lines_that_keep_nothing_need_no_service() {
    let mut link = dead_link();
    assert!(matches!(record_tool_output(&mut link, "{ready}", "p"), Ok(ExifToolLine::Ready)));
    assert!(matches!(record_tool_output(&mut link, "nospace", "p"), Ok(ExifToolLine::Malformed)));
    assert!(matches!(record_tool_output(&mut link, "[File] - FileName: a.nef", "p"), Ok(ExifToolLine::Skip)));
}

#[test]
fn a_tag_line_needs_the_service() {
    let mut link = dead_link();
    assert_eq!(
        record_tool_output(&mut link, "[EXIF] 271 Make: NIKON", "C:\\a.nef").map(|_| ()),
        Err(DbError::Disconnected)
    );
}
