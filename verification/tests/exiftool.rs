use exifrensc::exiftool::{
    classify_exiftool_line, exiftool_request, ExifToolLine, WARN_COLON, WARN_EXTRACT,
    WARN_TAG, WARN_TAG_DELIMITER, WARN_VALUE,
};

fn record(line: &str, path: &str) -> Option<String> {
    match classify_exiftool_line(line, path) {
        ExifToolLine::Record(s) => Some(s),
        _ => None,
    }
}

fn warning(line: &str) -> Option<String> {
    match classify_exiftool_line(line, "p") {
        ExifToolLine::Warning(s) => Some(s),
        _ => None,
    }
}

fn is_skip(line: &str) -> bool {
    matches!(classify_exiftool_line(line, "p"), ExifToolLine::Skip)
}

#[test]
fn exif_line_becomes_a_row_with_its_id() {
    assert_eq!(
        record("[EXIF] 36867 DateTimeOriginal: 2022:10:31 15:37:25", "C:\\a.nef"),
        Some(
            "INSERT OR IGNORE INTO exif (path,tag,tag_id,value) VALUES('C:\\a.nef','DateTimeOriginal',36867,'2022:10:31 15:37:25');"
                .to_string()
        )
    );
}

#[test]
fn iptc_line_becomes_a_row() {
    assert_eq!(
        record("[IPTC] 80 By-line: Someone", "file_path"),
        Some("INSERT OR IGNORE INTO exif (path,tag,tag_id,value) VALUES('file_path','By-line',80,'Someone');".to_string())
    );
}

#[test]
fn composite_line_becomes_a_row_without_id() {
    assert_eq!(
        record("[Composite] - SubSecCreateDate: 2022:10:31 15:37:25.0180+10:00", "x"),
        Some(
            "INSERT OR IGNORE INTO exif (path,tag,value) VALUES('x','SubSecCreateDate','2022:10:31 15:37:25.0180+10:00');"
                .to_string()
        )
    );
    assert_eq!(
        record("[XMP] - Rating: 5", "x"),
        Some("INSERT OR IGNORE INTO exif (path,tag,value) VALUES('x','Rating','5');".to_string())
    );
}

#[test]
fn double_quotes_are_taken_out_of_values() {
    assert_eq!(
        record("[EXIF] 270 ImageDescription: a \"b\" c", "x"),
        Some("INSERT OR IGNORE INTO exif (path,tag,tag_id,value) VALUES('x','ImageDescription',270,'a b c');".to_string())
    );
}

#[test]
fn other_groups_are_skipped() {
    assert!(is_skip("[File] - FileModifyDate: 2022:11:01 01:39:18+10:00"));
    assert!(is_skip("[XMP]->[XMP] - DateTimeDigitized: 2022:12:25 12:06:41+10:00"));
    assert!(is_skip("[IPTC]->[IPTC] 80 By-line: Someone"));
    assert!(is_skip("[EXIF] 37500 MakerNote: (Binary data 100 bytes, use -b option to extract)"));
    assert!(is_skip("[EXIF] 1 Empty: "));
}

#[test]
fn ready_ends_a_request() {
    assert!(matches!(classify_exiftool_line("{ready}", "p"), ExifToolLine::Ready));
}

#[test]
fn line_without_space_is_malformed() {
    assert!(matches!(classify_exiftool_line("nospace", "p"), ExifToolLine::Malformed));
    assert!(matches!(classify_exiftool_line("", "p"), ExifToolLine::Malformed));
}

#[test]
fn broken_lines_give_the_warnings() {
    assert_eq!(warning("[EXIF] 12"), Some(WARN_TAG_DELIMITER.to_string()));
    assert_eq!(warning("[EXIF] 1 Tag value"), Some(WARN_COLON.to_string()));
    assert_eq!(warning("[EXIF] 1: x y"), Some(WARN_EXTRACT.to_string()));
    assert_eq!(warning("[EXIF] 1 Tag:"), Some(WARN_VALUE.to_string()));
    assert_eq!(warning("[XMP] no colon"), Some(WARN_COLON.to_string()));
    assert_eq!(warning("[XMP] x:y"), Some(WARN_TAG.to_string()));
    assert_eq!(warning("[XMP] - Tag:"), Some(WARN_VALUE.to_string()));
}

#[test]
fn request_asks_for_one_file() {
    assert_eq!(exiftool_request("C:\\a.nef"), "-G\n-D\n-s2\n-f\n-n\nC:\\a.nef\n-execute\n");
}
