use exifrensc::reading::{
    epoch_seconds, exif_fields_from, read_exif_fields, timestamp_in_zone, timestamp_text, TIMESTAMP_FORMAT,
};

/// A little-endian TIFF file whose only IFD holds the tag `Make` = `NIKON`.
fn tiff_with_make() -> Vec<u8> {
    let mut b: Vec<u8> = vec![0x49, 0x49, 0x2A, 0x00, 0x08, 0x00, 0x00, 0x00];
    b.extend_from_slice(&[0x01, 0x00]);
    b.extend_from_slice(&[0x0F, 0x01, 0x02, 0x00, 0x06, 0x00, 0x00, 0x00, 0x1A, 0x00, 0x00, 0x00]);
    b.extend_from_slice(&[0x00, 0x00, 0x00, 0x00]);
    b.extend_from_slice(b"NIKON\0");
    b
}

#[test]
fn the_reader_finds_the_make_of_a_tiff_file() {
    let fields = read_exif_fields(tiff_with_make());
    assert_eq!(fields.len(), 1);
    assert!(fields[0].primary);
    assert!(fields[0].has_description);
    assert_eq!(fields[0].tag_name, "Make");
    assert_eq!(fields[0].tag_number, 271);
    assert_eq!(fields[0].display, "\"NIKON\"");
}

#[test]
fn bytes_without_exif_give_no_fields() {
    assert!(read_exif_fields(b"not an image".to_vec()).is_empty());
    assert!(read_exif_fields(Vec::new()).is_empty());
}

#[test]
fn raw_fields_are_kept_as_they_came() {
    let raw = vec![
        (0u16, 271u16, "Make".to_string(), Some("Manufacturer".to_string()), "\"NIKON\"".to_string()),
        (1u16, 513u16, "JPEGInterchangeFormat".to_string(), None, "1234".to_string()),
    ];
    let fields = exif_fields_from(&raw);
    assert_eq!(fields.len(), 2);
    assert!(fields[0].primary && fields[0].has_description);
    assert!(!fields[1].primary && !fields[1].has_description);
    assert_eq!(fields[1].tag_name, "JPEGInterchangeFormat");
    assert_eq!(fields[1].tag_number, 513);
    assert_eq!(fields[1].display, "1234");
}

#[test]
fn time_stamps_are_local_iso_dates() {
    assert_eq!(timestamp_text(None), Some(String::new()));
    let text = timestamp_text(Some((86400 * 365, 0))).unwrap();
    assert_eq!(text.len(), 25);
    assert!(text.starts_with("1970-12-31") || text.starts_with("1971-01-01"));
    assert_eq!(&text[10..11], " ");
    assert_eq!(&text[4..5], "-");
    assert_eq!(&text[13..14], ":");
    assert!(&text[19..20] == "+" || &text[19..20] == "-");
    assert_eq!(&text[22..23], ":");
    assert_eq!(TIMESTAMP_FORMAT, "%Y-%m-%d %H:%M:%S%:z");
}

#[test]
fn times_beyond_chrono_give_no_stamp() {
    assert_eq!(timestamp_text(Some((i64::MAX, 0))), None);
    assert_eq!(timestamp_text(Some((8_210_266_876_800, 0))), None);
    assert_eq!(timestamp_text(Some((-8_334_601_228_801, 0))), None);
    assert_eq!(timestamp_text(Some((0, 1_000_000_000))), None);
    assert_eq!(timestamp_text(Some((0, 2_000_000_000))), None);
}

#[test]
fn the_first_and_last_instants_of_chrono_give_a_stamp() {
    assert!(timestamp_text(Some((8_210_266_876_799, 999_999_999))).is_some());
    assert!(timestamp_text(Some((-8_334_601_228_800, 0))).is_some());
    assert!(timestamp_text(Some((59, 1_500_000_000))).is_some());
}

#[test]
fn durations_become_seconds_since_the_epoch() {
    assert_eq!(epoch_seconds(false, 5, 7), Some((5, 7)));
    assert_eq!(epoch_seconds(true, 5, 0), Some((-5, 0)));
    assert_eq!(epoch_seconds(true, 5, 250_000_000), Some((-6, 750_000_000)));
    assert_eq!(epoch_seconds(false, u64::MAX, 0), None);
    assert_eq!(epoch_seconds(true, 1u64 << 63, 0), Some((i64::MIN, 0)));
}

#[test]
fn a_time_stamp_in_a_given_zone() {
    assert_eq!(timestamp_in_zone(86400 * 365, 0, 0), Some("1971-01-01 00:00:00+00:00".to_string()));
    assert_eq!(timestamp_in_zone(86400 * 365, 0, 3600), Some("1971-01-01 01:00:00+01:00".to_string()));
    assert_eq!(timestamp_in_zone(-1, 0, -19800), Some("1969-12-31 18:29:59-05:30".to_string()));
    assert_eq!(timestamp_in_zone(0, 0, 86_400), None);
    assert_eq!(timestamp_in_zone(i64::MAX, 0, 0), None);
}
