use exifrensc::db::{DbError, DbLink};
use exifrensc::rename::{
    prerename_files, rename_command, CLEAN_NAMES_SQL, PATTERN_SQL_HEAD,
    PATTERN_SQL_TAIL, STRFTIME_SQL_HEAD, STRFTIME_SQL_TAIL, TAG_SQL_0, TAG_SQL_1, TAG_SQL_2,
    TAG_SQL_3,
};

fn tag(t: &str) -> String {
    format!("{}{}{}{}{}{}{}", TAG_SQL_0, t, TAG_SQL_1, t, TAG_SQL_2, t, TAG_SQL_3)
}

#[test]
fn date_pattern() {
    assert_eq!(
        rename_command("%Y%m%d_%H%M%S"),
        Some(format!("{}%Y%m%d_%H%M%S{}{}", STRFTIME_SQL_HEAD, STRFTIME_SQL_TAIL, CLEAN_NAMES_SQL))
    );
}

#[test]
fn tag_pattern() {
    assert_eq!(
        rename_command("$(Model)_$(LensModel)"),
        Some(format!(
            "{}$(Model)_$(LensModel){}{}{}{}",
            PATTERN_SQL_HEAD,
            PATTERN_SQL_TAIL,
            tag("Model"),
            tag("LensModel"),
            CLEAN_NAMES_SQL
        ))
    );
}

#[test]
fn date_and_tag_pattern() {
    assert_eq!(
        rename_command("%Y_$(Model)"),
        Some(format!("{}%Y_$(Model){}{}{}", STRFTIME_SQL_HEAD, STRFTIME_SQL_TAIL, tag("Model"), CLEAN_NAMES_SQL))
    );
}

#[test]
fn repeated_tag_is_taken_once() {
    assert_eq!(
        rename_command("$(A)$(A)"),
        Some(format!("{}$(A)$(A){}{}{}", PATTERN_SQL_HEAD, PATTERN_SQL_TAIL, tag("A"), CLEAN_NAMES_SQL))
    );
}

#[test]
fn plain_pattern_asks_nothing() {
    assert_eq!(rename_command("holiday"), Some(String::new()));
    assert_eq!(rename_command(""), Some(String::new()));
}

#[test]
fn unreadable_patterns() {
    assert_eq!(rename_command("$(Model"), None);
    assert_eq!(rename_command(")$(a)"), None);
}

#[test]
fn prerename_without_service() {
    let (tx, rx) = std::sync::mpsc::channel();
    drop(rx);
    let mut link = DbLink::new(tx);
    assert_eq!(prerename_files(&mut link, "holiday"), Ok(()));
    assert_eq!(prerename_files(&mut link, "%Y"), Err(DbError::Disconnected));
    assert_eq!(prerename_files(&mut link, "$(Model)"), Err(DbError::Disconnected));
}

#[test]
fn single_tag_pattern() {
    assert_eq!(
        rename_command("$(Model)"),
        Some(format!("{}$(Model){}{}{}", PATTERN_SQL_HEAD, PATTERN_SQL_TAIL, tag("Model"), CLEAN_NAMES_SQL))
    );
}

#[test]
fn every_renaming_ends_by_cleaning_the_names() {
    for pattern in ["%Y", "$(Model)", "%d_$(Make)_$(Model)", "x$(A)y"] {
        assert!(rename_command(pattern).unwrap().ends_with(CLEAN_NAMES_SQL));
    }
}
