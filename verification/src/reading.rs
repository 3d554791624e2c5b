//! What the library takes from an image file: its EXIF fields as the
//! built-in EXIF reader finds them in the file's bytes, and its time stamps
//! as text.

use vstd::prelude::*;
use crate::db::opt_chars;
use crate::records::ExifField;
use crate::text::is_digit;

verus! {

/// A field as the EXIF reader gives it: the index of its IFD, the tag's
/// number, the tag's name, the tag's description where the standard has one,
/// and the value as the reader prints it.
pub type RawField = (u16, u16, String, Option<String>, String);

/// A field as the EXIF reader gives it, read as plain values.
pub open spec fn raw_view(f: RawField) -> (u16, u16, Seq<char>, Option<Seq<char>>, Seq<char>) {
    (f.0, f.1, f.2@, opt_chars(f.3), f.4@)
}

/// The fields, in order, that the EXIF reader finds in the bytes of an image
/// file; `None` where it finds no EXIF data it can read.
pub uninterp spec fn exif_fields_read(bytes: Seq<u8>) -> Option<
    Seq<(u16, u16, Seq<char>, Option<Seq<char>>, Seq<char>)>,
>;

/// `exif::Reader::read_from_container` on the bytes of an image file, each
/// field taken apart into its IFD index (`In::index`), tag number
/// (`Tag::number`), tag name (`Tag`'s `Display`), tag description
/// (`Tag::description`) and printed value (`Field::display_value`). Claimed:
/// the result is what `exif_fields_read` names for these bytes.
#[verifier::external_body]
fn read_container(bytes: Vec<u8>) -> (r: Option<Vec<RawField>>)
    ensures
        match r {
            None => exif_fields_read(bytes@) is None,
            Some(v) => exif_fields_read(bytes@) == Some(v@.map_values(|f: RawField| raw_view(f))),
        },
{
    match exif::Reader::new().read_from_container(&mut std::io::Cursor::new(bytes)) {
        Ok(exif) => Some(
            exif.fields().map(|f| (f.ifd_num.index(), f.tag.number(), f.tag.to_string(),
                f.tag.description().map(|d| d.to_string()), f.display_value().to_string())).collect(),
        ),
        Err(_) => None,
    }
}

/// `f` is the field `raw` as the library keeps it: of the primary image when
/// its IFD is the first, described when the standard describes its tag.
pub open spec fn kept_as(f: ExifField, raw: (u16, u16, Seq<char>, Option<Seq<char>>, Seq<char>)) -> bool {
    &&& f.primary == (raw.0 == 0)
    &&& f.has_description == (raw.3 is Some)
    &&& f.tag_name@ == raw.2
    &&& f.tag_number == raw.1
    &&& f.display@ == raw.4
}

/// The fields the EXIF reader gave, as the library keeps them, in order.
pub fn exif_fields_from(raw: &Vec<RawField>) -> (v: Vec<ExifField>)
    ensures
        v.len() == raw.len(),
        forall|i: int| 0 <= i < v.len() ==> kept_as(#[trigger] v[i], raw_view(raw[i])),
{
    let mut v: Vec<ExifField> = Vec::new();
    let mut i: usize = 0;
    while i < raw.len()
        invariant
            i <= raw.len(),
            v.len() == i,
            forall|j: int| 0 <= j < i ==> kept_as(#[trigger] v[j], raw_view(raw[j])),
        decreases raw.len() - i,
    {
        let f = &raw[i];
        let described = match &f.3 {
            Some(_) => true,
            None => false,
        };
        v.push(
            ExifField {
                primary: f.0 == 0,
                has_description: described,
                tag_name: f.2.clone(),
                tag_number: f.1,
                display: f.4.clone(),
            },
        );
        i = i + 1;
    }
    v
}

/// The EXIF fields of the image file whose bytes are `bytes`, as the
/// library keeps them; none where the reader finds no EXIF data.
pub fn read_exif_fields(bytes: Vec<u8>) -> (v: Vec<ExifField>)
    ensures
        match exif_fields_read(bytes@) {
            None => v.len() == 0,
            Some(raw) => v.len() == raw.len() && forall|i: int|
                0 <= i < v.len() ==> kept_as(#[trigger] v[i], raw[i]),
        },
{
    match read_container(bytes) {
        Some(raw) => exif_fields_from(&raw),
        None => Vec::new(),
    }
}

/// The form in which file time stamps are kept: local date and time, and
/// the offset from UTC.
pub const TIMESTAMP_FORMAT: &'static str = "%Y-%m-%d %H:%M:%S%:z";

/// How a character of a time stamp's fields is written: `d` stands for a
/// digit, `s` for the sign of the offset; any other character stands for
/// itself.
pub open spec fn stamp_char(pattern: char, c: char) -> bool {
    if pattern == 'd' {
        is_digit(c)
    } else if pattern == 's' {
        c == '+' || c == '-'
    } else {
        c == pattern
    }
}

/// A time stamp as [`TIMESTAMP_FORMAT`] writes it: the year in at least four
/// digits, after a sign where it lies outside `0..=9999`, then the month,
/// day, hours, minutes and seconds in two digits each
/// (`-MM-DD HH:MM:SS`), then the offset from UTC (`+HH:MM` or `-HH:MM`).
pub open spec fn timestamp_shape(s: Seq<char>) -> bool {
    let n = s.len() as int;
    let fields = "-dd-dd dd:dd:ddsdd:dd"@;
    &&& n >= 25
    &&& is_digit(s[0]) || s[0] == '+' || s[0] == '-'
    &&& forall|i: int| 1 <= i < n - 21 ==> is_digit(#[trigger] s[i])
    &&& forall|i: int| 0 <= i < 21 ==> stamp_char(fields[i], #[trigger] s[n - 21 + i])
}

/// A time `secs` seconds and `nanos` nanoseconds away from the Unix epoch,
/// before it when `before`, as whole seconds since the epoch (rounded down)
/// and the nanoseconds after them.
pub open spec fn epoch_split(before: bool, secs: nat, nanos: nat) -> (int, nat) {
    if !before {
        (secs as int, nanos)
    } else if nanos == 0 {
        (-secs, 0)
    } else {
        (-secs - 1, (1_000_000_000 - nanos) as nat)
    }
}

/// The time a `Duration` from the Unix epoch gives (`secs` and `nanos`,
/// before the epoch when `before`), as seconds and nanoseconds since the
/// epoch; `None` where the seconds do not fit an `i64`.
pub fn epoch_seconds(before: bool, secs: u64, nanos: u32) -> (r: Option<(i64, u32)>)
    requires
        nanos < 1_000_000_000,
    ensures
        match r {
            Some((s, n)) => (s as int, n as nat) == epoch_split(before, secs as nat, nanos as nat)
                && n < 1_000_000_000,
            None => !(i64::MIN <= epoch_split(before, secs as nat, nanos as nat).0 <= i64::MAX),
        },
{
    if !before {
        if secs > i64::MAX as u64 {
            return None;
        }
        Some((secs as i64, nanos))
    } else if nanos == 0 {
        if secs > 0x8000_0000_0000_0000u64 {
            return None;
        }
        if secs == 0x8000_0000_0000_0000u64 {
            return Some((i64::MIN, 0));
        }
        Some((-(secs as i64), 0))
    } else {
        if secs > i64::MAX as u64 {
            return None;
        }
        Some((-(secs as i64) - 1, 1_000_000_000 - nanos))
    }
}

/// Whether chrono holds the instant `secs` seconds and `nanos` nanoseconds
/// after the Unix epoch, that is whether `DateTime::from_timestamp` gives
/// `Some`: its day, counted from 1 January of the year 1 as day 1, lies
/// between 1 January of the year -262143 and 31 December of the year 262142
/// (chrono's `NaiveDate::MIN` and `NaiveDate::MAX`), and `nanos` is under a
/// second, or under two seconds in the last second of a minute (a leap
/// second).
pub open spec fn chrono_instant(secs: i64, nanos: u32) -> bool {
    let day = secs as int / 86_400 + 719_163;
    &&& -95_746_129 <= day <= 95_745_399
    &&& (nanos < 1_000_000_000 || (nanos < 2_000_000_000 && secs as int % 60 == 59))
}

/// What chrono prints for the instant `secs`, `nanos` after the Unix epoch
/// in the zone `offset` seconds east of UTC with the format `format`
/// (`DateTime::from_timestamp`, `FixedOffset::east_opt`,
/// `DateTime::with_timezone`, `DateTime::format`); `None` where the instant
/// or the offset is out of chrono's range.
pub uninterp spec fn chrono_text(secs: i64, nanos: u32, offset: i32, format: Seq<char>) -> Option<Seq<char>>;

/// `chrono`: the offset from UTC, in seconds east, of the machine's time
/// zone at the instant `secs`, `nanos` (`DateTime::from_timestamp`, then
/// `Local::offset_from_utc_datetime` and `FixedOffset::local_minus_utc`).
/// Claimed: `None` exactly where `from_timestamp` gives `None`, and an
/// offset within chrono's range of less than a day either way. Which offset
/// comes back depends on the machine and is not claimed.
#[verifier::external_body]
fn local_offset(secs: i64, nanos: u32) -> (r: Option<i32>)
    ensures
        r is Some <==> chrono_instant(secs, nanos),
        r matches Some(o) ==> -86_400 < o < 86_400,
{
    match chrono::DateTime::from_timestamp(secs, nanos) {
        Some(utc) => Some(
            chrono::TimeZone::offset_from_utc_datetime(&chrono::Local, &utc.naive_utc()).local_minus_utc(),
        ),
        None => None,
    }
}

/// `chrono`: the instant `secs`, `nanos` after the Unix epoch in the zone
/// `offset` seconds east of UTC, printed with `format`, which must be
/// [`TIMESTAMP_FORMAT`]. Claimed: the result is what `chrono_text` names;
/// it is `None` exactly where `DateTime::from_timestamp` or
/// `FixedOffset::east_opt` gives `None`; and the text has the layout that
/// chrono's formatting code gives `%Y`, `%m`, `%d`, `%H`, `%M`, `%S` and
/// `%:z`.
#[verifier::external_body]
fn offset_time_text(secs: i64, nanos: u32, offset: i32, format: &str) -> (r: Option<String>)
    requires
        format@ == TIMESTAMP_FORMAT@,
    ensures
        opt_chars(r) == chrono_text(secs, nanos, offset, format@),
        r is Some <==> (chrono_instant(secs, nanos) && -86_400 < offset < 86_400),
        r matches Some(s) ==> timestamp_shape(s@),
{
    match (chrono::DateTime::from_timestamp(secs, nanos), chrono::FixedOffset::east_opt(offset)) {
        (Some(utc), Some(zone)) => Some(utc.with_timezone(&zone).format(format).to_string()),
        _ => None,
    }
}

/// The instant `secs`, `nanos` after the Unix epoch printed in
/// [`TIMESTAMP_FORMAT`] in the zone `offset` seconds east of UTC; `None`
/// where chrono cannot hold the instant or the offset is a day or more.
pub fn timestamp_in_zone(secs: i64, nanos: u32, offset: i32) -> (r: Option<String>)
    ensures
        opt_chars(r) == chrono_text(secs, nanos, offset, TIMESTAMP_FORMAT@),
        r is Some <==> (chrono_instant(secs, nanos) && -86_400 < offset < 86_400),
        r matches Some(s) ==> timestamp_shape(s@),
{
    offset_time_text(secs, nanos, offset, TIMESTAMP_FORMAT)
}

/// A file's time stamp as it is kept: the instant `secs`, `nanos` after the
/// Unix epoch printed in [`TIMESTAMP_FORMAT`] in the machine's time zone;
/// empty where the file system gives no time, `None` where chrono cannot
/// hold the instant.
pub fn timestamp_text(t: Option<(i64, u32)>) -> (r: Option<String>)
    ensures
        t is None ==> (r matches Some(s) && s@ == Seq::<char>::empty()),
        t matches Some((secs, nanos)) ==> {
            &&& !chrono_instant(secs, nanos) ==> r is None
            &&& chrono_instant(secs, nanos) ==> exists|offset: i32|
                -86_400 < offset < 86_400 && opt_chars(r) == chrono_text(
                    secs,
                    nanos,
                    offset,
                    TIMESTAMP_FORMAT@,
                )
            &&& r matches Some(s) ==> timestamp_shape(s@)
        },
{
    match t {
        None => Some(String::new()),
        Some((secs, nanos)) => match local_offset(secs, nanos) {
            Some(offset) => {
                let r = timestamp_in_zone(secs, nanos, offset);
                assert(-86_400 < offset < 86_400 && opt_chars(r) == chrono_text(
                    secs,
                    nanos,
                    offset,
                    TIMESTAMP_FORMAT@,
                ));
                r
            },
            None => None,
        },
    }
}

} // verus!
