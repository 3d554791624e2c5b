//! The SQL that records image files, their sidecar files and their EXIF
//! tags in the in-memory database.

use vstd::prelude::*;
use crate::text::{
    all_digits, byte_len, chars_to_string, decimal, digits_value, lemma_decimal_digits, extend_chars, extend_str, get_span, push_decimal,
    replace_all, replace_chars, rfind_offset, same_text, str_chars, str_get, str_rfind, str_text,
    trim, trim_chars, slice_chars,
};

verus! {

/// The display value that marks an empty field.
pub const EMPTY_VALUE: &'static str = "0x00000000000000000000000000";

/// One EXIF field as the EXIF reader found it.
pub struct ExifField {
    /// The field belongs to the primary image.
    pub primary: bool,
    /// The standard describes the tag.
    pub has_description: bool,
    /// The tag's name, as the reader prints it.
    pub tag_name: String,
    /// The tag's number.
    pub tag_number: u16,
    /// The field's value, as the reader prints it.
    pub display: String,
}

/// The field is kept: a described tag of the primary image, other than the
/// maker note, with a value.
pub open spec fn field_kept(f: ExifField) -> bool {
    f.primary && f.has_description && f.tag_name@ != "MakerNote"@ && f.display@ != EMPTY_VALUE@
}

/// The row for a field read by the EXIF reader: its value trimmed and
/// without double quotes.
pub open spec fn field_sql(path: Seq<char>, f: ExifField) -> Seq<char> {
    "INSERT OR IGNORE INTO exif (path,tag,tag_id,value) VALUES('"@ + path + "','"@ + f.tag_name@
        + "',"@ + decimal(f.tag_number as nat) + ",'"@ + trim(
        replace_all(f.display@, "\""@, Seq::<char>::empty()),
    ) + "');"@
}

/// The row of a field stores the tag's number as written by the reader:
/// after the path and the tag's name comes the number in plain decimal
/// digits, whatever the number (those from 0x8000 up included), with no
/// sign.
pub proof fn law_field_row_tag_number(path: Seq<char>, f: ExifField)
    ensures
        exists|t: Seq<char>|
            t.len() > 0 && all_digits(t) && digits_value(t) == f.tag_number as nat && (
            "INSERT OR IGNORE INTO exif (path,tag,tag_id,value) VALUES('"@ + path + "','"@
                + f.tag_name@ + "',"@ + t + ",'"@).is_prefix_of(#[trigger] field_sql(path, f)),
{
    let t = decimal(f.tag_number as nat);
    lemma_decimal_digits(f.tag_number as nat);
    let head = "INSERT OR IGNORE INTO exif (path,tag,tag_id,value) VALUES('"@ + path + "','"@
        + f.tag_name@ + "',"@ + t + ",'"@;
    let row = field_sql(path, f);
    assert(row =~= head + (trim(replace_all(f.display@, "\""@, Seq::<char>::empty())) + "');"@));
    assert(row.subrange(0, head.len() as int) =~= head);
}

/// The row that keeps the field `f` of the file `path`, if it is kept.
pub fn exif_field_row(path: &str, f: &ExifField) -> (r: Option<String>)
    ensures
        match r {
            Some(s) => field_kept(*f) && s@ == field_sql(path@, *f),
            None => !field_kept(*f),
        },
{
    if !(f.primary && f.has_description && !same_text(f.tag_name.as_str(), "MakerNote") && !same_text(
        f.display.as_str(),
        EMPTY_VALUE,
    )) {
        return None;
    }
    let display = str_chars(f.display.as_str());
    let q = str_chars("\"");
    proof {
        reveal_strlit("\"");
    }
    let unquoted = replace_chars(&display, &q, &Vec::new());
    let value = trim_chars(&unquoted);
    let mut v = str_chars("INSERT OR IGNORE INTO exif (path,tag,tag_id,value) VALUES('");
    extend_str(&mut v, path);
    extend_str(&mut v, "','");
    extend_str(&mut v, f.tag_name.as_str());
    extend_str(&mut v, "',");
    push_decimal(&mut v, f.tag_number as u64);
    extend_str(&mut v, ",'");
    extend_chars(&mut v, &value);
    extend_str(&mut v, "');");
    Some(chars_to_string(&v))
}

/// The row for an image file; the sidecar path goes in when there is one.
pub open spec fn file_sql(
    path: Seq<char>,
    created: Seq<char>,
    modified: Seq<char>,
    name: Seq<char>,
    sidecar: Seq<char>,
) -> Seq<char> {
    if sidecar.len() == 0 {
        "INSERT OR IGNORE INTO files (path,created,modified,orig_file_name) VALUES('"@ + path
            + "','"@ + created + "','"@ + modified + "','"@ + name + "');"@
    } else {
        "INSERT OR IGNORE INTO files (path,created,modified,orig_file_name,nksc_path) VALUES('"@
            + path + "','"@ + created + "','"@ + modified + "','"@ + name + "','"@ + sidecar
            + "');"@
    }
}

/// The row for an image file, with its sidecar file when `sidecar` is not empty.
pub fn file_row(path: &str, created: &str, modified: &str, name: &str, sidecar: &str) -> (s: String)
    ensures
        s@ == file_sql(path@, created@, modified@, name@, sidecar@),
{
    let with_sidecar = !sidecar.is_empty();
    let mut v = if with_sidecar {
        str_chars("INSERT OR IGNORE INTO files (path,created,modified,orig_file_name,nksc_path) VALUES('")
    } else {
        str_chars("INSERT OR IGNORE INTO files (path,created,modified,orig_file_name) VALUES('")
    };
    extend_str(&mut v, path);
    extend_str(&mut v, "','");
    extend_str(&mut v, created);
    extend_str(&mut v, "','");
    extend_str(&mut v, modified);
    extend_str(&mut v, "','");
    extend_str(&mut v, name);
    if with_sidecar {
        extend_str(&mut v, "','");
        extend_str(&mut v, sidecar);
    }
    extend_str(&mut v, "');");
    chars_to_string(&v)
}

/// The name under which a sidecar file is filed: the text of the trimmed
/// path between the byte offsets that follow its last `\` and that of its
/// last `.`, both taken in the path before trimming.
pub open spec fn sidecar_key_spec(path: Seq<char>) -> Option<Seq<char>> {
    match (str_rfind(path, "\\"@), str_rfind(path, "."@)) {
        (Some(d), Some(e)) => str_get(trim(path), d + 1, e),
        _ => None,
    }
}

/// The name under which the sidecar file `path` is filed (the image's file name).
pub fn sidecar_key(path: &str) -> (r: Option<String>)
    ensures
        match r {
            Some(s) => sidecar_key_spec(path@) == Some(s@),
            None => sidecar_key_spec(path@) is None,
        },
{
    let (c, n) = str_text(path);
    let d = rfind_offset(&c, n, "\\");
    let e = rfind_offset(&c, n, ".");
    match (d, e) {
        (Some(d), Some(e)) => {
            let t = trim_chars(&c);
            proof {
                crate::text::lemma_trim_byte_len(c@);
            }
            let tn = crate::text::byte_length(&t);
            match get_span(&t, tn, d as i128 + 1, e as i128) {
                Some(k) => Some(chars_to_string(&k)),
                None => None,
            }
        },
        _ => None,
    }
}

/// What gives the rows read by a long-running ExifTool their file's path.
pub open spec fn placeholder_update_sql(path: Seq<char>) -> Seq<char> {
    "UPDATE exif SET path='"@ + path + "' WHERE path='file_path';"@
}

/// Gives the rows read by a long-running ExifTool the path `path`.
pub fn placeholder_update(path: &str) -> (s: String)
    ensures
        s@ == placeholder_update_sql(path@),
{
    let mut v = str_chars("UPDATE exif SET path='");
    extend_str(&mut v, path);
    extend_str(&mut v, "' WHERE path='file_path';");
    chars_to_string(&v)
}

/// A character that separates the parts of a path: `\` or `/`.
pub open spec fn is_separator(c: char) -> bool {
    c == '\\' || c == '/'
}

/// A path without the separators at its end.
pub open spec fn trim_separators(p: Seq<char>) -> Seq<char>
    decreases p.len(),
{
    if p.len() > 0 && is_separator(p.last()) {
        trim_separators(p.drop_last())
    } else {
        p
    }
}

/// The index of the last separator of `p`.
pub open spec fn last_separator(p: Seq<char>) -> Option<int>
    decreases p.len(),
{
    if p.len() == 0 {
        None
    } else if is_separator(p.last()) {
        Some(p.len() - 1)
    } else {
        last_separator(p.drop_last())
    }
}

/// The last separator lies within the path.
proof fn lemma_last_separator_bounds(p: Seq<char>)
    ensures
        last_separator(p) matches Some(k) ==> 0 <= k < p.len(),
    decreases p.len(),
{
    if p.len() > 0 && !is_separator(p.last()) {
        lemma_last_separator_bounds(p.drop_last());
    }
}

/// Where NX Studio keeps the sidecar file of the image `path`: the file
/// `<name>.nksc` in the folder `NKSC_PARAM` of the image's folder, the
/// folder being the path up to its last `\` or `/` (separators at the end
/// of the path, and at the end of the folder, not counted), the name what
/// follows it. Without a separator the folder is the current one, and the
/// result is `NKSC_PARAM\<name>.nksc`; with nothing but separators there is
/// no name, and no result.
pub open spec fn sidecar_path_spec(path: Seq<char>) -> Option<Seq<char>> {
    let p = trim_separators(path);
    if p.len() == 0 {
        None
    } else {
        match last_separator(p) {
            Some(k) => Some(
                trim_separators(p.take(k)) + "\\NKSC_PARAM\\"@ + p.skip(k + 1) + ".nksc"@,
            ),
            None => Some("NKSC_PARAM\\"@ + p + ".nksc"@),
        }
    }
}

/// The length of `c`'s first `n` characters once the separators at their end
/// are dropped.
fn trimmed_len(c: &Vec<char>, n: usize) -> (m: usize)
    requires
        n <= c.len(),
    ensures
        m <= n,
        c@.take(m as int) == trim_separators(c@.take(n as int)),
{
    let mut m = n;
    while m > 0 && (c[m - 1] == '\\' || c[m - 1] == '/')
        invariant
            m <= n <= c.len(),
            trim_separators(c@.take(m as int)) == trim_separators(c@.take(n as int)),
        decreases m,
    {
        assert(c@.take(m as int).drop_last() =~= c@.take(m - 1));
        m = m - 1;
    }
    proof {
        if m > 0 {
            assert(c@.take(m as int).last() == c@[m - 1]);
        }
    }
    m
}

/// The index of the last separator among `c`'s first `n` characters.
fn last_separator_in(c: &Vec<char>, n: usize) -> (r: Option<usize>)
    requires
        n <= c.len(),
    ensures
        match r {
            Some(k) => last_separator(c@.take(n as int)) == Some(k as int),
            None => last_separator(c@.take(n as int)) is None,
        },
{
    let mut i = n;
    while i > 0
        invariant
            i <= n <= c.len(),
            last_separator(c@.take(n as int)) == last_separator(c@.take(i as int)),
        decreases i,
    {
        assert(c@.take(i as int).drop_last() =~= c@.take(i - 1));
        assert(c@.take(i as int).last() == c@[i - 1]);
        if c[i - 1] == '\\' || c[i - 1] == '/' {
            return Some(i - 1);
        }
        i = i - 1;
    }
    None
}

/// Where NX Studio keeps the sidecar file of the image `path`.
pub fn sidecar_path(path: &str) -> (r: Option<String>)
    ensures
        match r {
            Some(s) => sidecar_path_spec(path@) == Some(s@),
            None => sidecar_path_spec(path@) is None,
        },
{
    let c = str_chars(path);
    let end = trimmed_len(&c, c.len());
    assert(c@.take(c@.len() as int) =~= c@);
    let ghost p = c@.take(end as int);
    if end == 0 {
        return None;
    }
    match last_separator_in(&c, end) {
        Some(k) => {
            proof {
                lemma_last_separator_bounds(p);
            }
            let folder_end = trimmed_len(&c, k);
            let mut v = slice_chars(&c, 0, folder_end);
            extend_str(&mut v, "\\NKSC_PARAM\\");
            let name = slice_chars(&c, k + 1, end);
            extend_chars(&mut v, &name);
            extend_str(&mut v, ".nksc");
            assert(p.take(k as int) =~= c@.take(k as int));
            assert(c@.take(folder_end as int) =~= c@.subrange(0, folder_end as int));
            assert(p.skip(k + 1) =~= c@.subrange(k + 1, end as int));
            Some(chars_to_string(&v))
        },
        None => {
            let mut v = str_chars("NKSC_PARAM\\");
            let name = slice_chars(&c, 0, end);
            extend_chars(&mut v, &name);
            extend_str(&mut v, ".nksc");
            assert(p =~= c@.subrange(0, end as int));
            Some(chars_to_string(&v))
        },
    }
}

/// The sidecar file kept under the image name `name` in `sidecars` (pairs of
/// image name and sidecar path, a later pair replacing an earlier one).
pub open spec fn sidecar_for(sidecars: Seq<(Seq<char>, Seq<char>)>, name: Seq<char>) -> Option<Seq<char>>
    decreases sidecars.len(),
{
    if sidecars.len() == 0 {
        None
    } else if sidecars.last().0 == name {
        Some(sidecars.last().1)
    } else {
        sidecar_for(sidecars.drop_last(), name)
    }
}

/// Pairs read as plain values.
pub open spec fn pairs_view(v: Seq<(String, String)>) -> Seq<(Seq<char>, Seq<char>)> {
    v.map_values(|p: (String, String)| (p.0@, p.1@))
}

/// The sidecar file kept under the image name `name`; the empty text where
/// there is none. The sidecars found in a directory are kept as a list of
/// pairs searched from its end, which answers as a map filled in the same
/// order would, and whose lookups Verus can reason about: with text keys a
/// `HashMap` lookup comes with no usable specification.
pub fn find_sidecar(sidecars: &Vec<(String, String)>, name: &str) -> (r: String)
    ensures
        match sidecar_for(pairs_view(sidecars@), name@) {
            Some(p) => r@ == p,
            None => r@ == Seq::<char>::empty(),
        },
{
    let ghost all = pairs_view(sidecars@);
    let mut i: usize = sidecars.len();
    assert(all.take(i as int) =~= all);
    while i > 0
        invariant
            i <= sidecars.len(),
            all == pairs_view(sidecars@),
            sidecar_for(all, name@) == sidecar_for(all.take(i as int), name@),
        decreases i,
    {
        assert(all.take(i as int).drop_last() =~= all.take(i - 1));
        assert(all.take(i as int).last() == all[i - 1]);
        if same_text(sidecars[i - 1].0.as_str(), name) {
            return sidecars[i - 1].1.clone();
        }
        i = i - 1;
    }
    String::new()
}

} // verus!
