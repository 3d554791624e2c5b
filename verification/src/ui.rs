//! Small computations of the user interface: message parameters, dialog
//! units, text read back from list views, paths, and what the dialogs send.

use vstd::prelude::*;
use vstd::utf8::{encode_utf8, valid_utf8};
use crate::text::{chars_to_string, extend_str, str_chars};

verus! {

/// The low word of a message parameter.
pub fn loword(w: u64) -> (r: u64)
    ensures
        r == w % 0x10000,
{
    let r = w << 48u64 >> 48u64;
    assert(r == w % 0x10000) by (bit_vector)
        requires
            r == w << 48u64 >> 48u64,
    ;
    r
}

/// The high word of the low double word of a message parameter.
pub fn hiword(w: u64) -> (r: u64)
    ensures
        r == (w / 0x10000) % 0x10000,
{
    let r = w << 32u64 >> 48u64;
    assert(r == (w / 0x10000) % 0x10000) by (bit_vector)
        requires
            r == w << 32u64 >> 48u64,
    ;
    r
}

/// Integer division as Rust does it, rounding toward zero.
pub open spec fn div_toward_zero(a: int, b: int) -> int {
    if a >= 0 {
        a / b
    } else {
        -((-a) / b)
    }
}

/// Dialog units across, scaled to pixels for the Segoe UI font.
pub fn convert_x_to_client_coords(width: i32) -> (r: i32)
    requires
        i32::MIN <= width * 1750 <= i32::MAX,
    ensures
        r == div_toward_zero(width * 1750, 1000),
{
    width * 1750 / 1000
}

/// Dialog units down, scaled to pixels for the Segoe UI font.
pub fn convert_y_to_client_coords(height: i32) -> (r: i32)
    requires
        i32::MIN <= height * 1925 <= i32::MAX,
    ensures
        r == div_toward_zero(height * 1925, 1000),
{
    height * 1925 / 1000
}

/// The bytes at the even positions of `buf` from `i` on, up to the first
/// zero; `None` when no zero comes before the end.
pub open spec fn narrow_from(buf: Seq<u8>, i: int) -> Option<Seq<u8>>
    decreases buf.len() + 1 - i,
{
    if i < 0 || i >= buf.len() {
        None
    } else if buf[i] == 0 {
        Some(Seq::<u8>::empty())
    } else {
        match narrow_from(buf, i + 2) {
            Some(t) => Some(seq![buf[i]] + t),
            None => None,
        }
    }
}

/// Text that a list view wrote as UTF-16 into a byte buffer, read back one
/// byte per character up to the terminating zero.
pub fn narrow_wide_text(buf: &[u8]) -> (r: Option<Vec<u8>>)
    ensures
        match r {
            Some(v) => narrow_from(buf@, 0) == Some(v@),
            None => narrow_from(buf@, 0) is None,
        },
{
    let mut out: Vec<u8> = Vec::new();
    let mut i: usize = 0;
    loop
        invariant
            i % 2 == 0,
            narrow_from(buf@, 0) == match narrow_from(buf@, i as int) {
                Some(t) => Some(out@ + t),
                None => None::<Seq<u8>>,
            },
        decreases buf.len() + 2 - i,
    {
        if i >= buf.len() {
            return None;
        }
        if buf[i] == 0 {
            assert(out@ + Seq::<u8>::empty() =~= out@);
            return Some(out);
        }
        let ghost before = out@;
        out.push(buf[i]);
        proof {
            if let Some(t) = narrow_from(buf@, i + 2) {
                assert(before + (seq![buf@[i as int]] + t) =~= out@ + t);
            }
        }
        if i > usize::MAX - 2 {
            assert(narrow_from(buf@, i + 2) is None);
            return None;
        }
        i = i + 2;
    }
}

/// `String::from_utf8`: the text whose UTF-8 encoding is `bytes`, or `None`
/// when they are not valid UTF-8.
#[verifier::external_body]
fn string_from_utf8(bytes: Vec<u8>) -> (r: Option<String>)
    ensures
        r is Some <==> valid_utf8(bytes@),
        r matches Some(s) ==> encode_utf8(s@) == bytes@,
{
    String::from_utf8(bytes).ok()
}

/// The text of a list view item read back from its byte buffer; `None` when
/// no terminating zero comes or the bytes are not UTF-8.
pub fn wide_buffer_text(buf: &[u8]) -> (r: Option<String>)
    ensures
        match narrow_from(buf@, 0) {
            Some(bytes) => match r {
                Some(s) => valid_utf8(bytes) && encode_utf8(s@) == bytes,
                None => !valid_utf8(bytes),
            },
            None => r is None,
        },
{
    match narrow_wide_text(buf) {
        Some(bytes) => string_from_utf8(bytes),
        None => None,
    }
}

/// Where the program keeps its files under the local application data folder.
pub open spec fn app_data_dir_spec(appdata: Seq<char>) -> Seq<char> {
    appdata + "\\exifrensc"@
}

/// The settings database under the local application data folder.
pub open spec fn settings_db_path_spec(appdata: Seq<char>) -> Seq<char> {
    app_data_dir_spec(appdata) + "\\settings.sqlite"@
}

/// NX Studio's file database under the local application data folder.
pub open spec fn nx_studio_db_path_spec(appdata: Seq<char>) -> Seq<char> {
    appdata + "\\Nikon\\NX Studio\\DB\\FileData.db"@
}

/// Where the program keeps its files.
pub fn app_data_dir(appdata: &str) -> (s: String)
    ensures
        s@ == app_data_dir_spec(appdata@),
{
    let mut v = str_chars(appdata);
    extend_str(&mut v, "\\exifrensc");
    chars_to_string(&v)
}

/// The settings database.
pub fn settings_db_path(appdata: &str) -> (s: String)
    ensures
        s@ == settings_db_path_spec(appdata@),
{
    let mut v = str_chars(appdata);
    extend_str(&mut v, "\\exifrensc");
    extend_str(&mut v, "\\settings.sqlite");
    chars_to_string(&v)
}

/// NX Studio's file database.
pub fn nx_studio_db_path(appdata: &str) -> (s: String)
    ensures
        s@ == nx_studio_db_path_spec(appdata@),
{
    let mut v = str_chars(appdata);
    extend_str(&mut v, "\\Nikon\\NX Studio\\DB\\FileData.db");
    chars_to_string(&v)
}

/// Where NX Studio's file database was found, once it was.
pub struct NxStudioDB {
    location: String,
    success: bool,
}

impl NxStudioDB {
    /// Where the database was found; empty while it was not.
    pub closed spec fn location_spec(&self) -> Seq<char> {
        self.location@
    }

    /// Whether the database was found.
    pub closed spec fn found(&self) -> bool {
        self.success
    }

    /// Nothing found yet.
    pub fn new() -> (db: NxStudioDB)
        ensures
            db.location_spec() == Seq::<char>::empty(),
            !db.found(),
    {
        NxStudioDB { location: String::new(), success: false }
    }

    /// Where the database was found; empty while it was not.
    pub fn location(&self) -> (s: &String)
        ensures
            s@ == self.location_spec(),
    {
        &self.location
    }

    /// Whether the database is there. While no location is known, the
    /// candidate path is taken when it exists (`candidate_exists`); once one
    /// is known, the candidate is ignored.
    pub fn existant(&mut self, candidate: &str, candidate_exists: bool) -> (r: bool)
        ensures
            old(self).location_spec().len() > 0 ==> *final(self) == *old(self),
            old(self).location_spec().len() == 0 ==> (if candidate_exists {
                final(self).location_spec() == candidate@ && final(self).found()
            } else {
                final(self).location_spec() == old(self).location_spec() && !final(self).found()
            }),
            r == final(self).found(),
    {
        if self.location.as_str().is_empty() {
            if candidate_exists {
                self.success = true;
                self.location = candidate.to_owned();
            } else {
                self.success = false;
            }
        }
        self.success
    }
}

/// The statement that gives the file `path` the name `new_name` by hand.
pub open spec fn manual_rename_sql(new_name: Seq<char>, path: Seq<char>) -> Seq<char> {
    "UPDATE files SET new_file_name='"@ + new_name + "' WHERE path='"@ + path + "';"@
}

/// The statement that gives the file `path` the name `new_name` by hand.
pub fn manual_rename_command(new_name: &str, path: &str) -> (s: String)
    ensures
        s@ == manual_rename_sql(new_name@, path@),
{
    let mut v = str_chars("UPDATE files SET new_file_name='");
    extend_str(&mut v, new_name);
    extend_str(&mut v, "' WHERE path='");
    extend_str(&mut v, path);
    extend_str(&mut v, "';");
    chars_to_string(&v)
}

/// What the lock column shows: open for an unlocked file, shut otherwise.
pub fn lock_glyph(locked: usize) -> (s: &'static str)
    ensures
        locked == 0 ==> s@ == "\u{1F513}"@,
        locked != 0 ==> s@ == "\u{1F512}"@,
{
    if locked == 0 {
        "\u{1F513}"
    } else {
        "\u{1F512}"
    }
}

/// The UTF-16 code units of one character: itself below `0x10000`, else a
/// surrogate pair.
pub open spec fn utf16_units(c: char) -> Seq<u16> {
    let u = c as u32;
    if u < 0x10000 {
        seq![u as u16]
    } else {
        seq![(0xD800 + (u - 0x10000) / 0x400) as u16, (0xDC00 + (u - 0x10000) % 0x400) as u16]
    }
}

/// The UTF-16 encoding of a text.
pub open spec fn encode_utf16(s: Seq<char>) -> Seq<u16>
    decreases s.len(),
{
    if s.len() == 0 {
        Seq::<u16>::empty()
    } else {
        encode_utf16(s.drop_last()) + utf16_units(s.last())
    }
}

/// The UTF-16 encoding of `utf8_in`, as Windows wants its text.
pub fn utf8_to_utf16(utf8_in: &str) -> (r: Vec<u16>)
    ensures
        r@ == encode_utf16(utf8_in@),
{
    let c = str_chars(utf8_in);
    let mut out: Vec<u16> = Vec::new();
    let mut i: usize = 0;
    while i < c.len()
        invariant
            i <= c.len(),
            out@ == encode_utf16(c@.take(i as int)),
        decreases c.len() - i,
    {
        let u = c[i] as u32;
        assert(c@.take(i + 1).drop_last() =~= c@.take(i as int));
        if u < 0x10000 {
            out.push(u as u16);
        } else {
            proof {
                vstd::utf8::char_is_scalar(c@[i as int]);
            }
            let v = u - 0x10000;
            out.push((0xD800 + v / 0x400) as u16);
            out.push((0xDC00 + v % 0x400) as u16);
        }
        i = i + 1;
        assert(out@ =~= encode_utf16(c@.take(i as int)));
    }
    assert(c@.take(c@.len() as int) =~= c@);
    out
}

} // verus!
