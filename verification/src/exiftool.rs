//! Talking to ExifTool in its "stay open" mode: the requests written to its
//! input, and how each line of its output turns into an EXIF row.

use vstd::prelude::*;
use crate::text::{
    byte_len, chars_to_string, contains_chars, contains_seq, extend_chars, extend_str,
    find_offset, get_span, replace_all, replace_chars, str_chars, str_find, str_get, str_text,
    byte_length, lemma_str_get_byte_len, lemma_ascii_text, lemma_ascii_prefix_offsets,
    lemma_find_first_char, lemma_get_exact, lemma_byte_len_end, lemma_byte_len_concat,
};

verus! {

/// What ExifTool prints when it has finished one request.
pub const READY_LINE: &'static str = "{ready}";

/// The text that marks binary values, whose lines are skipped.
pub const BINARY_MARK: &'static str = "use -b option to extract)";

/// What ExifTool is sent to make it quit.
pub const STOP_REQUEST: &'static str = "-stay_open\nfalse\n-execute\n";

/// The path that rows read through a long-running ExifTool get until the
/// file is known.
pub const PLACEHOLDER_PATH: &'static str = "file_path";

/// Warning for a tagged line whose value cannot be cut out.
pub const WARN_VALUE: &'static str = "Extracting exif_value failed.";

/// Warning for a tagged line whose tag and value cannot be cut out.
pub const WARN_EXTRACT: &'static str = "Extracting failed.";

/// Warning for a tagged line without the `:` that ends its tag.
pub const WARN_COLON: &'static str = "Finding exif_value_delimeter failed looking for a :";

/// Warning for a tagged line whose id cannot be cut out.
pub const WARN_ID: &'static str = "exif_id failed";

/// Warning for a tagged line without the space that ends its id.
pub const WARN_TAG_DELIMITER: &'static str = "exif_tag_delimeter failed";

/// Warning for an untagged line whose tag cannot be cut out.
pub const WARN_TAG: &'static str = "Extracting exif_tag failed.";

/// What a line of ExifTool's output means.
pub enum ToolLine {
    /// ExifTool has finished the request.
    Ready,
    /// Nothing to do with this line.
    Skip,
    /// Run this SQL to keep the tag.
    Record(Seq<char>),
    /// Show this warning.
    Warning(Seq<char>),
    /// A line without a space, which cannot be cut into type and rest.
    Malformed,
}

/// The executable form of [`ToolLine`].
pub enum ExifToolLine {
    Ready,
    Skip,
    Record(String),
    Warning(String),
    Malformed,
}

impl View for ExifToolLine {
    type V = ToolLine;

    open spec fn view(&self) -> ToolLine {
        match self {
            ExifToolLine::Ready => ToolLine::Ready,
            ExifToolLine::Skip => ToolLine::Skip,
            ExifToolLine::Record(s) => ToolLine::Record(s@),
            ExifToolLine::Warning(s) => ToolLine::Warning(s@),
            ExifToolLine::Malformed => ToolLine::Malformed,
        }
    }
}

/// The request that asks ExifTool for the tags of `path`.
pub open spec fn tool_request(path: Seq<char>) -> Seq<char> {
    "-G\n-D\n-s2\n-f\n-n\n"@ + path + "\n-execute\n"@
}

/// A value with its double quotes taken out.
pub open spec fn unquoted(value: Seq<char>) -> Seq<char> {
    replace_all(value, "\""@, Seq::<char>::empty())
}

/// The row for an EXIF or IPTC tag, which has a numeric id.
pub open spec fn tag_with_id_sql(path: Seq<char>, tag: Seq<char>, id: Seq<char>, value: Seq<char>) -> Seq<char> {
    "INSERT OR IGNORE INTO exif (path,tag,tag_id,value) VALUES('"@ + path + "','"@ + tag + "',"@ + id
        + ",'"@ + value + "');"@
}

/// The row for a Composite or XMP tag, which has no id.
pub open spec fn tag_sql(path: Seq<char>, tag: Seq<char>, value: Seq<char>) -> Seq<char> {
    "INSERT OR IGNORE INTO exif (path,tag,value) VALUES('"@ + path + "','"@ + tag + "','"@ + value
        + "');"@
}

/// The end of a text, from byte `from` on.
pub open spec fn rest_of(s: Seq<char>, from: int) -> Option<Seq<char>> {
    str_get(s, from, byte_len(s) as int)
}

/// A value once it is known: no row for an empty one.
pub open spec fn record_value(value: Seq<char>, row: Seq<char>) -> ToolLine {
    if value.len() == 0 {
        ToolLine::Skip
    } else {
        ToolLine::Record(row)
    }
}

/// A line `[EXIF] <id> <tag>: <value>` (or `[IPTC]`).
pub open spec fn tagged_line(line: Seq<char>, path: Seq<char>) -> ToolLine {
    match rest_of(line, 7) {
        None => ToolLine::Malformed,
        Some(after) => match str_find(after, " "@) {
            None => ToolLine::Warning(WARN_TAG_DELIMITER@),
            Some(t) => match str_get(line, 7, 7 + t) {
                None => ToolLine::Warning(WARN_ID@),
                Some(id) => match str_find(line, ":"@) {
                    None => ToolLine::Warning(WARN_COLON@),
                    Some(v) => match str_get(line, 7 + t + 1, v) {
                        None => ToolLine::Warning(WARN_EXTRACT@),
                        Some(tag) => match rest_of(line, v + 2) {
                            None => ToolLine::Warning(WARN_VALUE@),
                            Some(value) => record_value(
                                value,
                                tag_with_id_sql(path, tag, id, unquoted(value)),
                            ),
                        },
                    },
                },
            },
        },
    }
}

/// A line `[Composite] - <tag>: <value>` (or `[XMP]`), whose type ends at byte `e`.
pub open spec fn untagged_line(line: Seq<char>, e: int, path: Seq<char>) -> ToolLine {
    match str_find(line, ":"@) {
        None => ToolLine::Warning(WARN_COLON@),
        Some(v) => match str_get(line, e + 3, v) {
            None => ToolLine::Warning(WARN_TAG@),
            Some(tag) => match rest_of(line, v + 2) {
                None => ToolLine::Warning(WARN_VALUE@),
                Some(value) => record_value(value, tag_sql(path, tag, unquoted(value))),
            },
        },
    }
}

/// What the line `line` of ExifTool's output means for the file `path`.
pub open spec fn tool_line(line: Seq<char>, path: Seq<char>) -> ToolLine {
    if line == READY_LINE@ {
        ToolLine::Ready
    } else if contains_seq(line, BINARY_MARK@) {
        ToolLine::Skip
    } else {
        match str_find(line, " "@) {
            None => ToolLine::Malformed,
            Some(e) => match str_get(line, 0, e) {
                None => ToolLine::Malformed,
                Some(kind) => if kind == "[EXIF]"@ || kind == "[IPTC]"@ {
                    tagged_line(line, path)
                } else if kind == "[Composite]"@ || kind == "[XMP]"@ {
                    untagged_line(line, e, path)
                } else {
                    ToolLine::Skip
                },
            },
        }
    }
}

/// The request that asks ExifTool for the tags of `path`.
pub fn exiftool_request(path: &str) -> (s: String)
    ensures
        s@ == tool_request(path@),
{
    let mut v = str_chars("-G\n-D\n-s2\n-f\n-n\n");
    extend_str(&mut v, path);
    extend_str(&mut v, "\n-execute\n");
    chars_to_string(&v)
}

fn unquote(value: &Vec<char>) -> (r: Vec<char>)
    ensures
        r@ == unquoted(value@),
{
    let q = str_chars("\"");
    let empty: Vec<char> = Vec::new();
    proof {
        reveal_strlit("\"");
    }
    replace_chars(value, &q, &empty)
}

fn tagged_row(
    path: &Vec<char>,
    tag: &Vec<char>,
    id: &Vec<char>,
    value: &Vec<char>,
) -> (s: String)
    ensures
        s@ == tag_with_id_sql(path@, tag@, id@, value@),
{
    let mut v = str_chars("INSERT OR IGNORE INTO exif (path,tag,tag_id,value) VALUES('");
    extend_chars(&mut v, path);
    extend_str(&mut v, "','");
    extend_chars(&mut v, tag);
    extend_str(&mut v, "',");
    extend_chars(&mut v, id);
    extend_str(&mut v, ",'");
    extend_chars(&mut v, value);
    extend_str(&mut v, "');");
    chars_to_string(&v)
}

fn untagged_row(path: &Vec<char>, tag: &Vec<char>, value: &Vec<char>) -> (s: String)
    ensures
        s@ == tag_sql(path@, tag@, value@),
{
    let mut v = str_chars("INSERT OR IGNORE INTO exif (path,tag,value) VALUES('");
    extend_chars(&mut v, path);
    extend_str(&mut v, "','");
    extend_chars(&mut v, tag);
    extend_str(&mut v, "','");
    extend_chars(&mut v, value);
    extend_str(&mut v, "');");
    chars_to_string(&v)
}

fn classify_tagged(line: &Vec<char>, n: usize, path: &Vec<char>) -> (r: ExifToolLine)
    requires
        n == byte_len(line@),
    ensures
        r@ == tagged_line(line@, path@),
{
    let after = match get_span(line, n, 7, n as i128) {
        Some(a) => a,
        None => return ExifToolLine::Malformed,
    };
    proof {
        lemma_str_get_byte_len(line@, 7, n as int);
    }
    let an = byte_length(&after);
    let t = match find_offset(&after, an, " ") {
        Some(t) => t,
        None => return ExifToolLine::Warning(WARN_TAG_DELIMITER.to_owned()),
    };
    let id = match get_span(line, n, 7, 7 + t as i128) {
        Some(id) => id,
        None => return ExifToolLine::Warning(WARN_ID.to_owned()),
    };
    let v = match find_offset(line, n, ":") {
        Some(v) => v,
        None => return ExifToolLine::Warning(WARN_COLON.to_owned()),
    };
    let tag = match get_span(line, n, 7 + t as i128 + 1, v as i128) {
        Some(tag) => tag,
        None => return ExifToolLine::Warning(WARN_EXTRACT.to_owned()),
    };
    let value = match get_span(line, n, v as i128 + 2, n as i128) {
        Some(value) => value,
        None => return ExifToolLine::Warning(WARN_VALUE.to_owned()),
    };
    if value.len() == 0 {
        ExifToolLine::Skip
    } else {
        ExifToolLine::Record(tagged_row(path, &tag, &id, &unquote(&value)))
    }
}

fn classify_untagged(line: &Vec<char>, n: usize, e: usize, path: &Vec<char>) -> (r: ExifToolLine)
    requires
        n == byte_len(line@),
    ensures
        r@ == untagged_line(line@, e as int, path@),
{
    let v = match find_offset(line, n, ":") {
        Some(v) => v,
        None => return ExifToolLine::Warning(WARN_COLON.to_owned()),
    };
    let tag = match get_span(line, n, e as i128 + 3, v as i128) {
        Some(tag) => tag,
        None => return ExifToolLine::Warning(WARN_TAG.to_owned()),
    };
    let value = match get_span(line, n, v as i128 + 2, n as i128) {
        Some(value) => value,
        None => return ExifToolLine::Warning(WARN_VALUE.to_owned()),
    };
    if value.len() == 0 {
        ExifToolLine::Skip
    } else {
        ExifToolLine::Record(untagged_row(path, &tag, &unquote(&value)))
    }
}

fn same_chars(a: &Vec<char>, b: &str) -> (r: bool)
    ensures
        r == (a@ == b@),
{
    let bc = str_chars(b);
    if a.len() != bc.len() {
        return false;
    }
    let mut i: usize = 0;
    while i < a.len()
        invariant
            a.len() == bc.len(),
            bc@ == b@,
            i <= a.len(),
            forall|j: int| 0 <= j < i ==> a@[j] == bc@[j],
        decreases a.len() - i,
    {
        if a[i] != bc[i] {
            assert(a@[i as int] != bc@[i as int]);
            return false;
        }
        i = i + 1;
    }
    assert(a@ =~= bc@);
    true
}

/// What the line `line` of ExifTool's output means for the file `path`.
pub fn classify_exiftool_line(line: &str, path: &str) -> (r: ExifToolLine)
    ensures
        r@ == tool_line(line@, path@),
{
    let (c, n) = str_text(line);
    let p = str_chars(path);
    if same_chars(&c, READY_LINE) {
        return ExifToolLine::Ready;
    }
    if contains_chars(&c, &str_chars(BINARY_MARK)) {
        return ExifToolLine::Skip;
    }
    let e = match find_offset(&c, n, " ") {
        Some(e) => e,
        None => return ExifToolLine::Malformed,
    };
    let kind = match get_span(&c, n, 0, e as i128) {
        Some(k) => k,
        None => return ExifToolLine::Malformed,
    };
    if same_chars(&kind, "[EXIF]") || same_chars(&kind, "[IPTC]") {
        classify_tagged(&c, n, &p)
    } else if same_chars(&kind, "[Composite]") || same_chars(&kind, "[XMP]") {
        classify_untagged(&c, n, e, &p)
    } else {
        ExifToolLine::Skip
    }
}

/// Byte length of a concatenation of three texts.
proof fn lemma_byte_len3(a: Seq<char>, b: Seq<char>, c: Seq<char>)
    ensures
        byte_len(a + b + c) == byte_len(a) + byte_len(b) + byte_len(c),
{
    lemma_byte_len_concat(a, b);
    lemma_byte_len_concat(a + b, c);
}

/// What ExifTool prints for an EXIF or IPTC tag, `[EXIF] <id> <tag>: <value>`,
/// becomes the row of that tag, id and value (its double quotes taken out):
/// the id holds no space or colon, the tag no colon, and the value is not
/// empty.
#[verifier::rlimit(80)]
pub proof fn law_tagged_line(
    kind: Seq<char>,
    id: Seq<char>,
    tag: Seq<char>,
    value: Seq<char>,
    path: Seq<char>,
)
    requires
        kind == "[EXIF]"@ || kind == "[IPTC]"@,
        forall|i: int| 0 <= i < id.len() ==> id[i] != ' ' && id[i] != ':',
        forall|i: int| 0 <= i < tag.len() ==> tag[i] != ':',
        value.len() > 0,
        !contains_seq(kind + " "@ + id + " "@ + tag + ": "@ + value, BINARY_MARK@),
    ensures
        tool_line(kind + " "@ + id + " "@ + tag + ": "@ + value, path) == ToolLine::Record(
            tag_with_id_sql(path, tag, id, unquoted(value)),
        ),
{
    reveal_strlit("[EXIF]");
    reveal_strlit("[IPTC]");
    reveal_strlit(" ");
    reveal_strlit(": ");
    reveal_strlit(":");
    reveal_strlit("{ready}");
    let head = kind + " "@;
    let line = kind + " "@ + id + " "@ + tag + ": "@ + value;
    let after = id + " "@ + tag + ": "@ + value;
    assert(line =~= head + after);
    let ci: int = (7 + id.len()) as int;
    let c: int = (ci + 1 + tag.len()) as int;
    // not the end of a request
    assert(line[0] != READY_LINE@[0]);
    // the type ends at the first space
    lemma_ascii_text(head);
    assert(line.take(7) =~= head);
    lemma_ascii_prefix_offsets(line, 7);
    assert forall|j: int| 0 <= j < 6 implies line[j] != ' ' by {}
    lemma_find_first_char(line, ' ', 6);
    assert(" "@ =~= seq![' ']);
    lemma_get_exact(line, 0, 6);
    assert(line.subrange(0, 6) =~= kind);
    // the rest after the type and its space
    lemma_byte_len_end(line);
    lemma_get_exact(line, 7, line.len() as int);
    assert(line.subrange(7, line.len() as int) =~= after);
    lemma_byte_len_end(after);
    // the id ends at the first space of the rest
    assert(after[id.len() as int] == ' ');
    assert forall|j: int| 0 <= j < id.len() implies after[j] != ' ' by {
        assert(after[j] == id[j]);
    }
    lemma_find_first_char(after, ' ', id.len() as int);
    assert(after.take(id.len() as int) =~= id);
    assert(line.take(ci) =~= head + id);
    lemma_byte_len_concat(head, id);
    lemma_get_exact(line, 7, ci);
    assert(line.subrange(7, ci) =~= id);
    // the tag runs from after the id's space to the first colon
    assert(line[c] == ':');
    assert forall|j: int| 0 <= j < c implies line[j] != ':' by {
        if 7 <= j < ci {
            assert(line[j] == id[j - 7]);
        } else if ci < j {
            assert(line[j] == tag[j - ci - 1]);
        }
    }
    lemma_find_first_char(line, ':', c);
    assert(":"@ =~= seq![':']);
    assert(line.take(ci + 1) =~= head + id + " "@);
    lemma_byte_len3(head, id, " "@);
    lemma_ascii_text(" "@);
    assert(line.take(c) =~= head + id + " "@ + tag);
    lemma_byte_len_concat(head + id + " "@, tag);
    lemma_get_exact(line, ci + 1, c);
    assert(line.subrange(ci + 1, c) =~= tag);
    // the value follows the colon and its space
    assert(line.take(c + 2) =~= head + id + " "@ + tag + ": "@);
    lemma_ascii_text(": "@);
    lemma_byte_len_concat(head + id + " "@ + tag, ": "@);
    lemma_get_exact(line, c + 2, line.len() as int);
    assert(line.subrange(c + 2, line.len() as int) =~= value);
}

/// What ExifTool prints for a Composite or XMP tag, `[XMP] - <tag>: <value>`,
/// becomes the row of that tag and value (its double quotes taken out): the
/// tag holds no colon and the value is not empty.
#[verifier::rlimit(80)]
pub proof fn law_untagged_line(kind: Seq<char>, tag: Seq<char>, value: Seq<char>, path: Seq<char>)
    requires
        kind == "[Composite]"@ || kind == "[XMP]"@,
        forall|i: int| 0 <= i < tag.len() ==> tag[i] != ':',
        value.len() > 0,
        !contains_seq(kind + " - "@ + tag + ": "@ + value, BINARY_MARK@),
    ensures
        tool_line(kind + " - "@ + tag + ": "@ + value, path) == ToolLine::Record(
            tag_sql(path, tag, unquoted(value)),
        ),
{
    reveal_strlit("[Composite]");
    reveal_strlit("[XMP]");
    reveal_strlit("[EXIF]");
    reveal_strlit("[IPTC]");
    reveal_strlit(" - ");
    reveal_strlit(" ");
    reveal_strlit(": ");
    reveal_strlit(":");
    reveal_strlit("{ready}");
    let head = kind + " - "@;
    let line = kind + " - "@ + tag + ": "@ + value;
    let k: int = kind.len() as int;
    let c: int = (k + 3 + tag.len()) as int;
    assert(line[0] != READY_LINE@[0]);
    lemma_ascii_text(head);
    assert(line.take(k + 3) =~= head);
    lemma_ascii_prefix_offsets(line, k + 3);
    assert forall|j: int| 0 <= j < k implies line[j] != ' ' by {}
    assert(line[k] == ' ');
    lemma_find_first_char(line, ' ', k);
    assert(" "@ =~= seq![' ']);
    lemma_get_exact(line, 0, k);
    assert(line.subrange(0, k) =~= kind);
    assert(kind != "[EXIF]"@ && kind != "[IPTC]"@);
    assert(line[c] == ':');
    assert forall|j: int| 0 <= j < c implies line[j] != ':' by {
        if k + 3 <= j {
            assert(line[j] == tag[j - k - 3]);
        }
    }
    lemma_find_first_char(line, ':', c);
    assert(":"@ =~= seq![':']);
    assert(line.take(c) =~= head + tag);
    lemma_byte_len_concat(head, tag);
    lemma_get_exact(line, k + 3, c);
    assert(line.subrange(k + 3, c) =~= tag);
    assert(line.take(c + 2) =~= head + tag + ": "@);
    lemma_ascii_text(": "@);
    lemma_byte_len_concat(head + tag, ": "@);
    lemma_byte_len_end(line);
    lemma_get_exact(line, c + 2, line.len() as int);
    assert(line.subrange(c + 2, line.len() as int) =~= value);
}

/// A value kept from ExifTool's output holds no double quote, so it cannot
/// end the quoted SQL text early that way.
pub proof fn law_unquoted_has_no_quote(value: Seq<char>)
    ensures
        forall|i: int| 0 <= i < unquoted(value).len() ==> unquoted(value)[i] != '"',
    decreases value.len(),
{
    reveal_strlit("\"");
    let q = "\""@;
    if value.len() > 0 {
        if q.is_prefix_of(value) {
            law_unquoted_has_no_quote(value.skip(1));
            assert(unquoted(value) =~= unquoted(value.skip(1)));
        } else {
            law_unquoted_has_no_quote(value.drop_first());
            assert(value[0] != '"') by {
                if value[0] == '"' {
                    assert(q.is_prefix_of(value));
                }
            }
            let u = unquoted(value);
            assert(u =~= seq![value[0]] + unquoted(value.drop_first()));
            assert forall|i: int| 0 <= i < u.len() implies u[i] != '"' by {
                if i > 0 {
                    assert(u[i] == unquoted(value.drop_first())[i - 1]);
                }
            }
        }
    }
}

} // verus!
