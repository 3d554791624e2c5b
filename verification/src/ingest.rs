//! Adding one image file to the lists: its row, and the rows of its EXIF
//! tags as the built-in reader or ExifTool found them.

use vstd::prelude::*;
use crate::db::{answered, DbError, DbLink, QuickNonReturningSqlCommand};
use crate::exiftool::{classify_exiftool_line, tool_line, ExifToolLine, ToolLine};
use crate::import::{added, all_answered, sent_in_order};
use crate::protocol::quick_sql_command;
use crate::records::{exif_field_row, field_kept, field_sql, file_row, file_sql, ExifField};

verus! {

/// The setting value that picks ExifTool for reading tags.
pub const EXIFTOOL: usize = 0;

/// The setting value that picks the built-in EXIF reader.
pub const KAMADAK_EXIF: usize = 1;

/// The commands that keep the fields of `fields` that are kept, in order.
pub open spec fn field_commands(path: Seq<char>, fields: Seq<ExifField>) -> Seq<Seq<char>>
    decreases fields.len(),
{
    if fields.len() == 0 {
        Seq::<Seq<char>>::empty()
    } else {
        let rest = field_commands(path, fields.drop_last());
        if field_kept(fields.last()) {
            rest.push(quick_sql_command(field_sql(path, fields.last())))
        } else {
            rest
        }
    }
}

/// Keeps the EXIF fields of the file `path` that the built-in reader found,
/// one command each, stopping when the service is gone.
pub fn record_exif_fields(link: &mut DbLink, path: &str, fields: &Vec<ExifField>) -> (r: Result<
    (),
    DbError,
>)
    ensures
        final(link).exchanges().take(old(link).exchanges().len() as int) == old(link).exchanges(),
        final(link).exchanges().len() >= old(link).exchanges().len(),
        sent_in_order(
            added(old(link).exchanges(), final(link).exchanges()),
            field_commands(path@, fields@),
        ),
        r == all_answered(
            added(old(link).exchanges(), final(link).exchanges()),
            field_commands(path@, fields@),
        ),
{
    let ghost start = link.exchanges();
    let mut i: usize = 0;
    assert(fields@.take(0) =~= Seq::<ExifField>::empty());
    assert(added(start, link.exchanges()) =~= Seq::<crate::db::Exchange>::empty());
    while i < fields.len()
        invariant
            i <= fields.len(),
            start == old(link).exchanges(),
            link.exchanges().len() >= start.len(),
            link.exchanges().take(start.len() as int) == start,
            added(start, link.exchanges()).len() == field_commands(path@, fields@.take(i as int)).len(),
            sent_in_order(added(start, link.exchanges()), field_commands(path@, fields@.take(i as int))),
            all_answered(added(start, link.exchanges()), field_commands(path@, fields@.take(i as int)))
                is Ok,
        decreases fields.len() - i,
    {
        let ghost before = link.exchanges();
        let ghost cmds_before = field_commands(path@, fields@.take(i as int));
        assert(fields@.take(i + 1).drop_last() =~= fields@.take(i as int));
        assert(fields@.take(i + 1).last() == fields@[i as int]);
        match exif_field_row(path, &fields[i]) {
            Some(row) => {
                let r = QuickNonReturningSqlCommand(link, row);
                proof {
                    assert(added(start, link.exchanges()) =~= added(start, before).push(
                        link.exchanges().last(),
                    ));
                    assert(link.exchanges().take(start.len() as int) =~= start);
                }
                proof {
                    assert(field_commands(path@, fields@.take(i + 1)) == cmds_before.push(
                        quick_sql_command(field_sql(path@, fields@[i as int])),
                    ));
                }
                if r.is_err() {
                    proof {
                        lemma_field_commands_prefix(path@, fields@, i as int + 1);
                        let ex = added(start, link.exchanges());
                        let full = field_commands(path@, fields@);
                        let part = field_commands(path@, fields@.take(i + 1));
                        assert(ex.len() == part.len());
                        assert forall|j: int| 0 <= j < ex.len() implies #[trigger] ex[j].0 == full[j] by {
                            assert(part[j] == full.take(part.len() as int)[j]);
                        }
                    }
                    return r;
                }
            },
            None => {},
        }
        i = i + 1;
    }
    assert(fields@.take(i as int) =~= fields@);
    Ok(())
}

/// The commands for the first `k` fields start the commands for all of them.
proof fn lemma_field_commands_prefix(path: Seq<char>, fields: Seq<ExifField>, k: int)
    requires
        0 <= k <= fields.len(),
    ensures
        field_commands(path, fields.take(k)).len() <= field_commands(path, fields).len(),
        field_commands(path, fields.take(k)) =~= field_commands(path, fields).take(
            field_commands(path, fields.take(k)).len() as int,
        ),
    decreases fields.len() - k,
{
    if k < fields.len() {
        lemma_field_commands_prefix(path, fields.drop_last(), k);
        assert(fields.drop_last().take(k) =~= fields.take(k));
        assert(fields.take(fields.len() as int) =~= fields);
    } else {
        assert(fields.take(k) =~= fields);
    }
}

/// Keeps the row of the image file `path`, with its sidecar file when
/// `sidecar` is not empty.
pub fn record_file(
    link: &mut DbLink,
    path: &str,
    created: &str,
    modified: &str,
    name: &str,
    sidecar: &str,
) -> (r: Result<(), DbError>)
    ensures
        final(link).exchanges() == old(link).exchanges().push(
            (
                quick_sql_command(file_sql(path@, created@, modified@, name@, sidecar@)),
                final(link).last_reply(),
            ),
        ),
        r == answered(final(link).last_reply()),
{
    QuickNonReturningSqlCommand(link, file_row(path, created, modified, name, sidecar))
}

/// Handles one line of ExifTool's output for the file `path`: a tag's row is
/// kept at once; the reading of the line is given back.
pub fn record_tool_output(link: &mut DbLink, line: &str, path: &str) -> (r: Result<
    ExifToolLine,
    DbError,
>)
    ensures
        match tool_line(line@, path@) {
            ToolLine::Record(sql) => {
                &&& final(link).exchanges() == old(link).exchanges().push(
                    (quick_sql_command(sql), final(link).last_reply()),
                )
                &&& match final(link).last_reply() {
                    Some(_) => r matches Ok(t) && t@ == tool_line(line@, path@),
                    None => r == Err::<ExifToolLine, DbError>(DbError::Disconnected),
                }
            },
            _ => final(link).exchanges() == old(link).exchanges() && (r matches Ok(t) && t@
                == tool_line(line@, path@)),
        },
{
    let t = classify_exiftool_line(line, path);
    match t {
        ExifToolLine::Record(sql) => {
            let r = QuickNonReturningSqlCommand(link, sql.clone());
            match r {
                Ok(()) => Ok(ExifToolLine::Record(sql)),
                Err(e) => Err(e),
            }
        },
        other => Ok(other),
    }
}

} // verus!
