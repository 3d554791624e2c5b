//! Bulk work on the file list after files were added: dropping what the
//! drag and drop filter does not want, linking files to NX Studio, and
//! filling in missing shooting dates.

use vstd::prelude::*;
use crate::db::{
    answered, begin, commit, request_file_list, Exchange, DbError, DbLink, GetFileSpec,
    GetIntSetting, QuickNonReturningSqlCommand, number_of, nat_result,
};
use crate::protocol::{get_file_spec_command, get_int_setting_command, quick_sql_command};
use crate::text::{
    chars_to_string, extend_chars, extend_str, replace_all, replace_chars, str_chars,
};

verus! {

/// The start of the statements that drop unwanted files.
pub const UNWANTED_SQL_HEAD: &'static str = "DELETE FROM files WHERE tmp_lock=0 AND lower(orig_file_name) NOT LIKE ";

/// The end of the statements that drop unwanted files.
pub const UNWANTED_SQL_TAIL: &'static str = ";\n                       UPDATE files SET tmp_lock=0;";

/// The start of the statements that link files to NX Studio's database.
pub const NX_STUDIO_SQL_HEAD: &'static str = "\n        ATTACH DATABASE '";

/// The end of the statements that link files to NX Studio's database.
pub const NX_STUDIO_SQL_TAIL: &'static str = "' AS nxstudio;\n\n        UPDATE files set inNXstudio = (\n            SELECT\n              file_id\n            FROM\n              nxstudio.file,\n              nxstudio.folder\n            WHERE\n              file.parent_id = folder.folder_id AND\n              nxstudio.folder.path||nxstudio.file.name=files.path\n          )\n        \n         WHERE files.path in  (\n            SELECT\n              path||name as full_path\n            FROM\n              nxstudio.file,\n              nxstudio.folder\n            WHERE\n              file.parent_id = folder.folder_id\n         );";

/// Fills in missing shooting dates from the files' creation dates.
pub const DATE_FROM_CREATED_SQL: &'static str = "\n            INSERT INTO exif (path,tag,tag_id,value)\n            SELECT\n              path,\n              'DateTimeOriginal',\n              36867,\n              created\n            FROM\n              files\n            WHERE\n              path NOT IN (\n                SELECT path\n                FROM\n                  exif\n                WHERE\n                  tag='DateTimeOriginal'\n              );";

/// Fills in missing shooting dates from the dates of the files' last change.
pub const DATE_FROM_MODIFIED_SQL: &'static str = "\n            INSERT INTO exif (path,tag,tag_id,value)\n            SELECT\n              path,\n              'DateTimeOriginal',\n              36867,\n              modified\n            FROM\n              files\n            WHERE\n              path NOT IN (\n                SELECT path\n                FROM\n                  exif\n                WHERE\n                  tag='DateTimeOriginal'\n              );";

/// Marks the files already in the list, so that a bulk import does not drop them.
pub const PROTECT_LISTED_SQL: &'static str = "BEGIN;UPDATE files SET tmp_lock=1;COMMIT;BEGIN;";

/// Detaches NX Studio's database again.
pub const DETACH_NX_STUDIO_SQL: &'static str = "DETACH DATABASE nxstudio;";

/// Empties both lists.
pub const CLEAR_LISTS_SQL: &'static str = "DELETE FROM exif;DELETE FROM files;";

/// The separator that joins one `LIKE` test to the next.
pub const LIKE_SEPARATOR: &'static str = "') AND lower(orig_file_name) NOT LIKE lower('";

/// A file specification such as `*.nef;*.jpg` written as the `LIKE` tests
/// `lower('%.nef') AND lower(orig_file_name) NOT LIKE lower('%.jpg')`: a new
/// test starts at each `;*`, and every `*` stands for any text.
pub open spec fn like_clauses(spec: Seq<char>) -> Seq<char> {
    "lower('"@ + replace_all(replace_all(spec, ";*"@, LIKE_SEPARATOR@ + "*"@), "*"@, "%"@) + "')"@
}

/// Drops every file that the bulk import added and the specification does
/// not match, then unmarks the rest.
pub open spec fn unwanted_files_sql(spec: Seq<char>) -> Seq<char> {
    UNWANTED_SQL_HEAD@ + like_clauses(spec) + UNWANTED_SQL_TAIL@
}

/// Links the listed files to their entries in NX Studio's database at `location`.
pub open spec fn nx_studio_sql(location: Seq<char>) -> Seq<char> {
    NX_STUDIO_SQL_HEAD@ + location + NX_STUDIO_SQL_TAIL@
}

/// Gives every file without a shooting date the date of its creation
/// (`secondary == 0`) or of its last change.
pub open spec fn missing_date_sql(secondary: nat) -> Seq<char> {
    if secondary == 0 {
        DATE_FROM_CREATED_SQL@
    } else {
        DATE_FROM_MODIFIED_SQL@
    }
}

/// The statements that drop what the specification `spec` does not match.
pub fn unwanted_files_command(spec: &str) -> (s: String)
    ensures
        s@ == unwanted_files_sql(spec@),
{
    proof {
        reveal_strlit(";*");
        reveal_strlit("*");
    }
    let c = str_chars(spec);
    let mut next = str_chars(LIKE_SEPARATOR);
    extend_str(&mut next, "*");
    let first = replace_chars(&c, &str_chars(";*"), &next);
    let second = replace_chars(&first, &str_chars("*"), &str_chars("%"));
    let mut v = str_chars(UNWANTED_SQL_HEAD);
    extend_str(&mut v, "lower('");
    extend_chars(&mut v, &second);
    extend_str(&mut v, "')");
    extend_str(&mut v, UNWANTED_SQL_TAIL);
    chars_to_string(&v)
}

/// The statements that link the files to NX Studio's database at `location`.
pub fn nx_studio_command(location: &str) -> (s: String)
    ensures
        s@ == nx_studio_sql(location@),
{
    let mut v = str_chars(NX_STUDIO_SQL_HEAD);
    extend_str(&mut v, location);
    extend_str(&mut v, NX_STUDIO_SQL_TAIL);
    chars_to_string(&v)
}

/// The statements that fill in missing shooting dates.
pub fn missing_date_command(secondary: usize) -> (s: String)
    ensures
        s@ == missing_date_sql(secondary as nat),
{
    if secondary == 0 {
        DATE_FROM_CREATED_SQL.to_owned()
    } else {
        DATE_FROM_MODIFIED_SQL.to_owned()
    }
}

/// The exchanges `ex` carry the commands `cmds` one after the other and stop
/// after the first that got no reply.
pub open spec fn sent_in_order(ex: Seq<Exchange>, cmds: Seq<Seq<char>>) -> bool {
    &&& ex.len() <= cmds.len()
    &&& forall|i: int| 0 <= i < ex.len() ==> #[trigger] ex[i].0 == cmds[i]
    &&& forall|i: int| 0 <= i < ex.len() - 1 ==> (#[trigger] ex[i]).1 is Some
    &&& ex.len() < cmds.len() ==> ex.len() > 0 && ex.last().1 is None
}

/// All the commands got a reply.
pub open spec fn all_answered(ex: Seq<Exchange>, cmds: Seq<Seq<char>>) -> Result<(), DbError> {
    if ex.len() == cmds.len() && (ex.len() == 0 || ex.last().1 is Some) {
        Ok(())
    } else {
        Err(DbError::Disconnected)
    }
}

/// The exchanges added to `old` to give `new`.
pub open spec fn added(old: Seq<Exchange>, new: Seq<Exchange>) -> Seq<Exchange> {
    new.subrange(old.len() as int, new.len() as int)
}

/// Runs `sql` inside a transaction of its own.
pub fn run_in_transaction(link: &mut DbLink, sql: String) -> (r: Result<(), DbError>)
    ensures
        final(link).exchanges().len() > old(link).exchanges().len(),
        final(link).exchanges().take(old(link).exchanges().len() as int) == old(link).exchanges(),
        sent_in_order(
            added(old(link).exchanges(), final(link).exchanges()),
            seq!["Begin"@, quick_sql_command(sql@), "Commit"@],
        ),
        r == all_answered(
            added(old(link).exchanges(), final(link).exchanges()),
            seq!["Begin"@, quick_sql_command(sql@), "Commit"@],
        ),
{
    let ghost start = link.exchanges();
    let ghost cmds = seq!["Begin"@, quick_sql_command(sql@), "Commit"@];
    let r1 = begin(link);
    if r1.is_err() {
        assert(added(start, link.exchanges()) =~= seq![link.exchanges().last()]);
        assert(link.exchanges().take(start.len() as int) =~= start);
        return r1;
    }
    let ghost after1 = link.exchanges();
    let r2 = QuickNonReturningSqlCommand(link, sql);
    if r2.is_err() {
        assert(added(start, link.exchanges()) =~= seq![after1.last(), link.exchanges().last()]);
        assert(link.exchanges().take(start.len() as int) =~= start);
        return r2;
    }
    let ghost after2 = link.exchanges();
    let r3 = commit(link);
    assert(added(start, link.exchanges()) =~= seq![after1.last(), after2.last(), link.exchanges().last()]);
    assert(link.exchanges().take(start.len() as int) =~= start);
    r3
}

/// Fills in missing shooting dates: from the creation date when the setting
/// `secondary_id` is 0, else from the date of the last change.
pub fn fill_in_missing_DateTimeOriginal(link: &mut DbLink, secondary_id: i32) -> (r: Result<(), DbError>)
    ensures
        final(link).exchanges().len() > old(link).exchanges().len(),
        final(link).exchanges().take(old(link).exchanges().len() as int) == old(link).exchanges(),
        ({
            let ex = added(old(link).exchanges(), final(link).exchanges());
            &&& ex[0].0 == get_int_setting_command(secondary_id as int)
            &&& match number_of(ex[0].1) {
                Err(e) => ex.len() == 1 && r == Err::<(), DbError>(e),
                Ok(n) => {
                    let cmds = seq![
                        get_int_setting_command(secondary_id as int),
                        "Begin"@,
                        quick_sql_command(missing_date_sql(n)),
                        "Commit"@,
                    ];
                    sent_in_order(ex, cmds) && r == all_answered(ex, cmds)
                },
            }
        }),
{
    let ghost start = link.exchanges();
    let secondary = GetIntSetting(link, secondary_id);
    let ghost after1 = link.exchanges();
    assert(added(start, after1) =~= seq![after1.last()]);
    let secondary = match secondary {
        Ok(n) => n,
        Err(e) => {
            assert(after1.take(start.len() as int) =~= start);
            return Err(e);
        },
    };
    let r = run_in_transaction(link, missing_date_command(secondary));
    proof {
        let ex = added(start, link.exchanges());
        let rest = added(after1, link.exchanges());
        assert(ex =~= seq![after1.last()] + rest);
        assert(link.exchanges().take(after1.len() as int) == after1);
        assert(link.exchanges().take(start.len() as int) =~= start);
    }
    r
}

/// Links the listed files to NX Studio's database at `location`, when the
/// setting `nx_setting_id` asks for it (is 1).
pub fn check_if_in_NXstudio(link: &mut DbLink, nx_setting_id: i32, location: &str) -> (r: Result<
    (),
    DbError,
>)
    ensures
        final(link).exchanges().len() > old(link).exchanges().len(),
        final(link).exchanges().take(old(link).exchanges().len() as int) == old(link).exchanges(),
        ({
            let ex = added(old(link).exchanges(), final(link).exchanges());
            &&& ex[0].0 == get_int_setting_command(nx_setting_id as int)
            &&& match number_of(ex[0].1) {
                Err(e) => ex.len() == 1 && r == Err::<(), DbError>(e),
                Ok(n) => if n == 1 {
                    let cmds = seq![
                        get_int_setting_command(nx_setting_id as int),
                        "Begin"@,
                        quick_sql_command(nx_studio_sql(location@)),
                        "Commit"@,
                        quick_sql_command(DETACH_NX_STUDIO_SQL@),
                    ];
                    sent_in_order(ex, cmds) && r == all_answered(ex, cmds)
                } else {
                    ex.len() == 1 && r == Ok::<(), DbError>(())
                },
            }
        }),
{
    let ghost start = link.exchanges();
    let flag = GetIntSetting(link, nx_setting_id);
    let ghost after1 = link.exchanges();
    assert(added(start, after1) =~= seq![after1.last()]);
    assert(after1.take(start.len() as int) =~= start);
    let flag = match flag {
        Ok(n) => n,
        Err(e) => {
            return Err(e);
        },
    };
    if flag != 1 {
        return Ok(());
    }
    let r = run_in_transaction(link, nx_studio_command(location));
    let ghost after4 = link.exchanges();
    proof {
        let rest = added(after1, after4);
        assert(added(start, after4) =~= seq![after1.last()] + rest);
        assert(after4.take(after1.len() as int) == after1);
        assert(after4.take(start.len() as int) =~= start);
    }
    if r.is_err() {
        return r;
    }
    let r2 = QuickNonReturningSqlCommand(link, DETACH_NX_STUDIO_SQL.to_owned());
    proof {
        let rest = added(after1, after4);
        assert(rest.len() == 3);
        assert(added(start, link.exchanges()) =~= seq![after1.last()] + rest + seq![link.exchanges().last()]);
        assert(link.exchanges().take(start.len() as int) =~= start);
    }
    r2
}

/// Drops the files that a bulk import added and that the file specification
/// chosen by the setting `drag_n_drop_setting` does not match, then unmarks the rest.
pub fn delete_unwanted_files_after_bulk_import(link: &mut DbLink, drag_n_drop_setting: usize) -> (r:
    Result<(), DbError>)
    ensures
        final(link).exchanges().len() > old(link).exchanges().len(),
        final(link).exchanges().take(old(link).exchanges().len() as int) == old(link).exchanges(),
        ({
            let ex = added(old(link).exchanges(), final(link).exchanges());
            &&& ex[0].0 == get_file_spec_command(drag_n_drop_setting as nat)
            &&& match ex[0].1 {
                None => ex.len() == 1 && r == Err::<(), DbError>(DbError::Disconnected),
                Some(spec) => ex.len() == 2 && ex[1].0 == quick_sql_command(unwanted_files_sql(spec))
                    && r == answered(ex[1].1),
            }
        }),
{
    let ghost start = link.exchanges();
    let mut spec = String::new();
    let got = GetFileSpec(link, drag_n_drop_setting, &mut spec);
    let ghost after1 = link.exchanges();
    assert(added(start, after1) =~= seq![after1.last()]);
    assert(after1.take(start.len() as int) =~= start);
    if got.is_err() {
        return got;
    }
    let r = QuickNonReturningSqlCommand(link, unwanted_files_command(spec.as_str()));
    assert(added(start, link.exchanges()) =~= seq![after1.last(), link.exchanges().last()]);
    assert(link.exchanges().take(start.len() as int) =~= start);
    r
}

/// Commands sent in order that all got a reply, followed by more commands
/// sent in order, are all sent in order, and answered as the later ones are.
pub proof fn lemma_in_order_concat(a: Seq<Exchange>, ca: Seq<Seq<char>>, b: Seq<Exchange>, cb: Seq<Seq<char>>)
    requires
        sent_in_order(a, ca),
        all_answered(a, ca) is Ok,
        sent_in_order(b, cb),
    ensures
        sent_in_order(a + b, ca + cb),
        all_answered(a + b, ca + cb) == all_answered(b, cb),
{
    assert(a.len() == ca.len());
    let ab = a + b;
    let cab = ca + cb;
    assert forall|i: int| 0 <= i < ab.len() implies #[trigger] ab[i].0 == cab[i] by {
        if i >= a.len() {
            assert(ab[i] == b[i - a.len()]);
        }
    }
    assert forall|i: int| 0 <= i < ab.len() - 1 implies (#[trigger] ab[i]).1 is Some by {
        if i >= a.len() {
            assert(ab[i] == b[i - a.len()]);
        } else if i == a.len() - 1 {
            assert(ab[i] == a.last());
        }
    }
    if b.len() == 0 {
        assert(ab =~= a);
    } else {
        assert(ab.last() == b.last());
    }
}

/// Commands sent in order whose run broke off are sent in order, and not all
/// answered, whatever commands were to follow.
pub proof fn lemma_in_order_broken(a: Seq<Exchange>, ca: Seq<Seq<char>>, more: Seq<Seq<char>>)
    requires
        sent_in_order(a, ca),
        all_answered(a, ca) is Err,
    ensures
        sent_in_order(a, ca + more),
        all_answered(a, ca + more) is Err,
        a.len() > 0 && a.last().1 is None,
{
}

/// What the reply to a request for an integer setting decides.
pub open spec fn got_number(ex: Seq<Exchange>) -> Result<nat, DbError> {
    if ex.len() == 0 {
        Err(DbError::Disconnected)
    } else {
        number_of(ex[0].1)
    }
}

/// The commands that link the files to NX Studio's database at `location`,
/// given the replies `ex` they got.
pub open spec fn nx_commands(ex: Seq<Exchange>, nx_setting_id: int, location: Seq<char>) -> Seq<Seq<char>> {
    if got_number(ex) == Ok::<nat, DbError>(1) {
        seq![
            get_int_setting_command(nx_setting_id),
            "Begin"@,
            quick_sql_command(nx_studio_sql(location)),
            "Commit"@,
            quick_sql_command(DETACH_NX_STUDIO_SQL@),
        ]
    } else {
        seq![get_int_setting_command(nx_setting_id)]
    }
}

/// The commands that fill in missing shooting dates, given the replies `ex`
/// they got.
pub open spec fn date_commands(ex: Seq<Exchange>, secondary_id: int) -> Seq<Seq<char>> {
    match got_number(ex) {
        Ok(n) => seq![
            get_int_setting_command(secondary_id),
            "Begin"@,
            quick_sql_command(missing_date_sql(n)),
            "Commit"@,
        ],
        Err(_) => seq![get_int_setting_command(secondary_id)],
    }
}

/// The commands that finish adding files, given the replies `ex` they got:
/// linking to NX Studio, filling in missing dates and asking for the file
/// list. A setting that does not read as a number ends them.
pub open spec fn finish_commands(
    ex: Seq<Exchange>,
    nx_setting_id: int,
    location: Seq<char>,
    secondary_id: int,
) -> Seq<Seq<char>> {
    let a = nx_commands(ex, nx_setting_id, location);
    let rest = ex.skip(a.len() as int);
    let b = date_commands(rest, secondary_id);
    if got_number(ex) is Err {
        a
    } else if got_number(rest) is Err {
        a + b
    } else {
        a + b + seq!["transfer_data_to_main_file_list"@]
    }
}

/// A setting came back as something other than a number while finishing.
pub open spec fn finish_bad_reply(ex: Seq<Exchange>, nx_setting_id: int, location: Seq<char>) -> bool {
    let a = nx_commands(ex, nx_setting_id, location);
    ||| got_number(ex) == Err::<nat, DbError>(DbError::BadReply)
    ||| got_number(ex) is Ok && ex.len() > a.len() && got_number(ex.skip(a.len() as int)) == Err::<
        nat,
        DbError,
    >(DbError::BadReply)
}

/// The result of finishing, given the replies `ex`.
pub open spec fn finish_result(
    ex: Seq<Exchange>,
    nx_setting_id: int,
    location: Seq<char>,
    secondary_id: int,
) -> Result<(), DbError> {
    if finish_bad_reply(ex, nx_setting_id, location) {
        Err(DbError::BadReply)
    } else {
        all_answered(ex, finish_commands(ex, nx_setting_id, location, secondary_id))
    }
}

/// Finishes adding files: links them to NX Studio's database at `location`
/// when the setting `nx_setting_id` asks for it, fills in missing shooting
/// dates as the setting `secondary_id` says, and asks for the file list;
/// it stops at the first step that fails.
pub fn finish_import(link: &mut DbLink, nx_setting_id: i32, location: &str, secondary_id: i32) -> (r: Result<
    (),
    DbError,
>)
    ensures
        final(link).exchanges().len() > old(link).exchanges().len(),
        final(link).exchanges().take(old(link).exchanges().len() as int) == old(link).exchanges(),
        ({
            let ex = added(old(link).exchanges(), final(link).exchanges());
            &&& sent_in_order(ex, finish_commands(ex, nx_setting_id as int, location@, secondary_id as int))
            &&& r == finish_result(ex, nx_setting_id as int, location@, secondary_id as int)
        }),
{
    let ghost s0 = link.exchanges();
    let ghost nx = nx_setting_id as int;
    let ghost sec = secondary_id as int;
    let r1 = check_if_in_NXstudio(link, nx_setting_id, location);
    let ghost s1 = link.exchanges();
    let ghost ex1 = added(s0, s1);
    let ghost a = nx_commands(ex1, nx, location@);
    proof {
        assert(ex1.len() > 0);
        assert(got_number(ex1) == number_of(ex1[0].1));
        if got_number(ex1) is Ok {
            if got_number(ex1) != Ok::<nat, DbError>(1) {
                assert(ex1.len() == 1);
                assert(sent_in_order(ex1, a));
                assert(all_answered(ex1, a) is Ok);
            }
        } else {
            assert(ex1.len() == 1);
        }
    }
    if r1.is_err() {
        proof {
            assert(added(s0, link.exchanges()) == ex1);
            let cmds = finish_commands(ex1, nx, location@, sec);
            if got_number(ex1) is Ok {
                assert(got_number(ex1) == Ok::<nat, DbError>(1));
                let b = date_commands(ex1.skip(a.len() as int), sec);
                lemma_in_order_broken(ex1, a, cmds.skip(a.len() as int));
                assert(a + cmds.skip(a.len() as int) =~= cmds);
                assert(!finish_bad_reply(ex1, nx, location@));
            } else {
                assert(cmds == a);
                assert(a.len() == 1);
            }
        }
        return r1;
    }
    let r2 = fill_in_missing_DateTimeOriginal(link, secondary_id);
    let ghost s2 = link.exchanges();
    let ghost ex2 = added(s1, s2);
    let ghost b = date_commands(ex2, sec);
    proof {
        assert(sent_in_order(ex1, a) && all_answered(ex1, a) is Ok);
        assert(got_number(ex2) == number_of(ex2[0].1));
        assert(s2.take(s0.len() as int) =~= s0) by {
            assert(s2.take(s1.len() as int) == s1);
        }
        assert(added(s0, s2) =~= ex1 + ex2) by {
            assert(s2.take(s1.len() as int) == s1);
            assert(s1.take(s0.len() as int) == s0);
        }
        assert((ex1 + ex2).skip(a.len() as int) =~= ex2);
        if got_number(ex2) is Ok {
            assert(sent_in_order(ex2, b));
        } else {
            assert(ex2.len() == 1);
        }
    }
    if r2.is_err() {
        proof {
            let ex = added(s0, s2);
            let cmds = finish_commands(ex, nx, location@, sec);
            assert(ex[0] == ex1[0]);
            assert(got_number(ex) == got_number(ex1));
            assert(nx_commands(ex, nx, location@) == a);
            assert(ex.skip(a.len() as int) == ex2);
            if got_number(ex2) is Ok {
                lemma_in_order_broken(ex2, b, seq!["transfer_data_to_main_file_list"@]);
                lemma_in_order_concat(ex1, a, ex2, b + seq!["transfer_data_to_main_file_list"@]);
                assert(a + (b + seq!["transfer_data_to_main_file_list"@]) =~= cmds);
                assert(!finish_bad_reply(ex, nx, location@));
            } else {
                assert(ex2.len() == 1 && b.len() == 1);
                lemma_in_order_concat(ex1, a, ex2, b);
                assert(cmds == a + b);
            }
        }
        return r2;
    }
    let r3 = request_file_list(link);
    proof {
        let s3 = link.exchanges();
        let ex3 = added(s2, s3);
        let l = seq!["transfer_data_to_main_file_list"@];
        assert(ex3 =~= seq![s3.last()]);
        assert(sent_in_order(ex3, l));
        assert(s3.take(s0.len() as int) =~= s0) by {
            assert(s3.take(s2.len() as int) == s2);
        }
        let ex = added(s0, s3);
        assert(ex =~= ex1 + ex2 + ex3) by {
            assert(s3.take(s2.len() as int) == s2);
            assert(s2.take(s1.len() as int) == s1);
            assert(s1.take(s0.len() as int) == s0);
        }
        assert(ex[0] == ex1[0]);
        assert(got_number(ex) == got_number(ex1));
        assert(nx_commands(ex, nx, location@) == a);
        assert(ex.skip(a.len() as int) =~= ex2 + ex3);
        assert((ex2 + ex3)[0] == ex2[0]);
        assert(got_number(ex2 + ex3) == got_number(ex2));
        assert(date_commands(ex2 + ex3, sec) == b);
        assert(sent_in_order(ex2, b) && all_answered(ex2, b) is Ok);
        lemma_in_order_concat(ex2, b, ex3, l);
        lemma_in_order_concat(ex1, a, ex2 + ex3, b + l);
        assert(ex1 + (ex2 + ex3) =~= ex);
        assert(a + (b + l) =~= finish_commands(ex, nx, location@, sec));
        assert(!finish_bad_reply(ex, nx, location@));
        assert(r3 == all_answered(ex3, l));
    }
    r3
}

/// The commands that finish a bulk import, given the replies `ex` they got:
/// dropping what the file specification at `drag_n_drop_setting` does not
/// match, committing, then finishing as [`finish_commands`] says.
pub open spec fn bulk_commands(
    ex: Seq<Exchange>,
    drag_n_drop_setting: nat,
    nx_setting_id: int,
    location: Seq<char>,
    secondary_id: int,
) -> Seq<Seq<char>> {
    seq![
        get_file_spec_command(drag_n_drop_setting),
        quick_sql_command(unwanted_files_sql(ex[0].1->0)),
        "Commit"@,
    ] + finish_commands(ex.skip(3), nx_setting_id, location, secondary_id)
}

/// The result of finishing a bulk import, given the replies `ex`.
pub open spec fn bulk_result(
    ex: Seq<Exchange>,
    drag_n_drop_setting: nat,
    nx_setting_id: int,
    location: Seq<char>,
    secondary_id: int,
) -> Result<(), DbError> {
    if ex.len() > 3 && finish_bad_reply(ex.skip(3), nx_setting_id, location) {
        Err(DbError::BadReply)
    } else {
        all_answered(
            ex,
            bulk_commands(ex, drag_n_drop_setting, nx_setting_id, location, secondary_id),
        )
    }
}

/// Finishes adding a folder or dropped files: drops the files that the
/// import added and the file specification at `drag_n_drop_setting` does not
/// match, commits, then finishes as [`finish_import`] does; it stops at the
/// first step that fails.
pub fn finish_bulk_import(
    link: &mut DbLink,
    drag_n_drop_setting: usize,
    nx_setting_id: i32,
    location: &str,
    secondary_id: i32,
) -> (r: Result<(), DbError>)
    ensures
        final(link).exchanges().len() > old(link).exchanges().len(),
        final(link).exchanges().take(old(link).exchanges().len() as int) == old(link).exchanges(),
        ({
            let ex = added(old(link).exchanges(), final(link).exchanges());
            &&& sent_in_order(
                ex,
                bulk_commands(
                    ex,
                    drag_n_drop_setting as nat,
                    nx_setting_id as int,
                    location@,
                    secondary_id as int,
                ),
            )
            &&& r == bulk_result(
                ex,
                drag_n_drop_setting as nat,
                nx_setting_id as int,
                location@,
                secondary_id as int,
            )
        }),
{
    let ghost s0 = link.exchanges();
    let ghost idx = drag_n_drop_setting as nat;
    let ghost nx = nx_setting_id as int;
    let ghost sec = secondary_id as int;
    let r1 = delete_unwanted_files_after_bulk_import(link, drag_n_drop_setting);
    let ghost s1 = link.exchanges();
    let ghost ex1 = added(s0, s1);
    let ghost spec = ex1[0].1->0;
    let ghost c1 = seq![get_file_spec_command(idx), quick_sql_command(unwanted_files_sql(spec))];
    proof {
        if ex1[0].1 is None {
            assert(sent_in_order(ex1, seq![get_file_spec_command(idx)]));
        } else {
            assert(sent_in_order(ex1, c1));
            assert(r1 == all_answered(ex1, c1));
        }
    }
    if r1.is_err() {
        proof {
            let cmds = bulk_commands(ex1, idx, nx, location@, sec);
            if ex1[0].1 is None {
                let first = seq![get_file_spec_command(idx)];
                lemma_in_order_broken(ex1, first, cmds.skip(1));
                assert(first + cmds.skip(1) =~= cmds);
            } else {
                lemma_in_order_broken(ex1, c1, cmds.skip(2));
                assert(c1 + cmds.skip(2) =~= cmds);
            }
            assert(added(s0, link.exchanges()) == ex1);
        }
        return r1;
    }
    let r2 = commit(link);
    let ghost s2 = link.exchanges();
    let ghost ex2 = added(s1, s2);
    let ghost c2 = seq!["Commit"@];
    proof {
        assert(ex2 =~= seq![s2.last()]);
        assert(sent_in_order(ex2, c2));
        assert(s2.take(s0.len() as int) =~= s0) by {
            assert(s2.take(s1.len() as int) == s1);
        }
        assert(added(s0, s2) =~= ex1 + ex2) by {
            assert(s2.take(s1.len() as int) == s1);
            assert(s1.take(s0.len() as int) == s0);
        }
        assert(ex1.len() == 2);
        lemma_in_order_concat(ex1, c1, ex2, c2);
        assert(c1 + c2 =~= seq![
            get_file_spec_command(idx),
            quick_sql_command(unwanted_files_sql(spec)),
            "Commit"@,
        ]);
    }
    if r2.is_err() {
        proof {
            let ex = added(s0, s2);
            let cmds = bulk_commands(ex, idx, nx, location@, sec);
            assert(ex[0] == ex1[0]);
            lemma_in_order_broken(ex, c1 + c2, cmds.skip(3));
            assert((c1 + c2) + cmds.skip(3) =~= cmds);
        }
        return r2;
    }
    let r3 = finish_import(link, nx_setting_id, location, secondary_id);
    proof {
        let s3 = link.exchanges();
        let ex3 = added(s2, s3);
        assert(s3.take(s0.len() as int) =~= s0) by {
            assert(s3.take(s2.len() as int) == s2);
        }
        let ex = added(s0, s3);
        assert(ex =~= (ex1 + ex2) + ex3) by {
            assert(s3.take(s2.len() as int) == s2);
            assert(s2.take(s1.len() as int) == s1);
            assert(s1.take(s0.len() as int) == s0);
        }
        assert(ex[0] == ex1[0]);
        assert(ex.skip(3) =~= ex3);
        let f = finish_commands(ex3, nx, location@, sec);
        lemma_in_order_concat(ex1 + ex2, c1 + c2, ex3, f);
        assert((c1 + c2) + f =~= bulk_commands(ex, idx, nx, location@, sec));
    }
    r3
}

} // verus!
