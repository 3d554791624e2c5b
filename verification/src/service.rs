//! The database service's side: an in-memory SQLite database that runs the
//! SQL that each command plans, and the reply that goes back.

use vstd::prelude::*;
use crate::protocol::{
    format_number_reply, format_pattern_reply, number_reply, pattern_reply, plan_command,
    plan_spec, reload_settings_sql, DbAction, Plan, CREATE_LISTS_SQL,
};
use crate::db::DBcommand;
use crate::roundtrip::law_reload_settings;
use crate::sqlite::{
    file_rows_outcome, file_rows_view, text_rows_outcome, text_rows_view, ServiceDb, SqlOutcome, SqlRun,
};
use crate::text::{chars_to_string, str_chars};

verus! {

/// Why the service could not start.
#[derive(PartialEq, Eq, Structural, Debug, Clone, Copy)]
pub enum StartError {
    /// SQLite could not open an in-memory database.
    NoDatabase,
    /// The settings could not be loaded.
    SettingsFailed,
    /// The tables of the file list could not be made.
    TablesFailed,
}

/// Why the service could not start, with what it had when it stopped.
pub struct StartFailure {
    /// What failed.
    pub error: StartError,
    /// The database, where it was opened, with the SQL run on it before the
    /// start stopped.
    pub db: Option<ServiceDb>,
    /// What SQLite said, where it could not open the database.
    pub cause: Option<rusqlite::Error>,
}

/// Opens the service's database: loads the settings from the database at
/// `settings_path` and makes the tables of the file list, stopping at the
/// first batch that fails.
pub fn start_service(settings_path: &str) -> (r: Result<ServiceDb, StartFailure>)
    ensures
        r matches Ok(db) ==> db.runs() == seq![
            (reload_settings_sql(settings_path@), SqlOutcome::BatchRan(true)),
            (CREATE_LISTS_SQL@, SqlOutcome::BatchRan(true)),
        ],
        r matches Err(f) ==> match f.error {
            StartError::NoDatabase => f.db is None && f.cause is Some,
            StartError::SettingsFailed => f.cause is None && (f.db matches Some(db) && db.runs() == seq![
                (reload_settings_sql(settings_path@), SqlOutcome::BatchRan(false)),
            ]),
            StartError::TablesFailed => f.cause is None && (f.db matches Some(db) && db.runs() == seq![
                (reload_settings_sql(settings_path@), SqlOutcome::BatchRan(true)),
                (CREATE_LISTS_SQL@, SqlOutcome::BatchRan(false)),
            ]),
        },
{
    let mut db = match ServiceDb::open() {
        Ok(db) => db,
        Err(e) => return Err(StartFailure { error: StartError::NoDatabase, db: None, cause: Some(e) }),
    };
    let reload = plan_command("ReloadSettings", settings_path);
    proof {
        law_reload_settings(settings_path@);
    }
    let sql = match reload {
        DbAction::Batch(sql) => sql,
        _ => {
            proof {
                assert(false);
            }
            return Err(StartFailure { error: StartError::SettingsFailed, db: Some(db), cause: None });
        },
    };
    if !db.batch(sql.as_str()) {
        assert(db.runs() =~= seq![(reload_settings_sql(settings_path@), SqlOutcome::BatchRan(false))]);
        return Err(StartFailure { error: StartError::SettingsFailed, db: Some(db), cause: None });
    }
    if !db.batch(CREATE_LISTS_SQL) {
        assert(db.runs() =~= seq![
            (reload_settings_sql(settings_path@), SqlOutcome::BatchRan(true)),
            (CREATE_LISTS_SQL@, SqlOutcome::BatchRan(false)),
        ]);
        return Err(StartFailure { error: StartError::TablesFailed, db: Some(db), cause: None });
    }
    assert(db.runs() =~= seq![
        (reload_settings_sql(settings_path@), SqlOutcome::BatchRan(true)),
        (CREATE_LISTS_SQL@, SqlOutcome::BatchRan(true)),
    ]);
    Ok(db)
}

/// What the service hands on for one command.
pub enum Served {
    /// The reply to send back.
    Reply(String),
    /// The rows (path, new name, locked) of the file list, each text ended
    /// with a NUL for the list view; the reply is empty.
    FileRows(Vec<(String, String, usize)>),
    /// The rows (tag, value, 0) of a file's EXIF list, each text ended with a
    /// NUL; the reply is empty.
    ExifRows(Vec<(String, String, usize)>),
    /// The main thread is to quit; the reply is empty.
    Quit,
    /// The command was not recognised; the reply is empty.
    Unrecognised,
}

/// What the service hands on, as plain values.
pub enum ServedView {
    Reply(Seq<char>),
    FileRows(Seq<(Seq<char>, Seq<char>, usize)>),
    ExifRows(Seq<(Seq<char>, Seq<char>, usize)>),
    Quit,
    Unrecognised,
}

/// Rows handed on, as plain values.
pub open spec fn served_rows(v: Seq<(String, String, usize)>) -> Seq<(Seq<char>, Seq<char>, usize)> {
    v.map_values(|t: (String, String, usize)| (t.0@, t.1@, t.2))
}

impl View for Served {
    type V = ServedView;

    open spec fn view(&self) -> ServedView {
        match self {
            Served::Reply(s) => ServedView::Reply(s@),
            Served::FileRows(v) => ServedView::FileRows(served_rows(v@)),
            Served::ExifRows(v) => ServedView::ExifRows(served_rows(v@)),
            Served::Quit => ServedView::Quit,
            Served::Unrecognised => ServedView::Unrecognised,
        }
    }
}

/// Why the service could not answer a command.
#[derive(PartialEq, Eq, Structural, Debug, Clone, Copy)]
pub enum ServiceError {
    /// A known command whose arguments could not be cut out of it.
    Malformed,
    /// The SQL of the command failed.
    SqlFailed,
}

/// A result read as plain values.
pub open spec fn served_view(r: Result<Served, ServiceError>) -> Result<ServedView, ServiceError> {
    match r {
        Ok(s) => Ok(s@),
        Err(e) => Err(e),
    }
}

/// The file list's rows as handed on: texts ended with a NUL, the lock
/// flag as an unsigned number.
pub open spec fn file_list_rows(rows: Seq<(Seq<char>, Seq<char>, i64)>) -> Seq<(Seq<char>, Seq<char>, usize)> {
    rows.map_values(|t: (Seq<char>, Seq<char>, i64)| (t.0.push('\0'), t.1.push('\0'), t.2 as usize))
}

/// Every lock flag fits an unsigned number.
pub open spec fn locks_fit(rows: Seq<(Seq<char>, Seq<char>, i64)>) -> bool {
    forall|i: int| 0 <= i < rows.len() ==> 0 <= #[trigger] rows[i].2 <= usize::MAX
}

/// The EXIF list's rows as handed on: texts ended with a NUL, and 0.
pub open spec fn exif_list_rows(rows: Seq<(Seq<char>, Seq<char>)>) -> Seq<(Seq<char>, Seq<char>, usize)> {
    rows.map_values(|t: (Seq<char>, Seq<char>)| (t.0.push('\0'), t.1.push('\0'), 0usize))
}

/// The reply that a statement or batch gives: empty once it ran.
pub open spec fn ran_reply(ok: bool) -> Result<ServedView, ServiceError> {
    if ok {
        Ok(ServedView::Reply(Seq::<char>::empty()))
    } else {
        Err(ServiceError::SqlFailed)
    }
}

/// What the service runs for the plan `plan`, as the SQL runs `runs` show,
/// and what it hands on, `r`.
pub open spec fn served_as(plan: Plan, runs: Seq<SqlRun>, r: Result<ServedView, ServiceError>) -> bool {
    match plan {
        Plan::Execute(sql) => runs.len() == 1 && runs[0].0 == sql && (runs[0].1 matches SqlOutcome::Executed(
            ok,
        ) && r == ran_reply(ok)),
        Plan::Batch(sql) => runs.len() == 1 && runs[0].0 == sql && (runs[0].1 matches SqlOutcome::BatchRan(
            ok,
        ) && r == ran_reply(ok)),
        Plan::QueryNumber(sql) => runs.len() == 1 && runs[0].0 == sql && (runs[0].1 matches SqlOutcome::Number(
            n,
        ) && r == match n {
            Some(n) => Ok(ServedView::Reply(number_reply(n as nat))),
            None => Err(ServiceError::SqlFailed),
        }),
        Plan::QueryText(sql) => runs.len() == 1 && runs[0].0 == sql && (runs[0].1 matches SqlOutcome::Text(
            c,
            t,
        ) && c == 0 && r == match t {
            Some(t) => Ok(ServedView::Reply(t)),
            None => Err(ServiceError::SqlFailed),
        }),
        Plan::QueryNamePattern(sql) => runs.len() >= 1 && runs[0].0 == sql && (runs[0].1 matches SqlOutcome::Text(
            c,
            name,
        ) && c == 0 && match name {
            None => runs.len() == 1 && r == Err::<ServedView, ServiceError>(ServiceError::SqlFailed),
            Some(name) => runs.len() == 2 && runs[1].0 == sql && (runs[1].1 matches SqlOutcome::Text(
                c1,
                spec,
            ) && c1 == 1 && r == match spec {
                Some(spec) => Ok(ServedView::Reply(pattern_reply(name, spec))),
                None => Err(ServiceError::SqlFailed),
            }),
        }),
        Plan::ListFiles(sql) => runs.len() == 1 && runs[0].0 == sql && (runs[0].1 matches SqlOutcome::FileRows(
            rows,
        ) && r == match rows {
            Some(rows) => if locks_fit(rows) {
                Ok(ServedView::FileRows(file_list_rows(rows)))
            } else {
                Err(ServiceError::SqlFailed)
            },
            None => Err(ServiceError::SqlFailed),
        }),
        Plan::ListExif(sql) => runs.len() == 1 && runs[0].0 == sql && (runs[0].1 matches SqlOutcome::TextRows(
            rows,
        ) && r == match rows {
            Some(rows) => Ok(ServedView::ExifRows(exif_list_rows(rows))),
            None => Err(ServiceError::SqlFailed),
        }),
        Plan::Quit => runs.len() == 0 && r == Ok::<ServedView, ServiceError>(ServedView::Quit),
        Plan::Unrecognised => runs.len() == 0 && r == Ok::<ServedView, ServiceError>(
            ServedView::Unrecognised,
        ),
        Plan::Malformed => runs.len() == 0 && r == Err::<ServedView, ServiceError>(ServiceError::Malformed),
    }
}

fn with_nul(s: &String) -> (r: String)
    ensures
        r@ == s@.push('\0'),
{
    let mut v = str_chars(s.as_str());
    v.push('\0');
    chars_to_string(&v)
}

fn file_list_from(rows: &Vec<(String, String, i64)>) -> (r: Option<Vec<(String, String, usize)>>)
    ensures
        match r {
            Some(v) => locks_fit(file_rows_view(rows@)) && served_rows(v@) == file_list_rows(
                file_rows_view(rows@),
            ),
            None => !locks_fit(file_rows_view(rows@)),
        },
{
    let ghost view = file_rows_view(rows@);
    let mut out: Vec<(String, String, usize)> = Vec::new();
    let mut i: usize = 0;
    while i < rows.len()
        invariant
            i <= rows.len(),
            view == file_rows_view(rows@),
            out.len() == i,
            forall|j: int| 0 <= j < i ==> 0 <= #[trigger] view[j].2 <= usize::MAX,
            served_rows(out@) == file_list_rows(view).take(i as int),
        decreases rows.len() - i,
    {
        let row = &rows[i];
        let lock = row.2;
        assert(view[i as int] == (row.0@, row.1@, row.2));
        if lock < 0 || lock as u64 > usize::MAX as u64 {
            assert(!locks_fit(view)) by {
                assert(!(0 <= view[i as int].2 <= usize::MAX));
            }
            return None;
        }
        let entry = (with_nul(&row.0), with_nul(&row.1), lock as usize);
        out.push(entry);
        proof {
            assert(served_rows(out@) =~= file_list_rows(view).take(i + 1));
        }
        i = i + 1;
    }
    proof {
        assert(file_list_rows(view).take(i as int) =~= file_list_rows(view));
    }
    Some(out)
}

fn exif_list_from(rows: &Vec<(String, String)>) -> (v: Vec<(String, String, usize)>)
    ensures
        served_rows(v@) == exif_list_rows(text_rows_view(rows@)),
{
    let ghost view = text_rows_view(rows@);
    let mut out: Vec<(String, String, usize)> = Vec::new();
    let mut i: usize = 0;
    while i < rows.len()
        invariant
            i <= rows.len(),
            view == text_rows_view(rows@),
            out.len() == i,
            served_rows(out@) == exif_list_rows(view).take(i as int),
        decreases rows.len() - i,
    {
        let row = &rows[i];
        assert(view[i as int] == (row.0@, row.1@));
        let entry = (with_nul(&row.0), with_nul(&row.1), 0usize);
        out.push(entry);
        proof {
            assert(served_rows(out@) =~= exif_list_rows(view).take(i + 1));
        }
        i = i + 1;
    }
    proof {
        assert(exif_list_rows(view).take(i as int) =~= exif_list_rows(view));
    }
    out
}

/// Runs the SQL that the command `cmd` plans (the settings database being at
/// `settings_path`) and gives what goes back: `Err(SqlFailed)` exactly where
/// the SQL fails or a row is missing or of another type, `Err(Malformed)`
/// where the command's arguments cannot be cut out; the service stops on
/// either, and the asker gets no reply.
pub fn serve_command(db: &mut ServiceDb, cmd: &str, settings_path: &str) -> (r: Result<
    Served,
    ServiceError,
>)
    ensures
        final(db).runs().len() >= old(db).runs().len(),
        final(db).runs().take(old(db).runs().len() as int) == old(db).runs(),
        served_as(
            plan_spec(cmd@, settings_path@),
            final(db).runs().skip(old(db).runs().len() as int),
            served_view(r),
        ),
{
    let ghost start = db.runs();
    let action = plan_command(cmd, settings_path);
    let r = match action {
        DbAction::Execute(sql) => {
            if db.execute(sql.as_str()) {
                Ok(Served::Reply(String::new()))
            } else {
                Err(ServiceError::SqlFailed)
            }
        },
        DbAction::Batch(sql) => {
            if db.batch(sql.as_str()) {
                Ok(Served::Reply(String::new()))
            } else {
                Err(ServiceError::SqlFailed)
            }
        },
        DbAction::QueryNumber(sql) => match db.number(sql.as_str()) {
            Some(n) => Ok(Served::Reply(format_number_reply(n))),
            None => Err(ServiceError::SqlFailed),
        },
        DbAction::QueryText(sql) => match db.text(sql.as_str(), 0) {
            Some(t) => Ok(Served::Reply(t)),
            None => Err(ServiceError::SqlFailed),
        },
        DbAction::QueryNamePattern(sql) => match db.text(sql.as_str(), 0) {
            Some(name) => match db.text(sql.as_str(), 1) {
                Some(spec) => Ok(Served::Reply(format_pattern_reply(name.as_str(), spec.as_str()))),
                None => Err(ServiceError::SqlFailed),
            },
            None => Err(ServiceError::SqlFailed),
        },
        DbAction::ListFiles(sql) => match db.file_rows(sql.as_str()) {
            Some(rows) => match file_list_from(&rows) {
                Some(v) => Ok(Served::FileRows(v)),
                None => Err(ServiceError::SqlFailed),
            },
            None => Err(ServiceError::SqlFailed),
        },
        DbAction::ListExif(sql) => match db.text_rows(sql.as_str()) {
            Some(rows) => Ok(Served::ExifRows(exif_list_from(&rows))),
            None => Err(ServiceError::SqlFailed),
        },
        DbAction::Quit => Ok(Served::Quit),
        DbAction::Unrecognised => Ok(Served::Unrecognised),
        DbAction::Malformed => Err(ServiceError::Malformed),
    };
    proof {
        assert(db.runs().take(start.len() as int) =~= start);
        let added = db.runs().skip(start.len() as int);
        if db.runs().len() == start.len() {
            assert(added =~= Seq::<SqlRun>::empty());
        } else if db.runs().len() == start.len() + 1 {
            assert(added =~= seq![db.runs().last()]);
        } else {
            assert(added =~= seq![db.runs()[start.len() as int], db.runs().last()]);
        }
    }
    r
}

/// The reply that the asker gets for what was served: the text of a reply,
/// and the empty text for everything else.
pub open spec fn reply_text(s: ServedView) -> Seq<char> {
    match s {
        ServedView::Reply(t) => t,
        _ => Seq::<char>::empty(),
    }
}

/// The rows that go to the list views for what was served.
pub open spec fn handed_rows(s: ServedView) -> Seq<(Seq<char>, Seq<char>, usize)> {
    match s {
        ServedView::FileRows(v) => v,
        ServedView::ExifRows(v) => v,
        _ => Seq::empty(),
    }
}

/// What the service loop is to do once a command was answered.
#[derive(PartialEq, Eq, Structural, Debug, Clone, Copy)]
pub enum AnswerKind {
    /// Nothing more: take the next command.
    Replied,
    /// The main thread is to quit.
    Quit,
    /// The command was not recognised; it got the empty reply.
    Unrecognised,
}

/// What the loop is to do for what was served.
pub open spec fn answer_kind(s: ServedView) -> AnswerKind {
    match s {
        ServedView::Quit => AnswerKind::Quit,
        ServedView::Unrecognised => AnswerKind::Unrecognised,
        _ => AnswerKind::Replied,
    }
}

/// Answering a command that was served as `s`: where serving failed, no
/// reply and no rows, and the error; else exactly one reply, the one for
/// `s`, with the rows for `s` handed on before it.
pub open spec fn answered_with(
    s: Result<ServedView, ServiceError>,
    replies_before: Seq<Seq<char>>,
    replies_after: Seq<Seq<char>>,
    rows_before: Seq<(Seq<char>, Seq<char>, usize)>,
    rows_after: Seq<(Seq<char>, Seq<char>, usize)>,
    r: Result<(AnswerKind, bool), ServiceError>,
) -> bool {
    match s {
        Err(e) => r == Err::<(AnswerKind, bool), ServiceError>(e) && replies_after == replies_before
            && rows_after == rows_before,
        Ok(v) => replies_after == replies_before.push(reply_text(v)) && rows_after == rows_before
            + handed_rows(v) && (r matches Ok((k, _)) && k == answer_kind(v)),
    }
}

/// Serves the command `asked` ([`serve_command`]) and answers it: the rows
/// of a list go to the end of `list`, then the command gets its one reply
/// on its own reply channel. Where serving failed, nothing is sent and the
/// error comes back. The `bool` says whether the asking thread took the
/// reply.
pub fn answer_command(
    db: &mut ServiceDb,
    asked: &mut DBcommand,
    settings_path: &str,
    list: &mut Vec<(String, String, usize)>,
) -> (r: Result<(AnswerKind, bool), ServiceError>)
    ensures
        final(db).runs().len() >= old(db).runs().len(),
        final(db).runs().take(old(db).runs().len() as int) == old(db).runs(),
        final(asked).text() == old(asked).text(),
        exists|s: Result<ServedView, ServiceError>|
            served_as(
                plan_spec(old(asked).text(), settings_path@),
                final(db).runs().skip(old(db).runs().len() as int),
                s,
            ) && #[trigger] answered_with(
                s,
                old(asked).replies(),
                final(asked).replies(),
                served_rows(old(list)@),
                served_rows(final(list)@),
                r,
            ),
{
    let served = serve_command(db, asked.command().as_str(), settings_path);
    let ghost sv = served_view(served);
    let ghost rows_before = old(list)@;
    let r = match served {
        Ok(Served::Reply(t)) => {
            let taken = asked.reply(t);
            Ok((AnswerKind::Replied, taken))
        },
        Ok(Served::FileRows(v)) => {
            let mut v = v;
            let ghost moved = v@;
            list.append(&mut v);
            assert(served_rows(list@) =~= served_rows(rows_before) + served_rows(moved));
            let taken = asked.reply(String::new());
            Ok((AnswerKind::Replied, taken))
        },
        Ok(Served::ExifRows(v)) => {
            let mut v = v;
            let ghost moved = v@;
            list.append(&mut v);
            assert(served_rows(list@) =~= served_rows(rows_before) + served_rows(moved));
            let taken = asked.reply(String::new());
            Ok((AnswerKind::Replied, taken))
        },
        Ok(Served::Quit) => {
            let taken = asked.reply(String::new());
            Ok((AnswerKind::Quit, taken))
        },
        Ok(Served::Unrecognised) => {
            let taken = asked.reply(String::new());
            Ok((AnswerKind::Unrecognised, taken))
        },
        Err(e) => Err(e),
    };
    proof {
        assert(answered_with(
            sv,
            old(asked).replies(),
            asked.replies(),
            served_rows(old(list)@),
            served_rows(list@),
            r,
        ));
    }
    r
}

} // verus!
