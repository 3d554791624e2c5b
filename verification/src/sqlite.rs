//! The service's SQLite database: every piece of SQL run on it is kept,
//! with what it gave back, so that the service's contracts can say which
//! SQL ran and in what order.

use rusqlite::Connection;
use vstd::prelude::*;

verus! {

#[verifier::external_type_specification]
#[verifier::external_body]
pub struct ExConnection(Connection);

#[verifier::external_type_specification]
#[verifier::external_body]
pub struct ExSqlError(rusqlite::Error);

/// `rusqlite::Connection::open_in_memory`: a new in-memory database, or the
/// error SQLite gave when it could not open one. Nothing is claimed of which
/// comes back.
#[verifier::external_body]
fn open_memory_db() -> Result<Connection, rusqlite::Error> {
    Connection::open_in_memory()
}

/// What a piece of SQL gave back.
pub enum SqlOutcome {
    /// Run as one statement: whether it ran.
    Executed(bool),
    /// Run as a batch: whether every statement ran.
    BatchRan(bool),
    /// Queried for a number.
    Number(Option<u32>),
    /// Queried for the text in a column of the first row.
    Text(nat, Option<Seq<char>>),
    /// Queried for rows of two texts and an integer.
    FileRows(Option<Seq<(Seq<char>, Seq<char>, i64)>>),
    /// Queried for rows of two texts.
    TextRows(Option<Seq<(Seq<char>, Seq<char>)>>),
}

/// A piece of SQL and what it gave back.
pub type SqlRun = (Seq<char>, SqlOutcome);

/// Rows read as plain values.
pub open spec fn file_rows_view(v: Seq<(String, String, i64)>) -> Seq<(Seq<char>, Seq<char>, i64)> {
    v.map_values(|t: (String, String, i64)| (t.0@, t.1@, t.2))
}

/// Rows read as plain values.
pub open spec fn text_rows_view(v: Seq<(String, String)>) -> Seq<(Seq<char>, Seq<char>)> {
    v.map_values(|t: (String, String)| (t.0@, t.1@))
}

/// Rows that came back, or not, as plain values.
pub open spec fn file_rows_outcome(rows: Option<Vec<(String, String, i64)>>) -> SqlOutcome {
    SqlOutcome::FileRows(
        match rows {
            Some(v) => Some(file_rows_view(v@)),
            None => None,
        },
    )
}

/// Rows that came back, or not, as plain values.
pub open spec fn text_rows_outcome(rows: Option<Vec<(String, String)>>) -> SqlOutcome {
    SqlOutcome::TextRows(
        match rows {
            Some(v) => Some(text_rows_view(v@)),
            None => None,
        },
    )
}

/// The service's database, with every piece of SQL run on it so far.
pub struct ServiceDb {
    conn: Connection,
    log: Ghost<Seq<SqlRun>>,
}

impl ServiceDb {
    /// Every piece of SQL run so far, in order, with what it gave back.
    pub closed spec fn runs(&self) -> Seq<SqlRun> {
        self.log@
    }

    /// A new, empty in-memory database, or the error SQLite gave when it
    /// could not open one. No other function makes a `ServiceDb` or writes
    /// its log, and no function of the library but this one hands out a
    /// `rusqlite::Error`: an `Err` here is SQLite refusing the database.
    pub fn open() -> (r: Result<ServiceDb, rusqlite::Error>)
        ensures
            r matches Ok(db) ==> db.runs() == Seq::<SqlRun>::empty(),
    {
        match open_memory_db() {
            Ok(conn) => Ok(ServiceDb { conn, log: Ghost(Seq::empty()) }),
            Err(e) => Err(e),
        }
    }

    /// `Connection::execute` of `sql` with no parameters: whether the
    /// statement ran. Claimed: the log gains `sql` with that outcome;
    /// whether it ran depends on the database and is not claimed.
    #[verifier::external_body]
    pub(crate) fn execute(&mut self, sql: &str) -> (ok: bool)
        ensures
            final(self).runs() == old(self).runs().push((sql@, SqlOutcome::Executed(ok))),
    {
        self.conn.execute(sql, []).is_ok()
    }

    /// `Connection::execute_batch` of `sql`: whether every statement ran.
    /// Claimed: the log gains `sql` with that outcome; whether they ran
    /// depends on the database and is not claimed.
    #[verifier::external_body]
    pub(crate) fn batch(&mut self, sql: &str) -> (ok: bool)
        ensures
            final(self).runs() == old(self).runs().push((sql@, SqlOutcome::BatchRan(ok))),
    {
        self.conn.execute_batch(sql).is_ok()
    }

    /// `Connection::query_row` of `sql`, reading the first column of the
    /// first row as a `u32` (`Row::get`); `None` where that fails. Claimed:
    /// the log gains `sql` with what came back; what comes back depends on
    /// the database and is not claimed.
    #[verifier::external_body]
    pub(crate) fn number(&mut self, sql: &str) -> (n: Option<u32>)
        ensures
            final(self).runs() == old(self).runs().push((sql@, SqlOutcome::Number(n))),
    {
        self.conn.query_row(sql, [], |row| row.get::<usize, u32>(0)).ok()
    }

    /// `Connection::query_row` of `sql`, reading column `column` of the first
    /// row as text (`Row::get`); `None` where that fails. Claimed: the log
    /// gains `sql` with the column and what came back; what comes back
    /// depends on the database and is not claimed.
    #[verifier::external_body]
    pub(crate) fn text(&mut self, sql: &str, column: usize) -> (t: Option<String>)
        ensures
            final(self).runs() == old(self).runs().push(
                (sql@, SqlOutcome::Text(column as nat, crate::db::opt_chars(t))),
            ),
    {
        self.conn.query_row(sql, [], |row| row.get::<usize, String>(column)).ok()
    }

    /// `Connection::prepare` of `sql` and `Statement::query_map`: every row,
    /// its first two columns as text and its third as an integer
    /// (`Row::get`); `None` where any of that fails. Claimed: the log gains
    /// `sql` with what came back; what comes back depends on the database
    /// and is not claimed.
    #[verifier::external_body]
    pub(crate) fn file_rows(&mut self, sql: &str) -> (rows: Option<Vec<(String, String, i64)>>)
        ensures
            final(self).runs() == old(self).runs().push((sql@, file_rows_outcome(rows))),
    {
        let mut stmt = self.conn.prepare(sql).ok()?;
        let rows = stmt.query_map([], |row| Ok((row.get(0)?, row.get(1)?, row.get(2)?))).ok()?;
        rows.collect::<Result<Vec<(String, String, i64)>, rusqlite::Error>>().ok()
    }

    /// `Connection::prepare` of `sql` and `Statement::query_map`: every row,
    /// its first two columns as text (`Row::get`); `None` where any of that
    /// fails. Claimed: the log gains `sql` with what came back; what comes
    /// back depends on the database and is not claimed.
    #[verifier::external_body]
    pub(crate) fn text_rows(&mut self, sql: &str) -> (rows: Option<Vec<(String, String)>>)
        ensures
            final(self).runs() == old(self).runs().push((sql@, text_rows_outcome(rows))),
    {
        let mut stmt = self.conn.prepare(sql).ok()?;
        let rows = stmt.query_map([], |row| Ok((row.get(0)?, row.get(1)?))).ok()?;
        rows.collect::<Result<Vec<(String, String)>, rusqlite::Error>>().ok()
    }
}


} // verus!
