//! The command protocol between the user interface and the database
//! service: how requests are written, how the service reads them and which
//! SQL each one turns into, and how replies are written and read back.

use vstd::prelude::*;
use crate::text::{
    byte_len, chars_to_string, extend_chars, extend_str, find_offset, get_span, opt_int,
    rfind_offset, str_find, str_get, str_rfind, str_text, starts_with, str_chars, signed_decimal,
    decimal, push_decimal, parse_usize, parse_usize_chars, byte_length, lemma_str_get_byte_len,
};

verus! {

/// The start of the batch that loads the settings database.
pub const RELOAD_SQL_HEAD: &'static str = "DROP TABLE IF EXISTS 'settings';\n            CREATE TABLE 'settings' (name,ID,value);\n            DROP TABLE IF EXISTS file_pat;\n            CREATE TABLE 'file_pat' \n              (\n                idx INTEGER PRIMARY KEY AUTOINCREMENT NOT NULL UNIQUE, \n                pszName TEXT,\n                pszSpec TEXT\n              );\n            ATTACH DATABASE '";

/// The end of the batch that loads the settings database.
pub const RELOAD_SQL_TAIL: &'static str = "' AS SETTINGS;\n              INSERT INTO main.settings SELECT * FROM settings.settings;\n              INSERT INTO file_pat (pszName, pszSpec) SELECT pszName, pszSpec FROM settings.load_filterspec;\n            DETACH DATABASE SETTINGS;";

/// The start of the batch that saves the settings database.
pub const SAVE_SQL_HEAD: &'static str = "ATTACH DATABASE '";

/// The end of the batch that saves the settings database.
pub const SAVE_SQL_TAIL: &'static str = "' AS SETTINGS;\n            DELETE FROM settings.settings WHERE id IN (SELECT id FROM main.settings);\n            INSERT INTO settings.settings SELECT * FROM main.settings;\n            DROP TABLE settings.load_filterspec;\n            CREATE TABLE settings.load_filterspec (idx INTEGER PRIMARY KEY AUTOINCREMENT NOT NULL UNIQUE, pszName TEXT, pszSpec TEXT);\n            INSERT INTO settings.load_filterspec (pszName, pszSpec) SELECT pszName, pszSpec FROM main.file_pat ORDER BY idx;\n            DETACH DATABASE SETTINGS";

/// Puts back the copy of the file patterns.
pub const RESTORE_PATTERNS_SQL: &'static str = "DROP TABLE IF EXISTS file_pat;\n                                      CREATE TABLE 'file_pat' \n                                      (\n                                          idx INTEGER PRIMARY KEY AUTOINCREMENT NOT NULL UNIQUE, \n                                          pszName TEXT,\n                                          pszSpec TEXT\n                                      );\n                                      INSERT INTO file_pat (pszName, pszSpec) SELECT pszName, pszSpec FROM tmp_file_pat;\n                                      DROP TABLE IF EXISTS tmp_file_pat";

/// The batch that inserts a file pattern, in pieces around its index, name and specification.
pub const ADD_PATTERN_SQL_0: &'static str = "\n                DROP TABLE IF EXISTS add_file_pat;\n                CREATE TABLE add_file_pat \n                (\n                    idx INTEGER PRIMARY KEY AUTOINCREMENT NOT NULL UNIQUE, \n                    pszName TEXT,\n                    pszSpec TEXT\n                );\n                INSERT INTO add_file_pat (pszName, pszSpec) SELECT pszName, pszSpec FROM file_pat WHERE idx <=";

/// See [`ADD_PATTERN_SQL_0`].
pub const ADD_PATTERN_SQL_1: &'static str = ";\n                INSERT INTO add_file_pat (pszName, pszSpec) VALUES ('";

/// See [`ADD_PATTERN_SQL_0`].
pub const ADD_PATTERN_SQL_2: &'static str = "', '";

/// See [`ADD_PATTERN_SQL_0`].
pub const ADD_PATTERN_SQL_3: &'static str = "');\n                INSERT INTO add_file_pat (pszName, pszSpec) SELECT pszName, pszSpec FROM file_pat WHERE idx >";

/// See [`ADD_PATTERN_SQL_0`].
pub const ADD_PATTERN_SQL_4: &'static str = ";\n                DROP TABLE IF EXISTS file_pat;\n                ALTER TABLE add_file_pat RENAME TO file_pat;\n                ";

/// The start of the query for the file specification that a setting selects.
pub const FILE_SPEC_SQL_HEAD: &'static str = "\n                                            SELECT pszSpec FROM file_pat \n                                              WHERE\n                                               idx=(SELECT idx FROM file_pat,settings \n                                                        WHERE \n                                                          file_pat.idx=(settings.value + 1) \n                                                          AND id=";

/// The end of the query for the file specification that a setting selects.
pub const FILE_SPEC_SQL_TAIL: &'static str = " \n                                                          AND file_pat.idx\n                                                        );               \n                                        ";

/// The query for the rows of the file list.
pub const LIST_FILES_SQL: &'static str = "\n                SELECT \n                  path,\n                  ifnull(new_file_name,orig_file_name) new_file_name,\n                  locked\n                FROM\n                  files;                     ";

/// The tables of the file list and of the EXIF tags, made when the service starts.
pub const CREATE_LISTS_SQL: &'static str = "\n               DROP TABLE IF EXISTS files;\n               CREATE TABLE files (\n                    path TEXT NOT NULL UNIQUE, /* Full path to image file */\n                    created DATETIME, /* The time file file was created in seconds since Unix epoc */ \n                    modified DATETIME, /* The time file file was modified in seconds since Unix epoc */ \n                    orig_file_name TEXT, \n                    new_file_name TEXT,\n                    nksc_path TEXT, /* Path to the Nikon sidecar file */\n                    inNXstudio BOOL DEFAULT 0, /* has an entry in the NX Studio sqlite database */\n                    tmp_lock BOOL DEFAULT 0, /* Temporary lock for internal use */\n                    locked BOOL DEFAULT 0 /* Name change manually locked */\n                );\n\n                DROP TABLE IF EXISTS exif;\n                CREATE TABLE exif (\n                    path TEXT NOT NULL, /* Full path to the original image file */\n                    tag TEXT NOT NULL, /* An exif TAG shorhand in text, as opposed to ID */\n                    tag_id,\n                    value TEXT NOT NULL, /* The value of the exif tag */\n                \n                    UNIQUE(path,tag)\n                );\n            ";

/// Keeps a copy of the file patterns.
pub const MAKE_TEMP_PATTERNS_SQL: &'static str = "DROP TABLE IF EXISTS tmp_file_pat; CREATE TABLE tmp_file_pat AS SELECT * FROM file_pat;";

/// What the service does for one command, with its SQL.
pub enum Plan {
    /// Run one statement; the reply is empty.
    Execute(Seq<char>),
    /// Run a batch of statements; the reply is empty.
    Batch(Seq<char>),
    /// Read one number; the reply is its decimal notation.
    QueryNumber(Seq<char>),
    /// Read one text; the reply is that text.
    QueryText(Seq<char>),
    /// Read a pattern's name and specification; the reply joins them with `&`.
    QueryNamePattern(Seq<char>),
    /// Read the rows (path, new name, locked) of the file list; the reply is empty.
    ListFiles(Seq<char>),
    /// Read the rows (tag, value) of a file's EXIF data; the reply is empty.
    ListExif(Seq<char>),
    /// Ask the main thread to quit; the reply is empty.
    Quit,
    /// A command that the service does not know.
    Unrecognised,
    /// A known command whose arguments cannot be cut out of it.
    Malformed,
}

/// The executable form of a [`Plan`].
pub enum DbAction {
    Execute(String),
    Batch(String),
    QueryNumber(String),
    QueryText(String),
    QueryNamePattern(String),
    ListFiles(String),
    ListExif(String),
    Quit,
    Unrecognised,
    Malformed,
}

impl View for DbAction {
    type V = Plan;

    open spec fn view(&self) -> Plan {
        match self {
            DbAction::Execute(s) => Plan::Execute(s@),
            DbAction::Batch(s) => Plan::Batch(s@),
            DbAction::QueryNumber(s) => Plan::QueryNumber(s@),
            DbAction::QueryText(s) => Plan::QueryText(s@),
            DbAction::QueryNamePattern(s) => Plan::QueryNamePattern(s@),
            DbAction::ListFiles(s) => Plan::ListFiles(s@),
            DbAction::ListExif(s) => Plan::ListExif(s@),
            DbAction::Quit => Plan::Quit,
            DbAction::Unrecognised => Plan::Unrecognised,
            DbAction::Malformed => Plan::Malformed,
        }
    }
}

/* The SQL of each command */

/// The query for the setting with the id `id`.
pub open spec fn select_setting_sql(id: Seq<char>) -> Seq<char> {
    "SELECT value FROM settings where ID="@ + id
}

/// Writes an integer setting.
pub open spec fn set_int_setting_sql(value: Seq<char>, id: Seq<char>) -> Seq<char> {
    "UPDATE settings SET value="@ + value + " WHERE id="@ + id + ";"@
}

/// Writes a text setting.
pub open spec fn set_text_setting_sql(value: Seq<char>, id: Seq<char>) -> Seq<char> {
    "UPDATE settings SET value='"@ + value + "' WHERE id="@ + id + ";"@
}

/// Loads the settings database at `path`.
pub open spec fn reload_settings_sql(path: Seq<char>) -> Seq<char> {
    RELOAD_SQL_HEAD@ + path + RELOAD_SQL_TAIL@
}

/// Saves the settings to the database at `path`.
pub open spec fn save_settings_sql(path: Seq<char>) -> Seq<char> {
    SAVE_SQL_HEAD@ + path + SAVE_SQL_TAIL@
}

/// Counts the distinct `what`s of `table`.
pub open spec fn count_sql(what: Seq<char>, table: Seq<char>) -> Seq<char> {
    "SELECT COUNT( DISTINCT "@ + what + ") FROM "@ + table + ";"@
}

/// The query for the name and specification of file pattern `idx`.
pub open spec fn file_patterns_sql(idx: Seq<char>) -> Seq<char> {
    "SELECT pszName, pszSpec FROM file_pat WHERE idx="@ + idx + ";"@
}

/// Deletes the file pattern named `name`.
pub open spec fn delete_pattern_sql(name: Seq<char>) -> Seq<char> {
    "DELETE FROM file_pat WHERE pszName='"@ + name + "';"@
}

/// Inserts a file pattern after position `idx`.
pub open spec fn add_pattern_sql(idx: Seq<char>, name: Seq<char>, spec: Seq<char>) -> Seq<char> {
    ADD_PATTERN_SQL_0@ + idx + ADD_PATTERN_SQL_1@ + name + ADD_PATTERN_SQL_2@ + spec
        + ADD_PATTERN_SQL_3@ + idx + ADD_PATTERN_SQL_4@
}

/// The query for the file specification that the setting `idx` selects.
pub open spec fn file_spec_sql(idx: Seq<char>) -> Seq<char> {
    FILE_SPEC_SQL_HEAD@ + idx + FILE_SPEC_SQL_TAIL@
}

/// The query for the EXIF tags of the file `path`.
pub open spec fn exif_list_sql(path: Seq<char>) -> Seq<char> {
    "SELECT tag, value FROM exif WHERE path='"@ + path + "';"@
}

/* How the service reads a command */

/// The text of `cmd` from byte offset `from` to its end.
pub open spec fn tail_from(cmd: Seq<char>, from: int) -> Option<Seq<char>> {
    str_get(cmd, from, byte_len(cmd) as int)
}

/// A command `<name>=<id>=<value>`, cut at its last `=`, with the id from byte `id_at`.
pub open spec fn id_and_value(cmd: Seq<char>, id_at: int) -> Option<(Seq<char>, Seq<char>)> {
    match str_rfind(cmd, "="@) {
        Some(d) => match (tail_from(cmd, d + 1), str_get(cmd, id_at, d)) {
            (Some(value), Some(id)) => Some((id, value)),
            _ => None,
        },
        None => None,
    }
}

/// A command `<name>=<id>=<value>` with the id from byte `id_at`, cut at
/// the first `=` after it: the value is all the rest, `=` included.
pub open spec fn id_then_value(cmd: Seq<char>, id_at: int) -> Option<(Seq<char>, Seq<char>)> {
    match tail_from(cmd, id_at) {
        Some(rest) => match str_find(rest, "="@) {
            Some(d) => match (str_get(rest, 0, d), tail_from(rest, d + 1)) {
                (Some(id), Some(value)) => Some((id, value)),
                _ => None,
            },
            None => None,
        },
        None => None,
    }
}

/// The index, name and specification of an `AddFilePattern` command.
pub open spec fn add_pattern_parts(cmd: Seq<char>) -> Option<(Seq<char>, Seq<char>, Seq<char>)> {
    match (str_find(cmd, "="@), str_rfind(cmd, "|+|"@), str_rfind(cmd, "|$|"@)) {
        (Some(i), Some(zn), Some(zs)) => match (
            str_get(cmd, i + 1, zn),
            str_get(cmd, zn + 3, zs - 1),
            str_get(cmd, zs + 3, byte_len(cmd) - 1),
        ) {
            (Some(idx), Some(name), Some(spec)) => Some((idx, name, spec)),
            _ => None,
        },
        _ => None,
    }
}

/// Plan for a command that reads one setting or one pattern by the text after byte `from`.
pub open spec fn plan_tail(cmd: Seq<char>, from: int, make: spec_fn(Seq<char>) -> Plan) -> Plan {
    match tail_from(cmd, from) {
        Some(arg) => make(arg),
        None => Plan::Malformed,
    }
}

/// What the service does for the command `cmd`, the settings database
/// being at `settings`. Commands are recognised by their first word, in
/// this order.
pub open spec fn plan_spec(cmd: Seq<char>, settings: Seq<char>) -> Plan {
    if "GetIntSetting"@.is_prefix_of(cmd) {
        plan_tail(cmd, 14, |id: Seq<char>| Plan::QueryNumber(select_setting_sql(id)))
    } else if "SetIntSetting"@.is_prefix_of(cmd) {
        match id_and_value(cmd, 14) {
            Some((id, value)) => Plan::Execute(set_int_setting_sql(value, id)),
            None => Plan::Malformed,
        }
    } else if "GetTextSetting"@.is_prefix_of(cmd) {
        plan_tail(cmd, 14, |id: Seq<char>| Plan::QueryText(select_setting_sql(id)))
    } else if "SetTextSetting"@.is_prefix_of(cmd) {
        match id_then_value(cmd, 15) {
            Some((id, value)) => Plan::Execute(set_text_setting_sql(value, id)),
            None => Plan::Malformed,
        }
    } else if "SaveSettings"@.is_prefix_of(cmd) {
        Plan::Batch(save_settings_sql(settings))
    } else if "ReloadSettings"@.is_prefix_of(cmd) {
        Plan::Batch(reload_settings_sql(settings))
    } else if "Count"@.is_prefix_of(cmd) {
        match id_and_value(cmd, 6) {
            Some((what, table)) => Plan::QueryNumber(count_sql(what, table)),
            None => Plan::Malformed,
        }
    } else if "GetFilePatterns"@.is_prefix_of(cmd) {
        plan_tail(cmd, 16, |idx: Seq<char>| Plan::QueryNamePattern(file_patterns_sql(idx)))
    } else if "DeleteFilePattern"@.is_prefix_of(cmd) {
        plan_tail(cmd, 18, |name: Seq<char>| Plan::Execute(delete_pattern_sql(name)))
    } else if "MakeTempFilePatternDatabase"@.is_prefix_of(cmd) {
        Plan::Batch(MAKE_TEMP_PATTERNS_SQL@)
    } else if "RestoreFilePatternDatabase"@.is_prefix_of(cmd) {
        Plan::Batch(RESTORE_PATTERNS_SQL@)
    } else if "AddFilePattern"@.is_prefix_of(cmd) {
        match add_pattern_parts(cmd) {
            Some((idx, name, spec)) => Plan::Batch(add_pattern_sql(idx, name, spec)),
            None => Plan::Malformed,
        }
    } else if "QuickNonReturningSqlCommand"@.is_prefix_of(cmd) {
        match tail_from(cmd, 28) {
            Some(sql) => Plan::Batch(sql),
            None => Plan::Malformed,
        }
    } else if "GetFileSpec"@.is_prefix_of(cmd) {
        plan_tail(cmd, 12, |idx: Seq<char>| Plan::QueryText(file_spec_sql(idx)))
    } else if "Begin"@.is_prefix_of(cmd) {
        Plan::Execute("BEGIN;"@)
    } else if "Commit"@.is_prefix_of(cmd) {
        Plan::Execute("COMMIT;"@)
    } else if "transfer_data_to_main_file_list"@.is_prefix_of(cmd) {
        Plan::ListFiles(LIST_FILES_SQL@)
    } else if "transfer_data_to_exif_browser_list"@.is_prefix_of(cmd) {
        plan_tail(cmd, 34, |path: Seq<char>| Plan::ListExif(exif_list_sql(path)))
    } else if "Quit"@.is_prefix_of(cmd) {
        Plan::Quit
    } else {
        Plan::Unrecognised
    }
}

} // verus!

verus! {

fn concat2(a: &str, b: &Vec<char>) -> (s: String)
    ensures
        s@ == a@ + b@,
{
    let mut v = str_chars(a);
    extend_chars(&mut v, b);
    chars_to_string(&v)
}

fn concat3(a: &str, b: &Vec<char>, c: &str) -> (s: String)
    ensures
        s@ == a@ + b@ + c@,
{
    let mut v = str_chars(a);
    extend_chars(&mut v, b);
    extend_str(&mut v, c);
    chars_to_string(&v)
}

fn concat5(a: &str, b: &Vec<char>, c: &str, d: &Vec<char>, e: &str) -> (s: String)
    ensures
        s@ == a@ + b@ + c@ + d@ + e@,
{
    let mut v = str_chars(a);
    extend_chars(&mut v, b);
    extend_str(&mut v, c);
    extend_chars(&mut v, d);
    extend_str(&mut v, e);
    chars_to_string(&v)
}

fn add_pattern_text(idx: &Vec<char>, name: &Vec<char>, spec: &Vec<char>) -> (s: String)
    ensures
        s@ == add_pattern_sql(idx@, name@, spec@),
{
    let mut v = str_chars(ADD_PATTERN_SQL_0);
    extend_chars(&mut v, idx);
    extend_str(&mut v, ADD_PATTERN_SQL_1);
    extend_chars(&mut v, name);
    extend_str(&mut v, ADD_PATTERN_SQL_2);
    extend_chars(&mut v, spec);
    extend_str(&mut v, ADD_PATTERN_SQL_3);
    extend_chars(&mut v, idx);
    extend_str(&mut v, ADD_PATTERN_SQL_4);
    chars_to_string(&v)
}

fn tail_text(c: &Vec<char>, n: usize, from: i128) -> (r: Option<Vec<char>>)
    requires
        n == byte_len(c@),
    ensures
        match r {
            Some(v) => tail_from(c@, from as int) == Some(v@),
            None => tail_from(c@, from as int) is None,
        },
{
    get_span(c, n, from, n as i128)
}

fn split_id_value(c: &Vec<char>, n: usize, id_at: i128) -> (r: Option<(Vec<char>, Vec<char>)>)
    requires
        n == byte_len(c@),
    ensures
        match r {
            Some((id, value)) => id_and_value(c@, id_at as int) == Some((id@, value@)),
            None => id_and_value(c@, id_at as int) is None,
        },
{
    match rfind_offset(c, n, "=") {
        Some(d) => {
            let value = tail_text(c, n, d as i128 + 1);
            let id = get_span(c, n, id_at, d as i128);
            match (id, value) {
                (Some(id), Some(value)) => Some((id, value)),
                _ => None,
            }
        },
        None => None,
    }
}

fn split_id_then_value(c: &Vec<char>, n: usize, id_at: i128) -> (r: Option<(Vec<char>, Vec<char>)>)
    requires
        n == byte_len(c@),
    ensures
        match r {
            Some((id, value)) => id_then_value(c@, id_at as int) == Some((id@, value@)),
            None => id_then_value(c@, id_at as int) is None,
        },
{
    match tail_text(c, n, id_at) {
        Some(rest) => {
            proof {
                lemma_str_get_byte_len(c@, id_at as int, n as int);
            }
            let m = byte_length(&rest);
            match find_offset(&rest, m, "=") {
                Some(d) => {
                    let id = get_span(&rest, m, 0, d as i128);
                    let value = tail_text(&rest, m, d as i128 + 1);
                    match (id, value) {
                        (Some(id), Some(value)) => Some((id, value)),
                        _ => None,
                    }
                },
                None => None,
            }
        },
        None => None,
    }
}

fn split_add_pattern(c: &Vec<char>, n: usize) -> (r: Option<(Vec<char>, Vec<char>, Vec<char>)>)
    requires
        n == byte_len(c@),
    ensures
        match r {
            Some((idx, name, spec)) => add_pattern_parts(c@) == Some((idx@, name@, spec@)),
            None => add_pattern_parts(c@) is None,
        },
{
    let i = find_offset(c, n, "=");
    let zn = rfind_offset(c, n, "|+|");
    let zs = rfind_offset(c, n, "|$|");
    match (i, zn, zs) {
        (Some(i), Some(zn), Some(zs)) => {
            let idx = get_span(c, n, i as i128 + 1, zn as i128);
            let name = get_span(c, n, zn as i128 + 3, zs as i128 - 1);
            let spec = get_span(c, n, zs as i128 + 3, n as i128 - 1);
            match (idx, name, spec) {
                (Some(idx), Some(name), Some(spec)) => Some((idx, name, spec)),
                _ => None,
            }
        },
        _ => None,
    }
}

/// What the database service does for the command `cmd`; `settings_path` is
/// where the settings database lies on disc.
pub fn plan_command(cmd: &str, settings_path: &str) -> (a: DbAction)
    ensures
        a@ == plan_spec(cmd@, settings_path@),
{
    let (c, n) = str_text(cmd);
    if starts_with(&c, &str_chars("GetIntSetting")) {
        match tail_text(&c, n, 14) {
            Some(id) => DbAction::QueryNumber(concat2("SELECT value FROM settings where ID=", &id)),
            None => DbAction::Malformed,
        }
    } else if starts_with(&c, &str_chars("SetIntSetting")) {
        match split_id_value(&c, n, 14) {
            Some((id, value)) => DbAction::Execute(
                concat5("UPDATE settings SET value=", &value, " WHERE id=", &id, ";"),
            ),
            None => DbAction::Malformed,
        }
    } else if starts_with(&c, &str_chars("GetTextSetting")) {
        match tail_text(&c, n, 14) {
            Some(id) => DbAction::QueryText(concat2("SELECT value FROM settings where ID=", &id)),
            None => DbAction::Malformed,
        }
    } else if starts_with(&c, &str_chars("SetTextSetting")) {
        match split_id_then_value(&c, n, 15) {
            Some((id, value)) => DbAction::Execute(
                concat5("UPDATE settings SET value='", &value, "' WHERE id=", &id, ";"),
            ),
            None => DbAction::Malformed,
        }
    } else if starts_with(&c, &str_chars("SaveSettings")) {
        let path = str_chars(settings_path);
        DbAction::Batch(concat3(SAVE_SQL_HEAD, &path, SAVE_SQL_TAIL))
    } else if starts_with(&c, &str_chars("ReloadSettings")) {
        let path = str_chars(settings_path);
        DbAction::Batch(concat3(RELOAD_SQL_HEAD, &path, RELOAD_SQL_TAIL))
    } else {
        plan_pattern_command(&c, n)
    }
}

fn plan_pattern_command(c: &Vec<char>, n: usize) -> (a: DbAction)
    requires
        n == byte_len(c@),
        !"GetIntSetting"@.is_prefix_of(c@),
        !"SetIntSetting"@.is_prefix_of(c@),
        !"GetTextSetting"@.is_prefix_of(c@),
        !"SetTextSetting"@.is_prefix_of(c@),
        !"SaveSettings"@.is_prefix_of(c@),
        !"ReloadSettings"@.is_prefix_of(c@),
    ensures
        forall|settings: Seq<char>| a@ == #[trigger] plan_spec(c@, settings),
{
    if starts_with(c, &str_chars("Count")) {
        match split_id_value(c, n, 6) {
            Some((what, table)) => DbAction::QueryNumber(
                concat5("SELECT COUNT( DISTINCT ", &what, ") FROM ", &table, ";"),
            ),
            None => DbAction::Malformed,
        }
    } else if starts_with(c, &str_chars("GetFilePatterns")) {
        match tail_text(c, n, 16) {
            Some(idx) => DbAction::QueryNamePattern(
                concat3("SELECT pszName, pszSpec FROM file_pat WHERE idx=", &idx, ";"),
            ),
            None => DbAction::Malformed,
        }
    } else if starts_with(c, &str_chars("DeleteFilePattern")) {
        match tail_text(c, n, 18) {
            Some(name) => DbAction::Execute(
                concat3("DELETE FROM file_pat WHERE pszName='", &name, "';"),
            ),
            None => DbAction::Malformed,
        }
    } else if starts_with(c, &str_chars("MakeTempFilePatternDatabase")) {
        DbAction::Batch(MAKE_TEMP_PATTERNS_SQL.to_owned())
    } else if starts_with(c, &str_chars("RestoreFilePatternDatabase")) {
        DbAction::Batch(RESTORE_PATTERNS_SQL.to_owned())
    } else if starts_with(c, &str_chars("AddFilePattern")) {
        match split_add_pattern(c, n) {
            Some((idx, name, spec)) => DbAction::Batch(add_pattern_text(&idx, &name, &spec)),
            None => DbAction::Malformed,
        }
    } else {
        plan_list_command(c, n)
    }
}

fn plan_list_command(c: &Vec<char>, n: usize) -> (a: DbAction)
    requires
        n == byte_len(c@),
        !"GetIntSetting"@.is_prefix_of(c@),
        !"SetIntSetting"@.is_prefix_of(c@),
        !"GetTextSetting"@.is_prefix_of(c@),
        !"SetTextSetting"@.is_prefix_of(c@),
        !"SaveSettings"@.is_prefix_of(c@),
        !"ReloadSettings"@.is_prefix_of(c@),
        !"Count"@.is_prefix_of(c@),
        !"GetFilePatterns"@.is_prefix_of(c@),
        !"DeleteFilePattern"@.is_prefix_of(c@),
        !"MakeTempFilePatternDatabase"@.is_prefix_of(c@),
        !"RestoreFilePatternDatabase"@.is_prefix_of(c@),
        !"AddFilePattern"@.is_prefix_of(c@),
    ensures
        forall|settings: Seq<char>| a@ == #[trigger] plan_spec(c@, settings),
{
    if starts_with(c, &str_chars("QuickNonReturningSqlCommand")) {
        match tail_text(c, n, 28) {
            Some(sql) => DbAction::Batch(chars_to_string(&sql)),
            None => DbAction::Malformed,
        }
    } else if starts_with(c, &str_chars("GetFileSpec")) {
        match tail_text(c, n, 12) {
            Some(idx) => DbAction::QueryText(concat3(FILE_SPEC_SQL_HEAD, &idx, FILE_SPEC_SQL_TAIL)),
            None => DbAction::Malformed,
        }
    } else if starts_with(c, &str_chars("Begin")) {
        DbAction::Execute("BEGIN;".to_owned())
    } else if starts_with(c, &str_chars("Commit")) {
        DbAction::Execute("COMMIT;".to_owned())
    } else if starts_with(c, &str_chars("transfer_data_to_main_file_list")) {
        DbAction::ListFiles(LIST_FILES_SQL.to_owned())
    } else if starts_with(c, &str_chars("transfer_data_to_exif_browser_list")) {
        match tail_text(c, n, 34) {
            Some(path) => DbAction::ListExif(
                concat3("SELECT tag, value FROM exif WHERE path='", &path, "';"),
            ),
            None => DbAction::Malformed,
        }
    } else if starts_with(c, &str_chars("Quit")) {
        DbAction::Quit
    } else {
        DbAction::Unrecognised
    }
}

} // verus!

verus! {

/* How the user interface writes its commands */

/// The command that reads an integer setting.
pub open spec fn get_int_setting_command(id: int) -> Seq<char> {
    "GetIntSetting="@ + signed_decimal(id)
}

/// The command that writes an integer setting.
pub open spec fn set_int_setting_command(id: int, value: int) -> Seq<char> {
    "SetIntSetting="@ + signed_decimal(id) + "="@ + signed_decimal(value)
}

/// The command that reads a text setting.
pub open spec fn get_text_setting_command(id: int) -> Seq<char> {
    "GetTextSetting="@ + signed_decimal(id)
}

/// The command that writes a text setting.
pub open spec fn set_text_setting_command(id: int, value: Seq<char>) -> Seq<char> {
    "SetTextSetting="@ + signed_decimal(id) + "="@ + value
}

/// The command that counts the distinct `what`s of `table`.
pub open spec fn count_command(what: Seq<char>, table: Seq<char>) -> Seq<char> {
    "Count="@ + what + "="@ + table
}

/// The command that reads file pattern `idx`.
pub open spec fn get_file_patterns_command(idx: nat) -> Seq<char> {
    "GetFilePatterns="@ + decimal(idx)
}

/// The command that reads the file specification that the setting `idx` selects.
pub open spec fn get_file_spec_command(idx: nat) -> Seq<char> {
    "GetFileSpec="@ + decimal(idx)
}

/// The command that deletes the file pattern named `name`.
pub open spec fn delete_file_pattern_command(name: Seq<char>) -> Seq<char> {
    "DeleteFilePattern="@ + name
}

/// The command that inserts a file pattern after position `idx`.
pub open spec fn add_file_pattern_command(idx: nat, name: Seq<char>, spec: Seq<char>) -> Seq<char> {
    "AddFilePattern="@ + decimal(idx) + "|+|"@ + name + "|$|"@ + spec
}

/// The command that runs SQL statements that give nothing back.
pub open spec fn quick_sql_command(sql: Seq<char>) -> Seq<char> {
    "QuickNonReturningSqlCommand="@ + sql
}

/// The command that asks for the EXIF tags of the file `path`.
pub open spec fn exif_list_command(path: Seq<char>) -> Seq<char> {
    "transfer_data_to_exif_browser_list"@ + path
}

/// The statements that remove one file and its EXIF tags from the lists.
pub open spec fn delete_file_sql(path: Seq<char>) -> Seq<char> {
    "DELETE FROM exif WHERE path='"@ + path + "';DELETE FROM files WHERE path='"@ + path + "';"@
}

/* Replies */

/// The reply to a command that reads a number.
pub open spec fn number_reply(n: nat) -> Seq<char> {
    decimal(n)
}

/// The reply to `GetFilePatterns`: name and specification joined by `&`.
pub open spec fn pattern_reply(name: Seq<char>, spec: Seq<char>) -> Seq<char> {
    name + "&"@ + spec
}

/// How the user interface reads a `GetFilePatterns` reply: cut at its last `&`.
pub open spec fn parse_pattern_reply(reply: Seq<char>) -> Option<(Seq<char>, Seq<char>)> {
    match str_rfind(reply, "&"@) {
        Some(d) => match (str_get(reply, 0, d), tail_from(reply, d + 1)) {
            (Some(name), Some(spec)) => Some((name, spec)),
            _ => None,
        },
        None => None,
    }
}

/// The reply for a number read by the service.
pub fn format_number_reply(n: u32) -> (s: String)
    ensures
        s@ == number_reply(n as nat),
{
    let mut v: Vec<char> = Vec::new();
    push_decimal(&mut v, n as u64);
    assert(v@ =~= decimal(n as nat));
    chars_to_string(&v)
}

/// The reply for a file pattern read by the service.
pub fn format_pattern_reply(name: &str, spec: &str) -> (s: String)
    ensures
        s@ == pattern_reply(name@, spec@),
{
    let mut v = str_chars(name);
    extend_str(&mut v, "&");
    extend_str(&mut v, spec);
    chars_to_string(&v)
}

/// Reads a number reply as the user interface does (`str::parse::<usize>`).
pub fn read_number_reply(reply: &str) -> (r: Option<usize>)
    ensures
        match r {
            Some(n) => parse_usize(reply@) == Some(n as nat),
            None => parse_usize(reply@) is None,
        },
{
    let c = str_chars(reply);
    parse_usize_chars(&c)
}

/// Reads a `GetFilePatterns` reply into its name and specification.
pub fn read_pattern_reply(reply: &str) -> (r: Option<(String, String)>)
    ensures
        match r {
            Some((name, spec)) => parse_pattern_reply(reply@) == Some((name@, spec@)),
            None => parse_pattern_reply(reply@) is None,
        },
{
    let (c, n) = str_text(reply);
    match rfind_offset(&c, n, "&") {
        Some(d) => {
            let name = get_span(&c, n, 0, d as i128);
            let spec = tail_text(&c, n, d as i128 + 1);
            match (name, spec) {
                (Some(name), Some(spec)) => Some((chars_to_string(&name), chars_to_string(&spec))),
                _ => None,
            }
        },
        None => None,
    }
}

} // verus!
