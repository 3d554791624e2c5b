//! The user interface's side of the database service: commands go over a
//! channel to the service thread, and each waits for its reply.

use std::sync::mpsc::{Receiver, Sender};
use vstd::prelude::*;
use crate::protocol::{
    add_file_pattern_command, count_command, delete_file_pattern_command, delete_file_sql,
    exif_list_command, get_file_patterns_command, get_file_spec_command, get_int_setting_command,
    get_text_setting_command, parse_pattern_reply, quick_sql_command, read_number_reply,
    read_pattern_reply, set_int_setting_command, set_text_setting_command,
};
use crate::text::{
    chars_to_string, decimal, extend_str, parse_usize, push_decimal, push_signed_decimal,
    signed_decimal, str_chars,
};

verus! {

#[verifier::external_type_specification]
#[verifier::external_body]
#[verifier::reject_recursive_types(T)]
pub struct ExSender<T>(Sender<T>);

#[verifier::external_type_specification]
#[verifier::external_body]
#[verifier::reject_recursive_types(T)]
pub struct ExReceiver<T>(Receiver<T>);

/// `std::sync::mpsc::channel`: a fresh channel for one reply. Nothing is
/// claimed of it.
#[verifier::external_body]
fn open_reply_channel() -> (Sender<String>, Receiver<String>) {
    std::sync::mpsc::channel()
}

/// `Sender::clone`: another sender into the same channel. Nothing is claimed of it.
#[verifier::external_body]
fn channel_clone<T>(tx: &Sender<T>) -> Sender<T> {
    tx.clone()
}

/// One command for the database service, with the channel for its reply.
pub struct DBcommand {
    tx: Sender<String>,
    cmd: String,
    sent: Ghost<Seq<Seq<char>>>,
}

impl DBcommand {
    /// The text of the command.
    pub closed spec fn text(&self) -> Seq<char> {
        self.cmd@
    }

    /// Every reply sent on this command's reply channel, in order, whether
    /// or not the asking thread took it.
    pub closed spec fn replies(&self) -> Seq<Seq<char>> {
        self.sent@
    }

    /// The command `cmd`, to be answered on `tx`; no reply sent yet.
    pub fn new(tx: Sender<String>, cmd: String) -> (c: DBcommand)
        ensures
            c.text() == cmd@,
            c.replies() == Seq::<Seq<char>>::empty(),
    {
        DBcommand { tx, cmd, sent: Ghost(Seq::empty()) }
    }

    /// The text of the command.
    pub fn command(&self) -> (c: &String)
        ensures
            c@ == self.text(),
    {
        &self.cmd
    }

    /// `Sender::send` of `answer` on this command's reply channel: whether
    /// the asking thread took it. Claimed: `answer` is the reply sent, taken
    /// or not; whether the asker still waits depends on the other thread and
    /// is not claimed.
    #[verifier::external_body]
    fn hand_reply(&mut self, answer: String) -> (ok: bool)
        ensures
            final(self).replies() == old(self).replies().push(answer@),
            final(self).text() == old(self).text(),
    {
        self.tx.send(answer).is_ok()
    }

    /// Sends the reply `answer` back to the thread that asked; `false` when
    /// that thread no longer waits, and the reply was then sent to no one.
    pub fn reply(&mut self, answer: String) -> (ok: bool)
        ensures
            final(self).replies() == old(self).replies().push(answer@),
            final(self).text() == old(self).text(),
    {
        self.hand_reply(answer)
    }
}

/// An optional text read as its characters.
pub open spec fn opt_chars(o: Option<String>) -> Option<Seq<char>> {
    match o {
        Some(s) => Some(s@),
        None => None,
    }
}

/// One command sent and the reply that came back (`None` when the service
/// was gone).
pub type Exchange = (Seq<char>, Option<Seq<char>>);

/// The user interface's end of the channel to the database service.
pub struct DbLink {
    tx: Sender<DBcommand>,
    log: Ghost<Seq<Exchange>>,
}

impl DbLink {
    /// Every command sent over this link so far, in order, with its reply.
    pub closed spec fn exchanges(&self) -> Seq<Exchange> {
        self.log@
    }

    /// The reply to the last command sent.
    pub open spec fn last_reply(&self) -> Option<Seq<char>> {
        self.exchanges().last().1
    }

    /// A link over the channel whose receiving end the service holds.
    pub fn new(tx: Sender<DBcommand>) -> (link: DbLink)
        ensures
            link.exchanges() == Seq::<Exchange>::empty(),
    {
        DbLink { tx, log: Ghost(Seq::empty()) }
    }

    /// Another link into the same service, for another thread.
    pub fn duplicate(&self) -> (link: DbLink)
        ensures
            link.exchanges() == Seq::<Exchange>::empty(),
    {
        DbLink { tx: channel_clone(&self.tx), log: Ghost(Seq::empty()) }
    }
}

/// Errors of a command sent to the database service.
#[derive(PartialEq, Eq, Structural, Debug, Clone, Copy)]
pub enum DbError {
    /// The service was gone before the reply came.
    Disconnected,
    /// The reply was not of the form the command expects.
    BadReply,
}

/// `Sender::send` of the command `c` to the service. Claimed: the link's
/// log gains `c`'s text, with no reply yet; whether the service took it
/// depends on the other thread and is not claimed.
#[verifier::external_body]
fn dispatch(link: &mut DbLink, c: DBcommand) -> (ok: bool)
    ensures
        final(link).exchanges() == old(link).exchanges().push((c.text(), None)),
{
    link.tx.send(c).is_ok()
}

/// `Receiver::recv` on `rx`, the reply channel of the last command sent:
/// the reply, or `None` once the service dropped the channel without one.
/// Claimed: the reply is recorded with that command; what arrives depends on
/// the other thread and is not claimed.
#[verifier::external_body]
fn await_reply(link: &mut DbLink, rx: &Receiver<String>) -> (r: Option<String>)
    requires
        old(link).exchanges().len() > 0,
        old(link).exchanges().last().1 is None,
    ensures
        final(link).exchanges() == old(link).exchanges().drop_last().push(
            (old(link).exchanges().last().0, opt_chars(r)),
        ),
{
    rx.recv().ok()
}

/// Sends `cmd` to the database service and waits for its reply: `None`
/// where the service is gone, or failed on the command and dropped its
/// reply channel.
pub fn send_cmd(link: &mut DbLink, cmd: &str) -> (r: Option<String>)
    ensures
        final(link).exchanges() == old(link).exchanges().push((cmd@, opt_chars(r))),
{
    let (tx2, rx2) = open_reply_channel();
    let c = DBcommand::new(tx2, cmd.to_owned());
    if dispatch(link, c) {
        let r = await_reply(link, &rx2);
        assert(link.exchanges() =~= old(link).exchanges().push((cmd@, opt_chars(r))));
        r
    } else {
        None
    }
}

/// Sends `cmd` and keeps only whether the service answered.
pub open spec fn answered(reply: Option<Seq<char>>) -> Result<(), DbError> {
    match reply {
        Some(_) => Ok(()),
        None => Err(DbError::Disconnected),
    }
}

/// A reply read as a number.
pub open spec fn number_of(reply: Option<Seq<char>>) -> Result<nat, DbError> {
    match reply {
        Some(r) => match parse_usize(r) {
            Some(n) => Ok(n),
            None => Err(DbError::BadReply),
        },
        None => Err(DbError::Disconnected),
    }
}

/// A result read as a mathematical number.
pub open spec fn nat_result(r: Result<usize, DbError>) -> Result<nat, DbError> {
    match r {
        Ok(n) => Ok(n as nat),
        Err(e) => Err(e),
    }
}

fn send_unit(link: &mut DbLink, cmd: &str) -> (r: Result<(), DbError>)
    ensures
        final(link).exchanges() == old(link).exchanges().push((cmd@, final(link).last_reply())),
        r == answered(final(link).last_reply()),
{
    match send_cmd(link, cmd) {
        Some(_) => Ok(()),
        None => Err(DbError::Disconnected),
    }
}

fn send_number(link: &mut DbLink, cmd: &str) -> (r: Result<usize, DbError>)
    ensures
        final(link).exchanges() == old(link).exchanges().push((cmd@, final(link).last_reply())),
        nat_result(r) == number_of(final(link).last_reply()),
{
    match send_cmd(link, cmd) {
        Some(reply) => match read_number_reply(reply.as_str()) {
            Some(n) => Ok(n),
            None => Err(DbError::BadReply),
        },
        None => Err(DbError::Disconnected),
    }
}

fn text_with_signed(prefix: &str, n: i64) -> (s: String)
    ensures
        s@ == prefix@ + signed_decimal(n as int),
{
    let mut v = str_chars(prefix);
    push_signed_decimal(&mut v, n);
    chars_to_string(&v)
}

fn text_with_number(prefix: &str, n: usize) -> (s: String)
    ensures
        s@ == prefix@ + decimal(n as nat),
{
    let mut v = str_chars(prefix);
    push_decimal(&mut v, n as u64);
    chars_to_string(&v)
}

/// Reads an integer setting: `Err(Disconnected)` where no reply comes (the
/// service is gone, or failed because the setting is missing or is not a
/// number it can read), `Err(BadReply)` where the reply is not a number.
pub fn GetIntSetting(link: &mut DbLink, id: i32) -> (r: Result<usize, DbError>)
    ensures
        final(link).exchanges() == old(link).exchanges().push(
            (get_int_setting_command(id as int), final(link).last_reply()),
        ),
        nat_result(r) == number_of(final(link).last_reply()),
{
    let cmd = text_with_signed("GetIntSetting=", id as i64);
    send_number(link, cmd.as_str())
}

/// Writes an integer setting.
pub fn SetIntSetting(link: &mut DbLink, id: i32, value: isize) -> (r: Result<(), DbError>)
    ensures
        final(link).exchanges() == old(link).exchanges().push(
            (set_int_setting_command(id as int, value as int), final(link).last_reply()),
        ),
        r == answered(final(link).last_reply()),
{
    let mut v = str_chars("SetIntSetting=");
    push_signed_decimal(&mut v, id as i64);
    extend_str(&mut v, "=");
    push_signed_decimal(&mut v, value as i64);
    let cmd = chars_to_string(&v);
    send_unit(link, cmd.as_str())
}

/// Reads a text setting: `Err(Disconnected)` where no reply comes (the
/// service is gone, or failed because the setting is missing).
pub fn GetTextSetting(link: &mut DbLink, id: i32) -> (r: Result<String, DbError>)
    ensures
        final(link).exchanges() == old(link).exchanges().push(
            (get_text_setting_command(id as int), final(link).last_reply()),
        ),
        match final(link).last_reply() {
            Some(reply) => r matches Ok(s) && s@ == reply,
            None => r == Err::<String, DbError>(DbError::Disconnected),
        },
{
    let cmd = text_with_signed("GetTextSetting=", id as i64);
    match send_cmd(link, cmd.as_str()) {
        Some(reply) => Ok(reply),
        None => Err(DbError::Disconnected),
    }
}

/// Writes a text setting.
pub fn SetTextSetting(link: &mut DbLink, id: i32, value: String) -> (r: Result<(), DbError>)
    ensures
        final(link).exchanges() == old(link).exchanges().push(
            (set_text_setting_command(id as int, value@), final(link).last_reply()),
        ),
        r == answered(final(link).last_reply()),
{
    let mut v = str_chars("SetTextSetting=");
    push_signed_decimal(&mut v, id as i64);
    extend_str(&mut v, "=");
    extend_str(&mut v, value.as_str());
    let cmd = chars_to_string(&v);
    send_unit(link, cmd.as_str())
}

/// Reloads the settings database from disc.
pub fn ReloadSettings(link: &mut DbLink) -> (r: Result<(), DbError>)
    ensures
        final(link).exchanges() == old(link).exchanges().push(
            ("ReloadSettings"@, final(link).last_reply()),
        ),
        r == answered(final(link).last_reply()),
{
    send_unit(link, "ReloadSettings")
}

/// Saves the settings to disc.
pub fn SaveSettings(link: &mut DbLink) -> (r: Result<(), DbError>)
    ensures
        final(link).exchanges() == old(link).exchanges().push(
            ("SaveSettings"@, final(link).last_reply()),
        ),
        r == answered(final(link).last_reply()),
{
    send_unit(link, "SaveSettings")
}

/// Counts the distinct `what`s of `table`.
pub fn Count(link: &mut DbLink, what: &str, table: &str) -> (r: Result<usize, DbError>)
    ensures
        final(link).exchanges() == old(link).exchanges().push(
            (count_command(what@, table@), final(link).last_reply()),
        ),
        nat_result(r) == number_of(final(link).last_reply()),
{
    let mut v = str_chars("Count=");
    extend_str(&mut v, what);
    extend_str(&mut v, "=");
    extend_str(&mut v, table);
    let cmd = chars_to_string(&v);
    send_number(link, cmd.as_str())
}

/// Reads the name and specification of file pattern `idx` into `zName` and
/// `zSpec`; on an error both stay as they were: `Err(Disconnected)` where no
/// reply comes (the service is gone, or failed because no pattern has that
/// index), `Err(BadReply)` where the reply holds no `&`.
pub fn GetFilePatterns(link: &mut DbLink, idx: usize, zName: &mut String, zSpec: &mut String) -> (r:
    Result<(), DbError>)
    ensures
        final(link).exchanges() == old(link).exchanges().push(
            (get_file_patterns_command(idx as nat), final(link).last_reply()),
        ),
        match final(link).last_reply() {
            Some(reply) => match parse_pattern_reply(reply) {
                Some((name, spec)) => r is Ok && final(zName)@ == name && final(zSpec)@ == spec,
                None => r == Err::<(), DbError>(DbError::BadReply) && *final(zName) == *old(zName)
                    && *final(zSpec) == *old(zSpec),
            },
            None => r == Err::<(), DbError>(DbError::Disconnected) && *final(zName) == *old(zName)
                && *final(zSpec) == *old(zSpec),
        },
{
    let cmd = text_with_number("GetFilePatterns=", idx);
    match send_cmd(link, cmd.as_str()) {
        Some(answer) => match read_pattern_reply(answer.as_str()) {
            Some((name, spec)) => {
                *zName = name;
                *zSpec = spec;
                Ok(())
            },
            None => Err(DbError::BadReply),
        },
        None => Err(DbError::Disconnected),
    }
}

/// Reads the specification of the file pattern that the setting `idx`
/// selects: `Err(Disconnected)` where no reply comes (the service is gone,
/// or failed because the setting or the pattern is missing).
pub fn GetFileSpec(link: &mut DbLink, idx: usize, zSpec: &mut String) -> (r: Result<(), DbError>)
    ensures
        final(link).exchanges() == old(link).exchanges().push(
            (get_file_spec_command(idx as nat), final(link).last_reply()),
        ),
        match final(link).last_reply() {
            Some(reply) => r is Ok && final(zSpec)@ == reply,
            None => r == Err::<(), DbError>(DbError::Disconnected) && *final(zSpec) == *old(zSpec),
        },
{
    let cmd = text_with_number("GetFileSpec=", idx);
    match send_cmd(link, cmd.as_str()) {
        Some(answer) => {
            *zSpec = answer;
            Ok(())
        },
        None => Err(DbError::Disconnected),
    }
}

/// Deletes the file pattern called `zName`.
pub fn DeleteFilePattern(link: &mut DbLink, zName: &mut String) -> (r: Result<(), DbError>)
    ensures
        final(link).exchanges() == old(link).exchanges().push(
            (delete_file_pattern_command(old(zName)@), final(link).last_reply()),
        ),
        r == answered(final(link).last_reply()),
        *final(zName) == *old(zName),
{
    let mut v = str_chars("DeleteFilePattern=");
    extend_str(&mut v, zName.as_str());
    let cmd = chars_to_string(&v);
    send_unit(link, cmd.as_str())
}

/// Keeps a copy of the file patterns, for `RestoreFilePatternDatabase`.
pub fn MakeTempFilePatternDatabase(link: &mut DbLink) -> (r: Result<(), DbError>)
    ensures
        final(link).exchanges() == old(link).exchanges().push(
            ("MakeTempFilePatternDatabase"@, final(link).last_reply()),
        ),
        r == answered(final(link).last_reply()),
{
    send_unit(link, "MakeTempFilePatternDatabase")
}

/// Puts back the copy of the file patterns that `MakeTempFilePatternDatabase`
/// kept: `Err(Disconnected)` where no reply comes (the service is gone, or
/// failed because there is no copy).
pub fn RestoreFilePatternDatabase(link: &mut DbLink) -> (r: Result<(), DbError>)
    ensures
        final(link).exchanges() == old(link).exchanges().push(
            ("RestoreFilePatternDatabase"@, final(link).last_reply()),
        ),
        r == answered(final(link).last_reply()),
{
    send_unit(link, "RestoreFilePatternDatabase")
}

/// Inserts a file pattern after position `idx`. The dialog hands the name
/// and the specification on ended with a NUL, which the service takes off;
/// neither may be empty.
pub fn AddFilePattern(link: &mut DbLink, idx: usize, zName: String, zSpec: String) -> (r: Result<
    (),
    DbError,
>)
    requires
        zName@.len() > 0,
        zSpec@.len() > 0,
    ensures
        final(link).exchanges() == old(link).exchanges().push(
            (add_file_pattern_command(idx as nat, zName@, zSpec@), final(link).last_reply()),
        ),
        r == answered(final(link).last_reply()),
{
    let mut v = str_chars("AddFilePattern=");
    push_decimal(&mut v, idx as u64);
    extend_str(&mut v, "|+|");
    extend_str(&mut v, zName.as_str());
    extend_str(&mut v, "|$|");
    extend_str(&mut v, zSpec.as_str());
    let cmd = chars_to_string(&v);
    send_unit(link, cmd.as_str())
}

/// Runs SQL statements that give nothing back.
pub fn QuickNonReturningSqlCommand(link: &mut DbLink, sql: String) -> (r: Result<(), DbError>)
    ensures
        final(link).exchanges() == old(link).exchanges().push(
            (quick_sql_command(sql@), final(link).last_reply()),
        ),
        r == answered(final(link).last_reply()),
{
    let mut v = str_chars("QuickNonReturningSqlCommand=");
    extend_str(&mut v, sql.as_str());
    let cmd = chars_to_string(&v);
    send_unit(link, cmd.as_str())
}

/// Removes one file, and its EXIF tags, from the lists.
pub fn DeleteFromDatabase(link: &mut DbLink, filename: String) -> (r: Result<(), DbError>)
    ensures
        final(link).exchanges() == old(link).exchanges().push(
            (quick_sql_command(delete_file_sql(filename@)), final(link).last_reply()),
        ),
        r == answered(final(link).last_reply()),
{
    let mut v = str_chars("DELETE FROM exif WHERE path='");
    extend_str(&mut v, filename.as_str());
    extend_str(&mut v, "';DELETE FROM files WHERE path='");
    extend_str(&mut v, filename.as_str());
    extend_str(&mut v, "';");
    let cmd = chars_to_string(&v);
    QuickNonReturningSqlCommand(link, cmd)
}

/// Opens a transaction.
pub fn begin(link: &mut DbLink) -> (r: Result<(), DbError>)
    ensures
        final(link).exchanges() == old(link).exchanges().push(("Begin"@, final(link).last_reply())),
        r == answered(final(link).last_reply()),
{
    send_unit(link, "Begin")
}

/// Commits the open transaction.
pub fn commit(link: &mut DbLink) -> (r: Result<(), DbError>)
    ensures
        final(link).exchanges() == old(link).exchanges().push(("Commit"@, final(link).last_reply())),
        r == answered(final(link).last_reply()),
{
    send_unit(link, "Commit")
}

/// Asks the service for the rows of the main file list.
pub fn request_file_list(link: &mut DbLink) -> (r: Result<(), DbError>)
    ensures
        final(link).exchanges() == old(link).exchanges().push(
            ("transfer_data_to_main_file_list"@, final(link).last_reply()),
        ),
        r == answered(final(link).last_reply()),
{
    send_unit(link, "transfer_data_to_main_file_list")
}

/// Asks the service for the EXIF tags of the file `path`.
pub fn request_exif_list(link: &mut DbLink, path: &str) -> (r: Result<(), DbError>)
    ensures
        final(link).exchanges() == old(link).exchanges().push(
            (exif_list_command(path@), final(link).last_reply()),
        ),
        r == answered(final(link).last_reply()),
{
    let mut v = str_chars("transfer_data_to_exif_browser_list");
    extend_str(&mut v, path);
    let cmd = chars_to_string(&v);
    send_unit(link, cmd.as_str())
}

} // verus!
