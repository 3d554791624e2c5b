//! The file patterns (name and specification, such as `Nikon RAW` and
//! `*.nef`) that the open dialog and the settings list show.

use vstd::prelude::*;
use crate::db::{number_of, DbError, DbLink, DeleteFilePattern, Exchange, Count, GetFilePatterns};
use crate::import::added;
use crate::protocol::{
    count_command, delete_file_pattern_command, get_file_patterns_command, parse_pattern_reply,
};
use crate::text::same_text;

verus! {

/// The dialogs show at most this many patterns.
pub const PATTERN_LIMIT: usize = 16;

/// The file pattern that cannot be deleted.
pub const KEPT_PATTERN: &'static str = "All files";

/// What one `GetFilePatterns` exchange gave.
pub open spec fn pattern_of(reply: Option<Seq<char>>) -> Result<(Seq<char>, Seq<char>), DbError> {
    match reply {
        Some(r) => match parse_pattern_reply(r) {
            Some(p) => Ok(p),
            None => Err(DbError::BadReply),
        },
        None => Err(DbError::Disconnected),
    }
}

/// The patterns read as their texts.
pub open spec fn pattern_texts(v: Seq<(String, String)>) -> Seq<(Seq<char>, Seq<char>)> {
    v.map_values(|p: (String, String)| (p.0@, p.1@))
}

/// The exchanges `ex` ask for patterns `1, 2, ...` after the count, and every
/// one before the last gave a pattern.
pub open spec fn pattern_requests(ex: Seq<Exchange>) -> bool {
    &&& forall|i: int| 1 <= i < ex.len() ==> #[trigger] ex[i].0 == get_file_patterns_command(i as nat)
    &&& forall|i: int| 1 <= i < ex.len() - 1 ==> pattern_of(#[trigger] ex[i].1) is Ok
}

/// Reads the file patterns in order: at most [`PATTERN_LIMIT`] of them, and
/// whether the database holds more.
pub fn load_file_patterns(link: &mut DbLink) -> (r: Result<(Vec<(String, String)>, bool), DbError>)
    ensures
        final(link).exchanges().len() > old(link).exchanges().len(),
        final(link).exchanges().take(old(link).exchanges().len() as int) == old(link).exchanges(),
        ({
            let ex = added(old(link).exchanges(), final(link).exchanges());
            &&& ex[0].0 == count_command("idx"@, "file_pat"@)
            &&& pattern_requests(ex)
            &&& match number_of(ex[0].1) {
                Err(e) => ex.len() == 1 && r == Err::<(Vec<(String, String)>, bool), DbError>(e),
                Ok(n) => {
                    let k = if n < 16 {
                        n
                    } else {
                        16
                    };
                    match r {
                        Ok((v, more)) => {
                            &&& ex.len() == k + 1
                            &&& v.len() == k
                            &&& more == (n > 16)
                            &&& forall|i: int|
                                0 <= i < k ==> pattern_of(ex[i + 1].1) == Ok::<
                                    (Seq<char>, Seq<char>),
                                    DbError,
                                >(#[trigger] pattern_texts(v@)[i])
                        },
                        Err(e) => ex.len() <= k + 1 && ex.len() > 1 && pattern_of(ex.last().1)
                            == Err::<(Seq<char>, Seq<char>), DbError>(e),
                    }
                },
            }
        }),
{
    let ghost start = link.exchanges();
    let count = Count(link, "idx", "file_pat");
    let ghost after = link.exchanges();
    assert(added(start, after) =~= seq![after.last()]);
    assert(after.take(start.len() as int) =~= start);
    let n = match count {
        Ok(n) => n,
        Err(e) => return Err(e),
    };
    let k: usize = if n < PATTERN_LIMIT {
        n
    } else {
        PATTERN_LIMIT
    };
    let mut v: Vec<(String, String)> = Vec::new();
    let mut i: usize = 0;
    while i < k
        invariant
            start == old(link).exchanges(),
            after.len() == start.len() + 1,
            after.last().0 == count_command("idx"@, "file_pat"@),
            number_of(after.last().1) == Ok::<nat, DbError>(n as nat),
            k == (if n < 16 {
                n
            } else {
                16
            }),
            k <= 16,
            i <= k,
            v.len() == i,
            link.exchanges().len() == start.len() + 1 + i,
            link.exchanges().take(start.len() as int) == start,
            added(start, link.exchanges())[0] == after.last(),
            forall|j: int|
                1 <= j <= i ==> #[trigger] added(start, link.exchanges())[j].0
                    == get_file_patterns_command(j as nat),
            forall|j: int|
                1 <= j <= i ==> pattern_of((#[trigger] added(start, link.exchanges())[j]).1) is Ok,
            forall|j: int|
                0 <= j < i ==> pattern_of(added(start, link.exchanges())[j + 1].1) == Ok::<
                    (Seq<char>, Seq<char>),
                    DbError,
                >(#[trigger] pattern_texts(v@)[j]),
        decreases k - i,
    {
        let ghost before = link.exchanges();
        let mut name = String::new();
        let mut spec = String::new();
        let got = GetFilePatterns(link, i + 1, &mut name, &mut spec);
        proof {
            assert(added(start, link.exchanges()) =~= added(start, before).push(link.exchanges().last()));
            assert(link.exchanges().take(start.len() as int) =~= start);
        }
        match got {
            Ok(()) => {
                let ghost old_v = v@;
                v.push((name, spec));
                proof {
                    assert forall|j: int| 0 <= j < i implies #[trigger] pattern_texts(v@)[j] == pattern_texts(old_v)[j] by {}
                }
            },
            Err(e) => {
                return Err(e);
            },
        }
        i = i + 1;
    }
    Ok((v, n > PATTERN_LIMIT))
}

/// Deletes the file pattern named `name`, unless it is [`KEPT_PATTERN`]:
/// that one stays, and nothing is sent. Gives whether a pattern was deleted.
pub fn remove_file_pattern(link: &mut DbLink, name: &str) -> (r: Result<bool, DbError>)
    ensures
        name@ == KEPT_PATTERN@ ==> final(link).exchanges() == old(link).exchanges() && r == Ok::<
            bool,
            DbError,
        >(false),
        name@ != KEPT_PATTERN@ ==> final(link).exchanges() == old(link).exchanges().push(
            (delete_file_pattern_command(name@), final(link).last_reply()),
        ) && r == (match final(link).last_reply() {
            Some(_) => Ok::<bool, DbError>(true),
            None => Err(DbError::Disconnected),
        }),
{
    if same_text(name, KEPT_PATTERN) {
        return Ok(false);
    }
    let mut owned = name.to_owned();
    match DeleteFilePattern(link, &mut owned) {
        Ok(()) => Ok(true),
        Err(e) => Err(e),
    }
}

} // verus!
