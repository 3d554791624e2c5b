//! New file names from a naming pattern: `strftime` codes take the shooting
//! date, `$(tag)` takes the value of that EXIF tag, and characters that a
//! file name cannot hold are dropped.

use vstd::prelude::*;
use crate::db::{answered, DbError, DbLink, QuickNonReturningSqlCommand};
use crate::protocol::quick_sql_command;
use crate::text::{
    byte_len, byte_offset, char_at_byte, chars_to_string, contains_chars, contains_seq,
    extend_chars, extend_str, find_offset, get_span, lemma_ascii_prefix_offsets,
    lemma_byte_len_end, lemma_char_width, lemma_contains_find, lemma_offset_step, lemma_find_first_char, lemma_first_from_exact,
    lemma_first_from_found, lemma_get_exact, lemma_last_ascii_offset, lemma_offset_monotonic,
    lemma_prefix_occurs, occurs_at, replace_all, replace_chars, str_chars, str_find, str_get,
    str_text,
};

verus! {

/// The start of the update that formats the shooting date with `strftime` codes.
pub const STRFTIME_SQL_HEAD: &'static str = "\n            UPDATE files\n            SET new_file_name = new_name\n          \n            FROM\n          \n          (  \n            SELECT\n              CASE\n                WHEN locked = 0 THEN\n                  STRFTIME('";

/// The end of the update that formats the shooting date.
pub const STRFTIME_SQL_TAIL: &'static str = "', REPLACE(substr(value,0,11),':','-')||' '||SUBSTR(value,12))||\n                  '.'||\n                  REPLACE(files.path, RTRIM(files.path, REPLACE(files.path, '.', '')), '')\n                ELSE\n                  IFNULL(new_file_name,orig_file_name)\n              END new_name,\n              exif.path path\n          \n            FROM \n              exif,\n              files\n          \n            WHERE \n              tag='DateTimeOriginal' AND\n              exif.path = files.path\n            ) xx  \n          \n          WHERE files.path = xx.path;            \n            ";

/// The start of the update that copies the pattern into the new names.
pub const PATTERN_SQL_HEAD: &'static str = "\n            UPDATE files\n              SET new_file_name = new_name\n                FROM\n                 (  \n                  SELECT\n                    CASE\n                      WHEN locked = 0 THEN\n                        '";

/// The end of the update that copies the pattern.
pub const PATTERN_SQL_TAIL: &'static str = "'\n                      ELSE\n                        IFNULL(new_file_name,orig_file_name)\n                      END new_name, path\n                    FROM files\n                  ) xx\n\n            WHERE files.path=xx.path;\n                    ";

/// The updates that put a tag's value where `$(tag)` stands, in pieces around the tag.
pub const TAG_SQL_0: &'static str = "\n            UPDATE files\n            SET new_file_name = new_name\n            \n            FROM\n                (  \n                    SELECT\n                    CASE\n                        WHEN locked = 0 THEN\n                        REPLACE(files.new_file_name,'$(";

/// See [`TAG_SQL_0`].
pub const TAG_SQL_1: &'static str = ")',value)\n                        ELSE\n                        IFNULL(new_file_name,orig_file_name)\n                    END new_name,\n                    exif.path path\n                \n                    FROM \n                    exif,\n                    files\n                \n                    WHERE \n                    tag='";

/// See [`TAG_SQL_0`].
pub const TAG_SQL_2: &'static str = "' AND\n                    exif.path = files.path\n                ) xx  \n          \n            WHERE files.path = xx.path;\n\n            UPDATE files SET new_file_name=REPLACE(new_file_name,'$(";

/// See [`TAG_SQL_0`].
pub const TAG_SQL_3: &'static str = ")','');\n               ";

/// Takes the characters that a file name cannot hold out of the new names.
pub const CLEAN_NAMES_SQL: &'static str = "UPDATE files SET new_file_name=REPLACE(REPLACE(REPLACE(REPLACE(REPLACE(REPLACE(REPLACE(REPLACE(REPLACE(new_file_name,':',''),'/',''),'\\',''),'*',''),'?',''),'|',''),'\"',''),'<',''),'>','');";

/// The update that a pattern starts with: one for `strftime` codes when it
/// holds a `%`, else one that copies the pattern when it holds a `$(`.
pub open spec fn rename_head(pattern: Seq<char>) -> Seq<char> {
    if contains_seq(pattern, "%"@) {
        STRFTIME_SQL_HEAD@ + pattern + STRFTIME_SQL_TAIL@
    } else if contains_seq(pattern, "$("@) {
        PATTERN_SQL_HEAD@ + pattern + PATTERN_SQL_TAIL@
    } else {
        Seq::<char>::empty()
    }
}

/// The updates that put the value of `tag` where `$(tag)` stands.
pub open spec fn tag_update_sql(tag: Seq<char>) -> Seq<char> {
    TAG_SQL_0@ + tag + TAG_SQL_1@ + tag + TAG_SQL_2@ + tag + TAG_SQL_3@
}

/// The first `$(tag)` of a pattern: the tag and the text to take out, cut
/// between the first `$(` and the first `)`.
pub open spec fn cut_tag(pattern: Seq<char>) -> Option<(Seq<char>, Seq<char>)> {
    match (str_find(pattern, "$("@), str_find(pattern, ")"@)) {
        (Some(s), Some(e)) => match (str_get(pattern, s + 2, e), str_get(pattern, s, e + 1)) {
            (Some(tag), Some(cut)) => Some((tag, cut)),
            _ => None,
        },
        _ => None,
    }
}

/// Character indices follow the order of their byte offsets.
pub proof fn lemma_char_at_byte_order(s: Seq<char>, a: int, b: int)
    requires
        a < b,
        char_at_byte(s, a) is Some,
        char_at_byte(s, b) is Some,
    ensures
        char_at_byte(s, a)->0 < char_at_byte(s, b)->0,
{
    let i = char_at_byte(s, a)->0;
    let j = char_at_byte(s, b)->0;
    assert(0 <= i <= s.len() && crate::text::byte_offset(s, i) == a);
    assert(0 <= j <= s.len() && crate::text::byte_offset(s, j) == b);
    if j < i {
        lemma_offset_monotonic(s, j, i);
    }
}

/// Taking a text out never lengthens.
pub proof fn lemma_replace_not_longer(s: Seq<char>, p: Seq<char>)
    ensures
        replace_all(s, p, Seq::<char>::empty()).len() <= s.len(),
    decreases s.len(),
{
    if s.len() == 0 || p.len() == 0 {
    } else if p.is_prefix_of(s) {
        lemma_replace_not_longer(s.skip(p.len() as int), p);
    } else {
        lemma_replace_not_longer(s.drop_first(), p);
    }
}

/// Taking out a text that occurs shortens.
pub proof fn lemma_replace_shrinks(s: Seq<char>, p: Seq<char>, k: int)
    requires
        p.len() > 0,
        occurs_at(s, p, k),
    ensures
        replace_all(s, p, Seq::<char>::empty()).len() < s.len(),
    decreases s.len(),
{
    if p.is_prefix_of(s) {
        lemma_replace_not_longer(s.skip(p.len() as int), p);
    } else {
        lemma_prefix_occurs(s, p, 0);
        assert(s.skip(0) =~= s);
        assert(k > 0);
        assert(s.drop_first().subrange(k - 1, k - 1 + p.len()) =~= s.subrange(k, k + p.len()));
        lemma_replace_shrinks(s.drop_first(), p, k - 1);
    }
}

/// Taking a cut tag out of a pattern shortens it.
pub proof fn lemma_cut_shrinks(pattern: Seq<char>)
    ensures
        cut_tag(pattern) matches Some((tag, cut)) ==> cut.len() > 0 && replace_all(
            pattern,
            cut,
            Seq::<char>::empty(),
        ).len() < pattern.len(),
{
    if let Some((tag, cut)) = cut_tag(pattern) {
        let s = str_find(pattern, "$("@)->0;
        let e = str_find(pattern, ")"@)->0;
        let i2 = char_at_byte(pattern, s + 2)->0;
        let j = char_at_byte(pattern, e)->0;
        if e < s + 2 {
            lemma_char_at_byte_order(pattern, e, s + 2);
        }
        lemma_char_at_byte_order(pattern, s, e + 1);
        let i = char_at_byte(pattern, s)->0;
        let j1 = char_at_byte(pattern, e + 1)->0;
        assert(cut == pattern.subrange(i, j1));
        assert(occurs_at(pattern, cut, i));
        lemma_replace_shrinks(pattern, cut, i);
    }
}

/// The updates for every `$(tag)` of a pattern, taken out one after the
/// other; `None` when a `$(` has no tag that can be cut.
pub open spec fn tag_updates(pattern: Seq<char>) -> Option<Seq<char>>
    decreases pattern.len(),
{
    if !contains_seq(pattern, "$("@) {
        Some(Seq::<char>::empty())
    } else {
        match cut_tag(pattern) {
            None => None,
            Some((tag, cut)) => {
                proof {
                    lemma_cut_shrinks(pattern);
                }
                match tag_updates(replace_all(pattern, cut, Seq::<char>::empty())) {
                    Some(more) => Some(tag_update_sql(tag) + more),
                    None => None,
                }
            },
        }
    }
}

/// No `$` and no `)`: a piece of a pattern between its tags, or a tag.
pub open spec fn plain_text(s: Seq<char>) -> bool {
    forall|i: int| 0 <= i < s.len() ==> s[i] != '$' && s[i] != ')'
}

/// The pattern that starts with the text `first`, then, for each pair
/// `(tag, text)` of `rest` in order, has `$(tag)` followed by `text`.
pub open spec fn tagged_pattern(first: Seq<char>, rest: Seq<(Seq<char>, Seq<char>)>) -> Seq<char>
    decreases rest.len(),
{
    if rest.len() == 0 {
        first
    } else {
        first + "$("@ + rest[0].0 + ")"@ + tagged_pattern(rest[0].1, rest.drop_first())
    }
}

/// The tag updates for the tags of `rest`, in order.
pub open spec fn updates_for(rest: Seq<(Seq<char>, Seq<char>)>) -> Seq<char>
    decreases rest.len(),
{
    if rest.len() == 0 {
        Seq::<char>::empty()
    } else {
        tag_update_sql(rest[0].0) + updates_for(rest.drop_first())
    }
}

/// Taking out a text that starts with `$` passes over a text without `$`.
proof fn lemma_replace_passes(a: Seq<char>, x: Seq<char>, cut: Seq<char>)
    requires
        cut.len() > 0,
        cut[0] == '$',
        forall|i: int| 0 <= i < a.len() ==> a[i] != '$',
    ensures
        replace_all(a + x, cut, Seq::<char>::empty()) == a + replace_all(x, cut, Seq::<char>::empty()),
    decreases a.len(),
{
    if a.len() == 0 {
        assert(a + x =~= x);
        assert(a + replace_all(x, cut, Seq::<char>::empty()) =~= replace_all(x, cut, Seq::<char>::empty()));
    } else {
        let s = a + x;
        assert(s[0] == a[0]);
        assert(!cut.is_prefix_of(s)) by {
            if cut.is_prefix_of(s) {
                assert(cut[0] == s[0]);
            }
        }
        assert(s.drop_first() =~= a.drop_first() + x);
        lemma_replace_passes(a.drop_first(), x, cut);
        assert(seq![a[0]] + (a.drop_first() + replace_all(x, cut, Seq::<char>::empty())) =~= a + replace_all(
            x,
            cut,
            Seq::<char>::empty(),
        ));
    }
}

/// `$(t)` does not start `$(u)` followed by anything, for two different
/// tags without `)`.
proof fn lemma_other_tag_not_prefix(t: Seq<char>, u: Seq<char>, tail: Seq<char>)
    requires
        t != u,
        plain_text(t),
        plain_text(u),
    ensures
        !("$("@ + t + ")"@).is_prefix_of("$("@ + u + ")"@ + tail),
{
    reveal_strlit("$(");
    reveal_strlit(")");
    let c = "$("@ + t + ")"@;
    let x = "$("@ + u + ")"@ + tail;
    if c.is_prefix_of(x) {
        if t.len() == u.len() {
            assert forall|i: int| 0 <= i < t.len() implies t[i] == u[i] by {
                assert(c[2 + i] == x[2 + i]);
            }
            assert(t =~= u);
        } else if t.len() < u.len() {
            let k: int = 2 + t.len() as int;
            assert(c[k] == x[k]);
            assert(x[k] == u[t.len() as int]);
        } else {
            let k: int = 2 + u.len() as int;
            assert(c[k] == x[k]);
            assert(c[k] == t[u.len() as int]);
        }
    }
}


/// Every tag and every text of `rest` is plain.
pub open spec fn plain_parts(rest: Seq<(Seq<char>, Seq<char>)>) -> bool {
    forall|i: int| 0 <= i < rest.len() ==> plain_text(#[trigger] rest[i].0) && plain_text(rest[i].1)
}

/// Taking out `$(t)` leaves a pattern whose tags all differ from `t` as it is.
proof fn lemma_replace_absent(first: Seq<char>, rest: Seq<(Seq<char>, Seq<char>)>, t: Seq<char>)
    requires
        plain_text(first),
        plain_text(t),
        plain_parts(rest),
        forall|i: int| 0 <= i < rest.len() ==> #[trigger] rest[i].0 != t,
    ensures
        replace_all(tagged_pattern(first, rest), "$("@ + t + ")"@, Seq::<char>::empty())
            == tagged_pattern(first, rest),
    decreases rest.len(),
{
    reveal_strlit("$(");
    reveal_strlit(")");
    let cut = "$("@ + t + ")"@;
    let e = Seq::<char>::empty();
    assert(cut[0] == '$');
    if rest.len() == 0 {
        lemma_replace_passes(first, e, cut);
        assert(first + e =~= first);
        assert(first + replace_all(e, cut, e) =~= first);
    } else {
        let u = rest[0].0;
        let next = rest.drop_first();
        assert(plain_text(u) && plain_text(rest[0].1));
        assert(plain_parts(next)) by {
            assert forall|i: int| 0 <= i < next.len() implies plain_text(#[trigger] next[i].0) && plain_text(
                next[i].1,
            ) by {
                assert(next[i] == rest[i + 1]);
            }
        }
        assert forall|i: int| 0 <= i < next.len() implies #[trigger] next[i].0 != t by {
            assert(next[i] == rest[i + 1]);
        }
        let tail = tagged_pattern(rest[0].1, next);
        lemma_replace_absent(rest[0].1, next, t);
        let x = "$("@ + u + ")"@ + tail;
        assert(tagged_pattern(first, rest) =~= first + x);
        lemma_replace_passes(first, x, cut);
        lemma_other_tag_not_prefix(t, u, tail);
        let inner = "("@ + u + ")"@;
        reveal_strlit("(");
        assert(x.drop_first() =~= inner + tail);
        assert forall|i: int| 0 <= i < inner.len() implies inner[i] != '$' by {
            reveal_strlit("(");
            if 1 <= i < inner.len() - 1 {
                assert(inner[i] == u[i - 1]);
            }
        }
        lemma_replace_passes(inner, tail, cut);
        assert(x[0] == '$');
        assert(replace_all(x, cut, e) == seq![x[0]] + replace_all(x.drop_first(), cut, e));
        assert(seq![x[0]] + (inner + tail) =~= x);
    }
}

/// In `a + $(t) + tail`, with `a` and `t` plain, the first `$(tag)` is
/// `$(t)`.
proof fn lemma_cut_at(a: Seq<char>, t: Seq<char>, tail: Seq<char>)
    requires
        plain_text(a),
        plain_text(t),
    ensures
        contains_seq(a + "$("@ + t + ")"@ + tail, "$("@),
        cut_tag(a + "$("@ + t + ")"@ + tail) == Some((t, "$("@ + t + ")"@)),
{
    reveal_strlit("$(");
    reveal_strlit(")");
    let p = a + "$("@ + t + ")"@ + tail;
    let k = a.len() as int;
    let m = k + 2 + t.len() as int;
    assert(p[k] == '$' && p[k + 1] == '(' && p[m] == ')');
    assert forall|i: int| 0 <= i < t.len() implies p[k + 2 + i] == t[i] by {}
    assert(occurs_at(p, "$("@, k)) by {
        assert(p.subrange(k, k + 2) =~= "$("@);
    }
    assert forall|j: int| 0 <= j < k implies !occurs_at(p, "$("@, j) by {
        if occurs_at(p, "$("@, j) {
            assert(p.subrange(j, j + 2)[0] == p[j]);
            assert(p[j] == a[j]);
        }
    }
    lemma_first_from_exact(p, "$("@, 0, k);
    assert forall|j: int| 0 <= j < m implies p[j] != ')' by {
        if j < k {
            assert(p[j] == a[j]);
        } else if j >= k + 2 {
            assert(p[j] == t[j - k - 2]);
        }
    }
    lemma_find_first_char(p, ')', m);
    assert(seq![')'] =~= ")"@);
    lemma_char_width('$');
    lemma_char_width('(');
    lemma_char_width(')');
    lemma_offset_step(p, k);
    lemma_offset_step(p, k + 1);
    lemma_offset_step(p, m);
    lemma_get_exact(p, k + 2, m);
    lemma_get_exact(p, k, m + 1);
    assert(p.subrange(k + 2, m) =~= t);
    assert(p.subrange(k, m + 1) =~= "$("@ + t + ")"@);
}


/// The statements that give every unlocked file its new name under
/// `pattern`: empty when the pattern asks for nothing, `None` when a `$(`
/// in it has no tag that can be cut.
pub open spec fn rename_sql(pattern: Seq<char>) -> Option<Seq<char>> {
    match tag_updates(pattern) {
        None => None,
        Some(updates) => {
            let cmd = rename_head(pattern) + updates;
            Some(
                if cmd.len() == 0 {
                    cmd
                } else {
                    cmd + CLEAN_NAMES_SQL@
                },
            )
        },
    }
}

/// Every renaming that does anything ends by cleaning the new names of the
/// characters that a file name cannot hold.
pub proof fn law_rename_ends_clean(pattern: Seq<char>)
    ensures
        rename_sql(pattern) matches Some(sql) ==> sql.len() == 0 || CLEAN_NAMES_SQL@.is_suffix_of(sql),
{
    if let Some(sql) = rename_sql(pattern) {
        if sql.len() > 0 {
            let cmd = rename_head(pattern) + tag_updates(pattern)->0;
            assert(sql == cmd + CLEAN_NAMES_SQL@);
            assert(sql.subrange(sql.len() - CLEAN_NAMES_SQL@.len(), sql.len() as int) =~= CLEAN_NAMES_SQL@);
        }
    }
}

/// A pattern of `strftime` codes without a `$(` formats every unlocked
/// file's shooting date with it, then cleans the names.
pub proof fn law_date_pattern(pattern: Seq<char>)
    requires
        contains_seq(pattern, "%"@),
        !contains_seq(pattern, "$("@),
    ensures
        rename_sql(pattern) == Some(
            STRFTIME_SQL_HEAD@ + pattern + STRFTIME_SQL_TAIL@ + CLEAN_NAMES_SQL@,
        ),
{
    let head = STRFTIME_SQL_HEAD@ + pattern + STRFTIME_SQL_TAIL@;
    assert(head + Seq::<char>::empty() =~= head);
    assert(head.len() > 0) by {
        reveal_strlit("\n            UPDATE files\n            SET new_file_name = new_name\n          \n            FROM\n          \n          (  \n            SELECT\n              CASE\n                WHEN locked = 0 THEN\n                  STRFTIME('");
    }
}

/// No two tags of `rest` are the same.
pub open spec fn distinct_tags(rest: Seq<(Seq<char>, Seq<char>)>) -> bool {
    forall|i: int, j: int| 0 <= i < j < rest.len() ==> #[trigger] rest[i].0 != #[trigger] rest[j].0
}

/// What holds of the first pair of `rest` holds of the others.
proof fn lemma_rest_after_first(rest: Seq<(Seq<char>, Seq<char>)>)
    requires
        rest.len() > 0,
        plain_parts(rest),
        distinct_tags(rest),
    ensures
        plain_text(rest[0].0),
        plain_text(rest[0].1),
        plain_parts(rest.drop_first()),
        distinct_tags(rest.drop_first()),
        forall|i: int| 0 <= i < rest.drop_first().len() ==> #[trigger] rest.drop_first()[i].0 != rest[0].0,
{
    let next = rest.drop_first();
    assert(plain_text(rest[0].0) && plain_text(rest[0].1));
    assert forall|i: int| 0 <= i < next.len() implies plain_text(#[trigger] next[i].0) && plain_text(
        next[i].1,
    ) by {
        assert(next[i] == rest[i + 1]);
    }
    assert forall|i: int, j: int| 0 <= i < j < next.len() implies #[trigger] next[i].0
        != #[trigger] next[j].0 by {
        assert(next[i] == rest[i + 1] && next[j] == rest[j + 1]);
    }
    assert forall|i: int| 0 <= i < next.len() implies #[trigger] next[i].0 != rest[0].0 by {
        assert(next[i] == rest[i + 1]);
        assert(rest[0].0 != rest[i + 1].0);
    }
}

/// A text put before a pattern joins its first text.
proof fn lemma_join_first(a: Seq<char>, first: Seq<char>, rest: Seq<(Seq<char>, Seq<char>)>)
    requires
        plain_text(a),
        plain_text(first),
    ensures
        plain_text(a + first),
        a + tagged_pattern(first, rest) == tagged_pattern(a + first, rest),
{
    let joined = a + first;
    assert forall|i: int| 0 <= i < joined.len() implies joined[i] != '$' && joined[i] != ')' by {
        if i < a.len() {
            assert(joined[i] == a[i]);
        } else {
            assert(joined[i] == first[i - a.len()]);
        }
    }
    if rest.len() > 0 {
        let more = "$("@ + rest[0].0 + ")"@ + tagged_pattern(rest[0].1, rest.drop_first());
        assert(tagged_pattern(first, rest) == first + "$("@ + rest[0].0 + ")"@ + tagged_pattern(
            rest[0].1,
            rest.drop_first(),
        ));
        assert(tagged_pattern(first, rest) =~= first + more);
        assert(tagged_pattern(joined, rest) =~= joined + more);
        assert(a + (first + more) =~= joined + more);
    } else {
        assert(a + first == joined);
    }
}

/// Taking the first `$(tag)` out of a pattern of plain texts and distinct
/// plain tags joins the two texts around it.
proof fn lemma_take_first_tag(first: Seq<char>, rest: Seq<(Seq<char>, Seq<char>)>)
    requires
        rest.len() > 0,
        plain_text(first),
        plain_parts(rest),
        distinct_tags(rest),
    ensures
        contains_seq(tagged_pattern(first, rest), "$("@),
        cut_tag(tagged_pattern(first, rest)) == Some((rest[0].0, "$("@ + rest[0].0 + ")"@)),
        replace_all(tagged_pattern(first, rest), "$("@ + rest[0].0 + ")"@, Seq::<char>::empty())
            == tagged_pattern(first + rest[0].1, rest.drop_first()),
{
    reveal_strlit("$(");
    reveal_strlit(")");
    let e = Seq::<char>::empty();
    lemma_rest_after_first(rest);
    let t = rest[0].0;
    let l1 = rest[0].1;
    let next = rest.drop_first();
    let tail = tagged_pattern(l1, next);
    let cut = "$("@ + t + ")"@;
    let p = tagged_pattern(first, rest);
    assert(p == first + "$("@ + t + ")"@ + tail);
    lemma_cut_at(first, t, tail);
    assert(cut[0] == '$');
    assert(p =~= first + (cut + tail));
    lemma_replace_passes(first, cut + tail, cut);
    assert(cut.is_prefix_of(cut + tail));
    assert((cut + tail).skip(cut.len() as int) =~= tail);
    assert(replace_all(cut + tail, cut, e) == e + replace_all(tail, cut, e));
    lemma_replace_absent(l1, next, t);
    assert(e + tail =~= tail);
    lemma_join_first(first, l1, next);
}

/// The updates for a pattern of plain texts and distinct plain tags are
/// the updates for its tags, one each, in order.
proof fn lemma_tag_updates_of(first: Seq<char>, rest: Seq<(Seq<char>, Seq<char>)>)
    requires
        plain_text(first),
        plain_parts(rest),
        distinct_tags(rest),
    ensures
        tag_updates(tagged_pattern(first, rest)) == Some(updates_for(rest)),
    decreases rest.len(),
{
    reveal_strlit("$(");
    if rest.len() == 0 {
        assert(!contains_seq(first, "$("@)) by {
            assert forall|j: int| !occurs_at(first, "$("@, j) by {
                if occurs_at(first, "$("@, j) {
                    assert(first.subrange(j, j + 2)[0] == first[j]);
                }
            }
        }
    } else {
        let p = tagged_pattern(first, rest);
        lemma_rest_after_first(rest);
        lemma_take_first_tag(first, rest);
        lemma_join_first(first, rest[0].1, rest.drop_first());
        lemma_tag_updates_of(first + rest[0].1, rest.drop_first());
        lemma_cut_shrinks(p);
    }
}

/// A pattern of texts and tags, each tag written once as `$(tag)`:
/// the renaming sets the names from the whole pattern (its `strftime`
/// codes when it holds a `%`), then puts in the value of every tag, one
/// update for each, in the order the tags come, then cleans the names. The
/// texts and tags hold no `$` and no `)`.
pub proof fn law_every_tag_is_filled_in(first: Seq<char>, rest: Seq<(Seq<char>, Seq<char>)>)
    requires
        rest.len() > 0,
        plain_text(first),
        plain_parts(rest),
        distinct_tags(rest),
    ensures
        rename_sql(tagged_pattern(first, rest)) == Some(
            (if contains_seq(tagged_pattern(first, rest), "%"@) {
                STRFTIME_SQL_HEAD@ + tagged_pattern(first, rest) + STRFTIME_SQL_TAIL@
            } else {
                PATTERN_SQL_HEAD@ + tagged_pattern(first, rest) + PATTERN_SQL_TAIL@
            }) + updates_for(rest) + CLEAN_NAMES_SQL@,
        ),
{
    let p = tagged_pattern(first, rest);
    assert(plain_text(rest[0].0));
    lemma_cut_at(first, rest[0].0, tagged_pattern(rest[0].1, rest.drop_first()));
    assert(p == first + "$("@ + rest[0].0 + ")"@ + tagged_pattern(rest[0].1, rest.drop_first()));
    lemma_tag_updates_of(first, rest);
    let cmd = rename_head(p) + updates_for(rest);
    assert(cmd.len() > 0) by {
        reveal_strlit("$(");
        assert(p.len() > 0);
    }
}


/// A pattern with neither a `strftime` code nor a `$(` renames nothing:
/// no SQL at all.
pub proof fn law_plain_pattern_renames_nothing(pattern: Seq<char>)
    requires
        !contains_seq(pattern, "%"@),
        !contains_seq(pattern, "$("@),
    ensures
        rename_sql(pattern) == Some(Seq::<char>::empty()),
{
    assert(Seq::<char>::empty() + Seq::<char>::empty() =~= Seq::<char>::empty());
}

/// The pattern `$(tag)`, for a tag without `)`, `$` or `%`: it holds a
/// `$(` and no `%`, and its first `$(tag)` is all of it.
proof fn lemma_single_tag_cut(tag: Seq<char>)
    requires
        forall|i: int| 0 <= i < tag.len() ==> tag[i] != ')' && tag[i] != '$' && tag[i] != '%',
    ensures
        contains_seq("$("@ + tag + ")"@, "$("@),
        !contains_seq("$("@ + tag + ")"@, "%"@),
        cut_tag("$("@ + tag + ")"@) == Some((tag, "$("@ + tag + ")"@)),
{
    reveal_strlit("$(");
    reveal_strlit(")");
    reveal_strlit("%");
    let p = "$("@ + tag + ")"@;
    let n = p.len() as int;
    assert(p[0] == '$' && p[1] == '(' && p[n - 1] == ')');
    assert forall|i: int| 2 <= i < n - 1 implies p[i] == tag[i - 2] by {}
    assert forall|i: int| !occurs_at(p, "%"@, i) by {
        if occurs_at(p, "%"@, i) {
            assert(p.subrange(i, i + 1)[0] == p[i]);
            if 2 <= i < n - 1 {
                assert(p[i] == tag[i - 2]);
            }
        }
    }
    assert(occurs_at(p, "$("@, 0)) by {
        assert(p.subrange(0, 2) =~= "$("@);
    }
    lemma_first_from_exact(p, "$("@, 0, 0);
    assert forall|j: int| 0 <= j < n - 1 implies p[j] != ')' by {
        if 2 <= j {
            assert(p[j] == tag[j - 2]);
        }
    }
    lemma_find_first_char(p, ')', n - 1);
    assert(seq![')'] =~= ")"@);
    lemma_ascii_prefix_offsets(p, 2);
    lemma_last_ascii_offset(p);
    lemma_byte_len_end(p);
    let e = byte_offset(p, n - 1);
    assert(str_find(p, "$("@) == Some(0int));
    assert(str_find(p, ")"@) == Some(e));
    lemma_get_exact(p, 2, n - 1);
    lemma_get_exact(p, 0, n);
    assert(p.subrange(2, n - 1) =~= tag);
    assert(p.subrange(0, n) =~= p);
}

/// A pattern that is a single `$(tag)` gives every unlocked file the value
/// of that EXIF tag as its new name, then cleans the names; the tag holds no
/// `)`, `$` or `%`.
pub proof fn law_single_tag_pattern(tag: Seq<char>)
    requires
        forall|i: int| 0 <= i < tag.len() ==> tag[i] != ')' && tag[i] != '$' && tag[i] != '%',
    ensures
        rename_sql("$("@ + tag + ")"@) == Some(
            PATTERN_SQL_HEAD@ + ("$("@ + tag + ")"@) + PATTERN_SQL_TAIL@ + tag_update_sql(tag)
                + CLEAN_NAMES_SQL@,
        ),
{
    reveal_strlit("$(");
    reveal_strlit(")");
    let p = "$("@ + tag + ")"@;
    let n = p.len() as int;
    lemma_single_tag_cut(tag);
    assert(p.is_prefix_of(p));
    assert(p.skip(n) =~= Seq::<char>::empty());
    assert(replace_all(p, p, Seq::<char>::empty()) =~= Seq::<char>::empty()) by {
        reveal_with_fuel(replace_all, 2);
    }
    assert(!contains_seq(Seq::<char>::empty(), "$("@));
    assert(tag_updates(Seq::<char>::empty()) == Some(Seq::<char>::empty()));
    assert(tag_updates(p) == Some(tag_update_sql(tag) + Seq::<char>::empty()));
    assert(tag_update_sql(tag) + Seq::<char>::empty() =~= tag_update_sql(tag));
    let head = PATTERN_SQL_HEAD@ + p + PATTERN_SQL_TAIL@;
    assert(rename_head(p) == head);
    assert((head + tag_update_sql(tag)).len() > 0);
}

fn tag_update_text(v: &mut Vec<char>, tag: &Vec<char>)
    ensures
        final(v)@ == old(v)@ + tag_update_sql(tag@),
{
    extend_str(v, TAG_SQL_0);
    extend_chars(v, tag);
    extend_str(v, TAG_SQL_1);
    extend_chars(v, tag);
    extend_str(v, TAG_SQL_2);
    extend_chars(v, tag);
    extend_str(v, TAG_SQL_3);
    assert(final(v)@ =~= old(v)@ + tag_update_sql(tag@));
}

/// The statements that rename the unlocked files under `pattern`; `None`
/// when a `$(` in it has no tag that can be cut.
pub fn rename_command(pattern: &str) -> (r: Option<String>)
    ensures
        match r {
            Some(s) => rename_sql(pattern@) == Some(s@),
            None => rename_sql(pattern@) is None,
        },
{
    let orig = str_chars(pattern);
    let mut cmd: Vec<char> = if contains_chars(&orig, &str_chars("%")) {
        let mut v = str_chars(STRFTIME_SQL_HEAD);
        extend_str(&mut v, pattern);
        extend_str(&mut v, STRFTIME_SQL_TAIL);
        v
    } else if contains_chars(&orig, &str_chars("$(")) {
        let mut v = str_chars(PATTERN_SQL_HEAD);
        extend_str(&mut v, pattern);
        extend_str(&mut v, PATTERN_SQL_TAIL);
        v
    } else {
        Vec::new()
    };
    let ghost head = cmd@;
    assert(head == rename_head(pattern@));
    let mut pat: Vec<char> = str_chars(pattern);
    let ghost mut done: Seq<char> = Seq::empty();
    proof {
        reveal_strlit("$(");
        assert(tag_updates(pattern@) == match tag_updates(pat@) {
            Some(m) => Some(done + m),
            None => None::<Seq<char>>,
        }) by {
            assert(done + Seq::<char>::empty() =~= Seq::<char>::empty());
            if let Some(m) = tag_updates(pat@) {
                assert(done + m =~= m);
            }
        }
    }
    while contains_chars(&pat, &str_chars("$("))
        invariant
            cmd@ == head + done,
            tag_updates(pattern@) == match tag_updates(pat@) {
                Some(m) => Some(done + m),
                None => None::<Seq<char>>,
            },
        decreases pat@.len(),
    {
        let text = chars_to_string(&pat);
        let (pc, n) = str_text(text.as_str());
        proof {
            lemma_contains_find(pc@, "$("@);
            lemma_first_from_found(pc@, "$("@, 0);
        }
        let s = match find_offset(&pc, n, "$(") {
            Some(s) => s,
            None => return None,
        };
        let e = match find_offset(&pc, n, ")") {
            Some(e) => e,
            None => return None,
        };
        let tag = match get_span(&pc, n, s as i128 + 2, e as i128) {
            Some(t) => t,
            None => return None,
        };
        let cut = match get_span(&pc, n, s as i128, e as i128 + 1) {
            Some(c) => c,
            None => return None,
        };
        proof {
            lemma_cut_shrinks(pc@);
        }
        let ghost old_pat = pat@;
        tag_update_text(&mut cmd, &tag);
        pat = replace_chars(&pc, &cut, &Vec::new());
        proof {
            let rest = tag_updates(pat@);
            assert(tag_updates(old_pat) == match rest {
                Some(more) => Some(tag_update_sql(tag@) + more),
                None => None::<Seq<char>>,
            });
            if let Some(more) = rest {
                assert(done + tag_update_sql(tag@) + more =~= done + (tag_update_sql(tag@) + more));
            }
            done = done + tag_update_sql(tag@);
        }
    }
    proof {
        assert(done + Seq::<char>::empty() =~= done);
    }
    if cmd.len() == 0 {
        Some(String::new())
    } else {
        extend_str(&mut cmd, CLEAN_NAMES_SQL);
        Some(chars_to_string(&cmd))
    }
}

/// Gives every unlocked file its new name under `pattern`: nothing is sent
/// when the pattern asks for nothing. Every `$(` of the pattern must be
/// followed by a `)` that a tag can be cut out with (see [`rename_command`],
/// which tells).
pub fn prerename_files(link: &mut DbLink, pattern: &str) -> (r: Result<(), DbError>)
    requires
        rename_sql(pattern@) is Some,
    ensures
        rename_sql(pattern@)->0.len() == 0 ==> final(link).exchanges() == old(link).exchanges() && r
            == Ok::<(), DbError>(()),
        rename_sql(pattern@)->0.len() > 0 ==> {
            &&& final(link).exchanges() == old(link).exchanges().push(
                (quick_sql_command(rename_sql(pattern@)->0), final(link).last_reply()),
            )
            &&& r == answered(final(link).last_reply())
        },
{
    let cmd = match rename_command(pattern) {
        Some(c) => c,
        None => return Ok(()),
    };
    if cmd.as_str().is_empty() {
        return Ok(());
    }
    QuickNonReturningSqlCommand(link, cmd)
}

} // verus!
