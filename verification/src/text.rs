//! Text as sequences of `char`, with the UTF-8 byte offsets that `str`
//! methods such as `get`, `find` and `len` speak in.

use vstd::prelude::*;
use vstd::utf8::*;

verus! {

broadcast use vstd::utf8::char_is_scalar;

/// Number of UTF-8 bytes of one character.
pub open spec fn char_width(c: char) -> nat {
    encode_scalar(c as u32).len()
}

/// Byte length of the UTF-8 encoding of `s`.
pub open spec fn byte_len(s: Seq<char>) -> nat {
    encode_utf8(s).len()
}

/// Byte offset at which the character with index `k` starts.
pub open spec fn byte_offset(s: Seq<char>, k: int) -> int {
    byte_len(s.take(k)) as int
}

/// A character takes one to four bytes, one exactly when it is ASCII.
pub proof fn lemma_char_width(c: char)
    ensures
        1 <= char_width(c) <= 4,
        char_width(c) == 1 <==> (c as u32) < 0x80,
{
}

/// The encoding of two texts one after the other.
pub proof fn lemma_encode_concat(a: Seq<char>, b: Seq<char>)
    ensures
        encode_utf8(a + b) == encode_utf8(a) + encode_utf8(b),
    decreases a.len(),
{
    if a.len() == 0 {
        assert(a + b =~= b);
    } else {
        assert((a + b).drop_first() =~= a.drop_first() + b);
        lemma_encode_concat(a.drop_first(), b);
    }
}

/// The offset of the next character.
pub proof fn lemma_offset_step(s: Seq<char>, k: int)
    requires
        0 <= k < s.len(),
    ensures
        byte_offset(s, k + 1) == byte_offset(s, k) + char_width(s[k]),
{
    assert(s.take(k + 1) =~= s.take(k) + seq![s[k]]);
    lemma_encode_concat(s.take(k), seq![s[k]]);
    lemma_encode_single(s[k]);
}

/// The encoding of one character.
pub proof fn lemma_encode_single(c: char)
    ensures
        encode_utf8(seq![c]) == encode_scalar(c as u32),
{
    let one = seq![c];
    assert(one.drop_first() =~= Seq::<char>::empty());
    assert(encode_utf8(one.drop_first()) =~= Seq::<u8>::empty());
    assert(encode_utf8(one) == encode_scalar(one[0] as u32) + encode_utf8(one.drop_first()));
    assert(encode_utf8(one) =~= encode_scalar(c as u32));
}

/// Offsets at the start and at the end of a text.
pub proof fn lemma_offset_ends(s: Seq<char>)
    ensures
        byte_offset(s, 0) == 0,
        byte_offset(s, s.len() as int) == byte_len(s),
{
    assert(s.take(0) =~= Seq::<char>::empty());
    assert(s.take(s.len() as int) =~= s);
}

/// Offsets grow with the character index.
pub proof fn lemma_offset_monotonic(s: Seq<char>, i: int, j: int)
    requires
        0 <= i < j <= s.len(),
    ensures
        byte_offset(s, i) < byte_offset(s, j),
    decreases j - i,
{
    lemma_offset_step(s, j - 1);
    lemma_char_width(s[j - 1]);
    if i < j - 1 {
        lemma_offset_monotonic(s, i, j - 1);
    }
}

/// An offset lies within the text's bytes and is at least its index.
pub proof fn lemma_offset_bounds(s: Seq<char>, k: int)
    requires
        0 <= k <= s.len(),
    ensures
        0 <= byte_offset(s, k) <= byte_len(s),
        k <= byte_offset(s, k),
    decreases k,
{
    lemma_offset_ends(s);
    if k < s.len() {
        lemma_offset_monotonic(s, k, s.len() as int);
    }
    if k > 0 {
        lemma_offset_bounds(s, k - 1);
        lemma_offset_step(s, k - 1);
        lemma_char_width(s[k - 1]);
    }
}

/// Index of the character that starts at byte offset `b` (or `s.len()` for
/// the end), when `b` falls on a character boundary.
pub open spec fn char_at_byte(s: Seq<char>, b: int) -> Option<int> {
    if exists|k: int| 0 <= k <= s.len() && byte_offset(s, k) == b {
        Some(choose|k: int| 0 <= k <= s.len() && byte_offset(s, k) == b)
    } else {
        None
    }
}

/// The character index at a character's own offset.
pub proof fn lemma_char_at_byte_hit(s: Seq<char>, k: int)
    requires
        0 <= k <= s.len(),
    ensures
        char_at_byte(s, byte_offset(s, k)) == Some(k),
{
    let b = byte_offset(s, k);
    assert(0 <= k <= s.len() && byte_offset(s, k) == b);
    let c = choose|c: int| 0 <= c <= s.len() && byte_offset(s, c) == b;
    if c < k {
        lemma_offset_monotonic(s, c, k);
    } else if k < c {
        lemma_offset_monotonic(s, k, c);
    }
}

/// No character starts inside the bytes of another.
pub proof fn lemma_char_at_byte_miss(s: Seq<char>, k: int, b: int)
    requires
        0 <= k < s.len(),
        byte_offset(s, k) < b < byte_offset(s, k + 1),
    ensures
        char_at_byte(s, b) is None,
{
    if exists|c: int| 0 <= c <= s.len() && byte_offset(s, c) == b {
        let c = choose|c: int| 0 <= c <= s.len() && byte_offset(s, c) == b;
        if c <= k {
            if c < k {
                lemma_offset_monotonic(s, c, k);
            }
        } else {
            if k + 1 < c {
                lemma_offset_monotonic(s, k + 1, c);
            }
        }
    }
}

/// Byte width of a character as its UTF-8 encoding has it.
pub fn utf8_width(c: char) -> (w: usize)
    ensures
        w == char_width(c),
{
    let u = c as u32;
    if u < 0x80 {
        1
    } else if u < 0x800 {
        2
    } else if u < 0x10000 {
        3
    } else {
        4
    }
}

/// The characters of `s`.
pub fn str_chars(s: &str) -> (v: Vec<char>)
    ensures
        v@ == s@,
{
    let mut v: Vec<char> = Vec::new();
    for c in it: s.chars()
        invariant
            v@ == it.seq().take(it.index()),
    {
        v.push(c);
    }
    v
}

} // verus!

verus! {

/// An optional index read as a mathematical integer.
pub open spec fn opt_int(o: Option<usize>) -> Option<int> {
    match o {
        Some(x) => Some(x as int),
        None => None,
    }
}

/// Byte length of `s`, as `str::len` reports it.
pub fn byte_length(s: &Vec<char>) -> (n: usize)
    requires
        byte_len(s@) <= usize::MAX,
    ensures
        n == byte_len(s@),
{
    let mut k: usize = 0;
    let mut off: usize = 0;
    proof {
        lemma_offset_ends(s@);
    }
    while k < s.len()
        invariant
            k <= s.len(),
            off == byte_offset(s@, k as int),
            byte_len(s@) <= usize::MAX,
        decreases s.len() - k,
    {
        proof {
            lemma_offset_step(s@, k as int);
            lemma_offset_bounds(s@, k + 1);
        }
        off = off + utf8_width(s[k]);
        k = k + 1;
    }
    proof {
        lemma_offset_ends(s@);
    }
    off
}

/// Byte offset at which character `k` of `s` starts.
pub fn byte_offset_of(s: &Vec<char>, k: usize) -> (n: usize)
    requires
        k <= s.len(),
        byte_len(s@) <= usize::MAX,
    ensures
        n == byte_offset(s@, k as int),
        n <= byte_len(s@),
{
    let mut i: usize = 0;
    let mut off: usize = 0;
    proof {
        lemma_offset_ends(s@);
    }
    while i < k
        invariant
            i <= k <= s.len(),
            off == byte_offset(s@, i as int),
            byte_len(s@) <= usize::MAX,
        decreases k - i,
    {
        proof {
            lemma_offset_step(s@, i as int);
            lemma_offset_bounds(s@, i + 1);
        }
        off = off + utf8_width(s[i]);
        i = i + 1;
    }
    proof {
        lemma_offset_bounds(s@, k as int);
    }
    off
}

/// The character index that byte offset `b` starts, when `b` is a boundary.
pub fn char_index_at_byte(s: &Vec<char>, b: usize) -> (r: Option<usize>)
    ensures
        opt_int(r) == char_at_byte(s@, b as int),
{
    let mut k: usize = 0;
    let mut off: usize = 0;
    proof {
        lemma_offset_ends(s@);
    }
    while k < s.len()
        invariant
            k <= s.len(),
            off == byte_offset(s@, k as int),
            off <= b,
        decreases s.len() - k,
    {
        if off == b {
            proof {
                lemma_char_at_byte_hit(s@, k as int);
            }
            return Some(k);
        }
        let w = utf8_width(s[k]);
        proof {
            lemma_offset_step(s@, k as int);
        }
        if w > b - off {
            proof {
                lemma_char_at_byte_miss(s@, k as int, b as int);
            }
            return None;
        }
        off = off + w;
        k = k + 1;
    }
    if off == b {
        proof {
            lemma_char_at_byte_hit(s@, k as int);
        }
        Some(k)
    } else {
        proof {
            lemma_offset_ends(s@);
            assert forall|c: int| 0 <= c <= s@.len() implies byte_offset(s@, c) != b by {
                lemma_offset_bounds(s@, c);
            }
        }
        None
    }
}

/// What `str::get(from..to)` gives on a text with characters `s`.
pub open spec fn str_get(s: Seq<char>, from: int, to: int) -> Option<Seq<char>> {
    match (char_at_byte(s, from), char_at_byte(s, to)) {
        (Some(i), Some(j)) => if i <= j {
            Some(s.subrange(i, j))
        } else {
            None
        },
        _ => None,
    }
}

/// Copy of characters `i..j` of `s`.
pub fn slice_chars(s: &Vec<char>, i: usize, j: usize) -> (v: Vec<char>)
    requires
        i <= j <= s.len(),
    ensures
        v@ == s@.subrange(i as int, j as int),
{
    let mut v: Vec<char> = Vec::new();
    let mut k = i;
    while k < j
        invariant
            i <= k <= j <= s.len(),
            v@ == s@.subrange(i as int, k as int),
        decreases j - k,
    {
        v.push(s[k]);
        k = k + 1;
        assert(v@ =~= s@.subrange(i as int, k as int));
    }
    v
}

/// `str::get(from..to)`, with byte offsets.
pub fn get_bytes(s: &Vec<char>, from: usize, to: usize) -> (r: Option<Vec<char>>)
    ensures
        match r {
            Some(v) => str_get(s@, from as int, to as int) == Some(v@),
            None => str_get(s@, from as int, to as int) is None,
        },
{
    let i = char_index_at_byte(s, from);
    let j = char_index_at_byte(s, to);
    match (i, j) {
        (Some(i), Some(j)) => {
            if i <= j {
                Some(slice_chars(s, i, j))
            } else {
                None
            }
        },
        _ => None,
    }
}

} // verus!

verus! {

/// `p` occurs in `s` starting at character index `i`.
pub open spec fn occurs_at(s: Seq<char>, p: Seq<char>, i: int) -> bool {
    0 <= i && i + p.len() <= s.len() && s.subrange(i, i + p.len()) == p
}

/// Character index of the first occurrence of `p` in `s` at or after `i`.
pub open spec fn first_from(s: Seq<char>, p: Seq<char>, i: int) -> Option<int>
    decreases s.len() + 1 - i,
{
    if i < 0 || i + p.len() > s.len() {
        None
    } else if occurs_at(s, p, i) {
        Some(i)
    } else {
        first_from(s, p, i + 1)
    }
}

/// Character index of the last occurrence of `p` in `s` that starts before `i`.
pub open spec fn last_before(s: Seq<char>, p: Seq<char>, i: int) -> Option<int>
    decreases i,
{
    if i <= 0 {
        None
    } else if occurs_at(s, p, i - 1) {
        Some(i - 1)
    } else {
        last_before(s, p, i - 1)
    }
}

/// Character index of the first occurrence of `p` in `s`.
pub open spec fn find_first(s: Seq<char>, p: Seq<char>) -> Option<int> {
    first_from(s, p, 0)
}

/// Character index of the last occurrence of the non-empty pattern `p` in `s`.
pub open spec fn find_last(s: Seq<char>, p: Seq<char>) -> Option<int> {
    last_before(s, p, s.len() as int)
}

/// Byte offset that `str::find` reports for the non-empty pattern `p`.
pub open spec fn str_find(s: Seq<char>, p: Seq<char>) -> Option<int> {
    match find_first(s, p) {
        Some(k) => Some(byte_offset(s, k)),
        None => None,
    }
}

/// Byte offset that `str::rfind` reports for the non-empty pattern `p`.
pub open spec fn str_rfind(s: Seq<char>, p: Seq<char>) -> Option<int> {
    match find_last(s, p) {
        Some(k) => Some(byte_offset(s, k)),
        None => None,
    }
}

/// `s` contains `p` somewhere.
pub open spec fn contains_seq(s: Seq<char>, p: Seq<char>) -> bool {
    exists|i: int| occurs_at(s, p, i)
}

/// What the first occurrence from `i` on is.
pub proof fn lemma_first_from_found(s: Seq<char>, p: Seq<char>, i: int)
    requires
        0 <= i,
    ensures
        first_from(s, p, i) matches Some(k) ==> i <= k && occurs_at(s, p, k) && (forall|j: int|
            i <= j < k ==> !occurs_at(s, p, j)),
        first_from(s, p, i) is None ==> forall|j: int| i <= j ==> !occurs_at(s, p, j),
    decreases s.len() + 1 - i,
{
    if i + p.len() > s.len() {
    } else if occurs_at(s, p, i) {
    } else {
        lemma_first_from_found(s, p, i + 1);
    }
}

/// What the last occurrence before `i` is.
pub proof fn lemma_last_before_found(s: Seq<char>, p: Seq<char>, i: int)
    ensures
        last_before(s, p, i) matches Some(k) ==> 0 <= k < i && occurs_at(s, p, k) && (forall|j: int|
            k < j < i ==> !occurs_at(s, p, j)),
        last_before(s, p, i) is None ==> forall|j: int| 0 <= j < i ==> !occurs_at(s, p, j),
    decreases i,
{
    if i > 0 {
        lemma_last_before_found(s, p, i - 1);
    }
}

/// A text occurs exactly when it can be found.
pub proof fn lemma_contains_find(s: Seq<char>, p: Seq<char>)
    ensures
        contains_seq(s, p) <==> find_first(s, p) is Some,
{
    lemma_first_from_found(s, p, 0);
    if find_first(s, p) is Some {
        assert(occurs_at(s, p, find_first(s, p)->0));
    }
}

/// Whether `p` occurs in `s` at character index `i`.
pub fn matches_at(s: &Vec<char>, p: &Vec<char>, i: usize) -> (r: bool)
    ensures
        r == occurs_at(s@, p@, i as int),
{
    if i > s.len() || p.len() > s.len() - i {
        return false;
    }
    let mut k: usize = 0;
    while k < p.len()
        invariant
            i + p.len() <= s.len(),
            k <= p.len(),
            forall|j: int| 0 <= j < k ==> s@[i + j] == p@[j],
        decreases p.len() - k,
    {
        if s[i + k] != p[k] {
            assert(s@.subrange(i as int, i + p.len())[k as int] != p@[k as int]);
            return false;
        }
        k = k + 1;
    }
    assert(s@.subrange(i as int, i + p.len()) =~= p@);
    true
}

/// Character index of the first occurrence of `p` in `s`.
pub fn find_chars(s: &Vec<char>, p: &Vec<char>) -> (r: Option<usize>)
    ensures
        opt_int(r) == find_first(s@, p@),
{
    if p.len() > s.len() {
        return None;
    }
    let last = s.len() - p.len();
    let mut i: usize = 0;
    loop
        invariant
            last == s.len() - p.len(),
            i <= last,
            find_first(s@, p@) == first_from(s@, p@, i as int),
        decreases last - i,
    {
        if matches_at(s, p, i) {
            return Some(i);
        }
        if i == last {
            assert(first_from(s@, p@, i + 1) is None);
            return None;
        }
        i = i + 1;
    }
}

/// Character index of the last occurrence of the non-empty pattern `p` in `s`.
pub fn rfind_chars(s: &Vec<char>, p: &Vec<char>) -> (r: Option<usize>)
    ensures
        opt_int(r) == find_last(s@, p@),
{
    let mut i: usize = s.len();
    while i > 0
        invariant
            i <= s.len(),
            find_last(s@, p@) == last_before(s@, p@, i as int),
        decreases i,
    {
        if matches_at(s, p, i - 1) {
            return Some(i - 1);
        }
        i = i - 1;
    }
    None
}

/// `s` starts with `p`.
pub fn starts_with(s: &Vec<char>, p: &Vec<char>) -> (r: bool)
    ensures
        r == p@.is_prefix_of(s@),
{
    let r = matches_at(s, p, 0);
    proof {
        if r {
            assert(s@.subrange(0, p@.len() as int) == p@);
            assert forall|j: int| 0 <= j < p@.len() implies p@[j] == s@[j] by {
                assert(s@.subrange(0, p@.len() as int)[j] == s@[j]);
            }
        }
        if p@.is_prefix_of(s@) {
            assert(s@.subrange(0, p@.len() as int) =~= p@);
        }
    }
    r
}

/// `s` contains `p`.
pub fn contains_chars(s: &Vec<char>, p: &Vec<char>) -> (r: bool)
    ensures
        r == contains_seq(s@, p@),
{
    proof {
        lemma_contains_find(s@, p@);
    }
    find_chars(s, p).is_some()
}

} // verus!

verus! {

/// `str::replace(p, r)`: every non-overlapping occurrence of the non-empty
/// pattern `p`, taken from the left, replaced by `r`.
pub open spec fn replace_all(s: Seq<char>, p: Seq<char>, r: Seq<char>) -> Seq<char>
    decreases s.len(),
{
    if s.len() == 0 || p.len() == 0 {
        s
    } else if p.is_prefix_of(s) {
        r + replace_all(s.skip(p.len() as int), p, r)
    } else {
        seq![s[0]] + replace_all(s.drop_first(), p, r)
    }
}

/// A text is a prefix of the rest from `i` exactly when it occurs at `i`.
pub proof fn lemma_prefix_occurs(s: Seq<char>, p: Seq<char>, i: int)
    requires
        0 <= i <= s.len(),
    ensures
        p.is_prefix_of(s.skip(i)) <==> occurs_at(s, p, i),
{
    if p.is_prefix_of(s.skip(i)) {
        assert(s.subrange(i, i + p.len()) =~= p);
    }
    if occurs_at(s, p, i) {
        assert forall|j: int| 0 <= j < p.len() implies p[j] == s.skip(i)[j] by {
            assert(s.subrange(i, i + p.len())[j] == s[i + j]);
        }
    }
}

/// Whether two texts are the same.
pub fn same_text(a: &str, b: &str) -> (r: bool)
    ensures
        r == (a@ == b@),
{
    let x = str_chars(a);
    let y = str_chars(b);
    if x.len() != y.len() {
        return false;
    }
    let mut i: usize = 0;
    while i < x.len()
        invariant
            x.len() == y.len(),
            x@ == a@,
            y@ == b@,
            i <= x.len(),
            forall|j: int| 0 <= j < i ==> x@[j] == y@[j],
        decreases x.len() - i,
    {
        if x[i] != y[i] {
            assert(x@[i as int] != y@[i as int]);
            return false;
        }
        i = i + 1;
    }
    assert(x@ =~= y@);
    true
}

/// Appends the characters of `t` to `v`.
pub fn extend_chars(v: &mut Vec<char>, t: &Vec<char>)
    ensures
        final(v)@ == old(v)@ + t@,
{
    let ghost start = v@;
    let mut k: usize = 0;
    while k < t.len()
        invariant
            k <= t.len(),
            v@ == start + t@.take(k as int),
        decreases t.len() - k,
    {
        v.push(t[k]);
        k = k + 1;
        assert(v@ =~= start + t@.take(k as int));
    }
    assert(t@.take(t@.len() as int) =~= t@);
}

/// Appends the characters of the string `t` to `v`.
pub fn extend_str(v: &mut Vec<char>, t: &str)
    ensures
        final(v)@ == old(v)@ + t@,
{
    let c = str_chars(t);
    extend_chars(v, &c);
}

/// The characters of `s` with every occurrence of the non-empty `p` replaced by `r`.
pub fn replace_chars(s: &Vec<char>, p: &Vec<char>, r: &Vec<char>) -> (out: Vec<char>)
    requires
        p.len() > 0,
    ensures
        out@ == replace_all(s@, p@, r@),
{
    let mut out: Vec<char> = Vec::new();
    let mut i: usize = 0;
    assert(s@.skip(0) =~= s@);
    assert(out@ + s@ =~= s@);
    while i < s.len()
        invariant
            p.len() > 0,
            i <= s.len(),
            replace_all(s@, p@, r@) == out@ + replace_all(s@.skip(i as int), p@, r@),
        decreases s.len() - i,
    {
        let ghost rest = s@.skip(i as int);
        proof {
            lemma_prefix_occurs(s@, p@, i as int);
        }
        if matches_at(s, p, i) {
            extend_chars(&mut out, r);
            assert(rest.skip(p@.len() as int) =~= s@.skip(i + p@.len()));
            i = i + p.len();
        } else {
            out.push(s[i]);
            assert(rest.drop_first() =~= s@.skip(i + 1));
            i = i + 1;
        }
        assert(out@ + replace_all(s@.skip(i as int), p@, r@) =~= replace_all(s@, p@, r@));
    }
    assert(s@.skip(i as int) =~= Seq::<char>::empty());
    assert(out@ + Seq::<char>::empty() =~= out@);
    out
}

/// `char::is_whitespace`: the Unicode `White_Space` property.
pub open spec fn is_white_space(c: char) -> bool {
    let u = c as u32;
    ||| 0x9 <= u <= 0xD
    ||| u == 0x20
    ||| u == 0x85
    ||| u == 0xA0
    ||| u == 0x1680
    ||| 0x2000 <= u <= 0x200A
    ||| u == 0x2028
    ||| u == 0x2029
    ||| u == 0x202F
    ||| u == 0x205F
    ||| u == 0x3000
}

/// `s` without its leading white space.
pub open spec fn trim_start(s: Seq<char>) -> Seq<char>
    decreases s.len(),
{
    if s.len() > 0 && is_white_space(s[0]) {
        trim_start(s.drop_first())
    } else {
        s
    }
}

/// `s` without its trailing white space.
pub open spec fn trim_end(s: Seq<char>) -> Seq<char>
    decreases s.len(),
{
    if s.len() > 0 && is_white_space(s.last()) {
        trim_end(s.drop_last())
    } else {
        s
    }
}

/// `str::trim`.
pub open spec fn trim(s: Seq<char>) -> Seq<char> {
    trim_end(trim_start(s))
}

/// Whether `c` is white space, as `char::is_whitespace` decides.
pub fn white_space(c: char) -> (r: bool)
    ensures
        r == is_white_space(c),
{
    let u = c as u32;
    (0x9 <= u && u <= 0xD) || u == 0x20 || u == 0x85 || u == 0xA0 || u == 0x1680 || (0x2000 <= u
        && u <= 0x200A) || u == 0x2028 || u == 0x2029 || u == 0x202F || u == 0x205F || u == 0x3000
}

/// The characters of `s` without leading and trailing white space.
pub fn trim_chars(s: &Vec<char>) -> (out: Vec<char>)
    ensures
        out@ == trim(s@),
{
    let mut i: usize = 0;
    assert(s@.skip(0) =~= s@);
    while i < s.len() && white_space(s[i])
        invariant
            i <= s.len(),
            trim_start(s@) == trim_start(s@.skip(i as int)),
        decreases s.len() - i,
    {
        assert(s@.skip(i as int).drop_first() =~= s@.skip(i + 1));
        i = i + 1;
    }
    assert(trim_start(s@) == s@.skip(i as int));
    assert(s@.skip(i as int) =~= s@.subrange(i as int, s@.len() as int));
    let mut j: usize = s.len();
    while j > i && white_space(s[j - 1])
        invariant
            i <= j <= s.len(),
            trim(s@) == trim_end(s@.subrange(i as int, j as int)),
        decreases j - i,
    {
        assert(s@.subrange(i as int, j as int).drop_last() =~= s@.subrange(i as int, j - 1));
        j = j - 1;
    }
    assert(s@.skip(i as int) =~= s@.subrange(i as int, s@.len() as int));
    slice_chars(s, i, j)
}

} // verus!

verus! {

/// The character of the decimal digit `d`.
pub open spec fn digit_char(d: int) -> char {
    if d == 0 {
        '0'
    } else if d == 1 {
        '1'
    } else if d == 2 {
        '2'
    } else if d == 3 {
        '3'
    } else if d == 4 {
        '4'
    } else if d == 5 {
        '5'
    } else if d == 6 {
        '6'
    } else if d == 7 {
        '7'
    } else if d == 8 {
        '8'
    } else {
        '9'
    }
}

/// Decimal notation of `n`, as `format!("{}", n)` writes it.
pub open spec fn decimal(n: nat) -> Seq<char>
    decreases n,
{
    if n < 10 {
        seq![digit_char(n as int)]
    } else {
        decimal(n / 10).push(digit_char((n % 10) as int))
    }
}

/// Decimal notation of a signed integer, with a leading `-` when negative.
pub open spec fn signed_decimal(i: int) -> Seq<char> {
    if i < 0 {
        seq!['-'] + decimal((-i) as nat)
    } else {
        decimal(i as nat)
    }
}

fn digit(d: u64) -> (c: char)
    requires
        d < 10,
    ensures
        c == digit_char(d as int),
{
    if d == 0 {
        '0'
    } else if d == 1 {
        '1'
    } else if d == 2 {
        '2'
    } else if d == 3 {
        '3'
    } else if d == 4 {
        '4'
    } else if d == 5 {
        '5'
    } else if d == 6 {
        '6'
    } else if d == 7 {
        '7'
    } else if d == 8 {
        '8'
    } else {
        '9'
    }
}

/// Appends the decimal notation of `n`.
pub fn push_decimal(out: &mut Vec<char>, n: u64)
    ensures
        final(out)@ == old(out)@ + decimal(n as nat),
    decreases n,
{
    if n >= 10 {
        push_decimal(out, n / 10);
    }
    out.push(digit(n % 10));
    assert(final(out)@ =~= old(out)@ + decimal(n as nat));
}

/// Appends the decimal notation of the signed `n`.
pub fn push_signed_decimal(out: &mut Vec<char>, n: i64)
    ensures
        final(out)@ == old(out)@ + signed_decimal(n as int),
{
    if n < 0 {
        out.push('-');
        let m: u64 = (-(n as i128)) as u64;
        push_decimal(out, m);
        assert(final(out)@ =~= old(out)@ + signed_decimal(n as int));
    } else {
        push_decimal(out, n as u64);
    }
}

/// `c` is one of the characters `0` to `9`.
pub open spec fn is_digit(c: char) -> bool {
    '0' <= c <= '9'
}

/// Every character of `s` is a decimal digit.
pub open spec fn all_digits(s: Seq<char>) -> bool {
    forall|i: int| 0 <= i < s.len() ==> is_digit(#[trigger] s[i])
}

/// Value of a string of decimal digits.
pub open spec fn digits_value(s: Seq<char>) -> nat
    decreases s.len(),
{
    if s.len() == 0 {
        0
    } else {
        digits_value(s.drop_last()) * 10 + ((s.last() as u32) - 48) as nat
    }
}

/// `str::parse::<usize>`: an optional `+`, then at least one decimal digit
/// and nothing else, of a value that fits in a `usize`.
pub open spec fn parse_usize(s: Seq<char>) -> Option<nat> {
    let body = if s.len() > 0 && s[0] == '+' {
        s.drop_first()
    } else {
        s
    };
    if body.len() > 0 && all_digits(body) && digits_value(body) <= usize::MAX {
        Some(digits_value(body))
    } else {
        None
    }
}

/// A prefix of digits has no greater value.
pub proof fn lemma_digits_prefix(s: Seq<char>, k: int)
    requires
        all_digits(s),
        0 <= k <= s.len(),
    ensures
        digits_value(s.take(k)) <= digits_value(s),
    decreases s.len() - k,
{
    if k < s.len() {
        let t = s.drop_last();
        assert(t.take(k) =~= s.take(k));
        assert forall|i: int| 0 <= i < t.len() implies is_digit(#[trigger] t[i]) by {
            assert(t[i] == s[i]);
        }
        lemma_digits_prefix(t, k);
    } else {
        assert(s.take(k) =~= s);
    }
}

/// The character of a digit.
pub proof fn lemma_digit_char(d: int)
    requires
        0 <= d < 10,
    ensures
        digit_char(d) as u32 == d + 48,
        is_digit(digit_char(d)),
{
}

/// Decimal notation is digits.
pub proof fn lemma_decimal_digits(n: nat)
    ensures
        decimal(n).len() > 0,
        all_digits(decimal(n)),
        digits_value(decimal(n)) == n,
        decimal(n)[0] != '+',
    decreases n,
{
    lemma_digit_char((n % 10) as int);
    if n >= 10 {
        lemma_decimal_digits(n / 10);
        let d = decimal(n);
        assert(d.drop_last() =~= decimal(n / 10));
        assert(digits_value(d) == digits_value(decimal(n / 10)) * 10 + n % 10);
        assert forall|i: int| 0 <= i < d.len() implies is_digit(#[trigger] d[i]) by {
            if i < d.len() - 1 {
                assert(d[i] == decimal(n / 10)[i]);
            }
        }
    } else {
        let d = decimal(n);
        assert(d.drop_last() =~= Seq::<char>::empty());
        assert(digits_value(d) == digits_value(d.drop_last()) * 10 + n);
    }
}

/// Round trip of decimal notation through `str::parse::<usize>`.
pub proof fn lemma_parse_decimal(n: nat)
    requires
        n <= usize::MAX,
    ensures
        parse_usize(decimal(n)) == Some(n),
{
    lemma_decimal_digits(n);
}

/// `str::parse::<usize>` on the characters `s`.
pub fn parse_usize_chars(s: &Vec<char>) -> (r: Option<usize>)
    ensures
        match r {
            Some(n) => parse_usize(s@) == Some(n as nat),
            None => parse_usize(s@) is None,
        },
{
    let start: usize = if s.len() > 0 && s[0] == '+' {
        1
    } else {
        0
    };
    let ghost body = s@.skip(start as int);
    assert(body =~= if s@.len() > 0 && s@[0] == '+' {
        s@.drop_first()
    } else {
        s@
    });
    if start == s.len() {
        return None;
    }
    let mut acc: usize = 0;
    let mut i: usize = start;
    assert(body.take(0) =~= Seq::<char>::empty());
    while i < s.len()
        invariant
            start <= i <= s.len(),
            body == s@.skip(start as int),
            body == (if s@.len() > 0 && s@[0] == '+' {
                s@.drop_first()
            } else {
                s@
            }),
            all_digits(body.take(i - start)),
            acc as nat == digits_value(body.take(i - start)),
        decreases s.len() - i,
    {
        let c = s[i];
        let ghost k: int = i - start;
        if !('0' <= c && c <= '9') {
            assert(body[k] == c);
            assert(!is_digit(body[k]));
            return None;
        }
        let d: usize = (c as u32 - 48) as usize;
        assert(body.take(k + 1).drop_last() =~= body.take(k));
        assert(body.take(k + 1).last() == c);
        if acc > (usize::MAX - d) / 10 {
            proof {
                assert(acc * 10 + d > usize::MAX) by (nonlinear_arith)
                    requires
                        acc > (usize::MAX - d) / 10,
                        d <= 9,
                ;
                assert(digits_value(body.take(k + 1)) == acc * 10 + d);
                if all_digits(body) {
                    lemma_digits_prefix(body, k + 1);
                }
            }
            return None;
        }
        proof {
            assert(acc * 10 + d <= usize::MAX) by (nonlinear_arith)
                requires
                    acc <= (usize::MAX - d) / 10,
                    d <= 9,
            ;
        }
        acc = acc * 10 + d;
        i = i + 1;
        assert forall|j: int| 0 <= j < body.take(i - start).len() implies is_digit(
            #[trigger] body.take(i - start)[j],
        ) by {
            if j < k {
                assert(body.take(i - start)[j] == body.take(k)[j]);
            }
        }
    }
    assert(body.take(i - start) =~= body);
    Some(acc)
}

/// A `String` holding exactly the characters of `v`, collected through
/// `FromIterator<char>` for `String`.
#[verifier::external_body]
pub(crate) fn chars_to_string(v: &Vec<char>) -> (s: String)
    ensures
        s@ == v@,
{
    v.iter().collect()
}

} // verus!

verus! {

/// No character starts outside the text.
pub proof fn lemma_char_at_byte_outside(s: Seq<char>, b: int)
    requires
        b < 0 || b > byte_len(s),
    ensures
        char_at_byte(s, b) is None,
{
    assert forall|c: int| 0 <= c <= s.len() implies byte_offset(s, c) != b by {
        lemma_offset_bounds(s, c);
    }
}

/// `str::get(from..to)` for offsets that may lie outside the text.
pub fn get_span(s: &Vec<char>, n: usize, from: i128, to: i128) -> (r: Option<Vec<char>>)
    requires
        n == byte_len(s@),
    ensures
        match r {
            Some(v) => str_get(s@, from as int, to as int) == Some(v@),
            None => str_get(s@, from as int, to as int) is None,
        },
{
    if from < 0 || from > n as i128 {
        proof {
            lemma_char_at_byte_outside(s@, from as int);
        }
        return None;
    }
    if to < 0 || to > n as i128 {
        proof {
            lemma_char_at_byte_outside(s@, to as int);
        }
        return None;
    }
    get_bytes(s, from as usize, to as usize)
}

/// Byte offset of the first occurrence of `p`, as `str::find` reports it.
pub fn find_offset(s: &Vec<char>, n: usize, p: &str) -> (r: Option<usize>)
    requires
        n == byte_len(s@),
    ensures
        opt_int(r) == str_find(s@, p@),
{
    let pc = str_chars(p);
    match find_chars(s, &pc) {
        Some(k) => {
            proof {
                lemma_first_from_found(s@, p@, 0);
            }
            Some(byte_offset_of(s, k))
        },
        None => None,
    }
}

/// Byte offset of the last occurrence of `p`, as `str::rfind` reports it.
pub fn rfind_offset(s: &Vec<char>, n: usize, p: &str) -> (r: Option<usize>)
    requires
        n == byte_len(s@),
    ensures
        opt_int(r) == str_rfind(s@, p@),
{
    let pc = str_chars(p);
    match rfind_chars(s, &pc) {
        Some(k) => {
            proof {
                lemma_last_before_found(s@, p@, s@.len() as int);
            }
            Some(byte_offset_of(s, k))
        },
        None => None,
    }
}

/// The characters of `s` with their UTF-8 byte length.
pub fn str_text(s: &str) -> (r: (Vec<char>, usize))
    ensures
        r.0@ == s@,
        r.1 == byte_len(s@),
{
    let n = s.as_bytes().len();
    (str_chars(s), n)
}

} // verus!

verus! {

/// Over an ASCII prefix, offsets are character indices.
pub proof fn lemma_ascii_prefix_offsets(s: Seq<char>, k: int)
    requires
        0 <= k <= s.len(),
        forall|i: int| 0 <= i < k ==> (#[trigger] s[i] as u32) < 0x80,
    ensures
        forall|i: int| 0 <= i <= k ==> #[trigger] byte_offset(s, i) == i,
    decreases k,
{
    lemma_offset_ends(s);
    if k > 0 {
        lemma_ascii_prefix_offsets(s, k - 1);
        lemma_offset_step(s, k - 1);
        lemma_char_width(s[k - 1]);
    }
}

/// The byte length of two texts one after the other.
pub proof fn lemma_byte_len_concat(x: Seq<char>, y: Seq<char>)
    ensures
        byte_len(x + y) == byte_len(x) + byte_len(y),
{
    lemma_encode_concat(x, y);
}

/// `str_get` between two character offsets gives those characters.
pub proof fn lemma_get_exact(s: Seq<char>, i: int, j: int)
    requires
        0 <= i <= j <= s.len(),
    ensures
        str_get(s, byte_offset(s, i), byte_offset(s, j)) == Some(s.subrange(i, j)),
{
    lemma_char_at_byte_hit(s, i);
    lemma_char_at_byte_hit(s, j);
}

/// Byte length of a text: the offset of its end.
pub proof fn lemma_byte_len_end(s: Seq<char>)
    ensures
        byte_len(s) == byte_offset(s, s.len() as int),
        char_at_byte(s, byte_len(s) as int) == Some(s.len() as int),
{
    lemma_offset_ends(s);
    lemma_char_at_byte_hit(s, s.len() as int);
}

/// A last character of one byte ends one byte before the end.
pub proof fn lemma_last_ascii_offset(s: Seq<char>)
    requires
        s.len() > 0,
        (s.last() as u32) < 0x80,
    ensures
        byte_offset(s, s.len() - 1) == byte_len(s) - 1,
{
    lemma_offset_step(s, s.len() - 1);
    lemma_char_width(s.last());
    lemma_offset_ends(s);
}

/// The first occurrence from `i` on, when it is known.
pub proof fn lemma_first_from_exact(s: Seq<char>, p: Seq<char>, i: int, k: int)
    requires
        0 <= i <= k,
        occurs_at(s, p, k),
        forall|j: int| i <= j < k ==> !occurs_at(s, p, j),
    ensures
        first_from(s, p, i) == Some(k),
    decreases k - i,
{
    if i < k {
        lemma_first_from_exact(s, p, i + 1, k);
    }
}

/// The last occurrence before `i`, when it is known.
pub proof fn lemma_last_before_exact(s: Seq<char>, p: Seq<char>, i: int, k: int)
    requires
        0 <= k < i,
        occurs_at(s, p, k),
        forall|j: int| k < j < i ==> !occurs_at(s, p, j),
    ensures
        last_before(s, p, i) == Some(k),
    decreases i - k,
{
    if k < i - 1 {
        lemma_last_before_exact(s, p, i - 1, k);
    }
}

/// Signed decimal notation is a sign and digits.
pub proof fn lemma_signed_decimal_digits(i: int)
    ensures
        signed_decimal(i).len() > 0,
        forall|j: int|
            0 <= j < signed_decimal(i).len() ==> #[trigger] signed_decimal(i)[j] == '-' || is_digit(
                signed_decimal(i)[j],
            ),
{
    if i < 0 {
        lemma_decimal_digits((-i) as nat);
        let d = decimal((-i) as nat);
        assert forall|j: int| 0 <= j < signed_decimal(i).len() implies #[trigger] signed_decimal(
            i,
        )[j] == '-' || is_digit(signed_decimal(i)[j]) by {
            if j > 0 {
                assert(signed_decimal(i)[j] == d[j - 1]);
            }
        }
    } else {
        lemma_decimal_digits(i as nat);
    }
}

} // verus!

verus! {

/// Every character of `s` takes one byte.
pub open spec fn all_ascii(s: Seq<char>) -> bool {
    forall|i: int| 0 <= i < s.len() ==> (#[trigger] s[i] as u32) < 0x80
}

/// In an ASCII text offsets are character indices.
pub proof fn lemma_ascii_text(s: Seq<char>)
    requires
        all_ascii(s),
    ensures
        byte_len(s) == s.len(),
        forall|i: int| 0 <= i <= s.len() ==> #[trigger] byte_offset(s, i) == i,
        forall|i: int, j: int|
            0 <= i <= j <= s.len() ==> #[trigger] str_get(s, i, j) == Some(s.subrange(i, j)),
{
    lemma_ascii_prefix_offsets(s, s.len() as int);
    lemma_offset_ends(s);
    assert forall|i: int, j: int| 0 <= i <= j <= s.len() implies #[trigger] str_get(s, i, j) == Some(
        s.subrange(i, j),
    ) by {
        lemma_get_exact(s, i, j);
    }
}

/// Signed decimal notation is ASCII.
pub proof fn lemma_signed_decimal_ascii(i: int)
    ensures
        all_ascii(signed_decimal(i)),
        signed_decimal(i).len() > 0,
{
    lemma_signed_decimal_digits(i);
}

/// Decimal notation is ASCII.
pub proof fn lemma_decimal_ascii(n: nat)
    ensures
        all_ascii(decimal(n)),
        decimal(n).len() > 0,
{
    lemma_decimal_digits(n);
}

/// Two ASCII texts one after the other are ASCII.
pub proof fn lemma_all_ascii_concat(a: Seq<char>, b: Seq<char>)
    requires
        all_ascii(a),
        all_ascii(b),
    ensures
        all_ascii(a + b),
{
    assert forall|i: int| 0 <= i < (a + b).len() implies (#[trigger] (a + b)[i] as u32) < 0x80 by {
        if i >= a.len() {
            assert((a + b)[i] == b[i - a.len()]);
        }
    }
}

} // verus!

verus! {

/// The last occurrence of a character.
pub proof fn lemma_find_last_char(s: Seq<char>, c: char, k: int)
    requires
        0 <= k < s.len(),
        s[k] == c,
        forall|j: int| k < j < s.len() ==> s[j] != c,
    ensures
        find_last(s, seq![c]) == Some(k),
{
    assert(s.subrange(k, k + 1) =~= seq![c]);
    assert forall|j: int| k < j < s.len() implies !occurs_at(s, seq![c], j) by {
        if occurs_at(s, seq![c], j) {
            assert(s.subrange(j, j + 1)[0] == s[j]);
        }
    }
    lemma_last_before_exact(s, seq![c], s.len() as int, k);
}

/// The first occurrence of a character.
pub proof fn lemma_find_first_char(s: Seq<char>, c: char, k: int)
    requires
        0 <= k < s.len(),
        s[k] == c,
        forall|j: int| 0 <= j < k ==> s[j] != c,
    ensures
        find_first(s, seq![c]) == Some(k),
{
    assert(s.subrange(k, k + 1) =~= seq![c]);
    assert forall|j: int| 0 <= j < k implies !occurs_at(s, seq![c], j) by {
        if occurs_at(s, seq![c], j) {
            assert(s.subrange(j, j + 1)[0] == s[j]);
        }
    }
    lemma_first_from_exact(s, seq![c], 0, k);
}

} // verus!

verus! {

/// A piece of a text is no longer in bytes than the text.
pub proof fn lemma_byte_len_subrange(s: Seq<char>, i: int, j: int)
    requires
        0 <= i <= j <= s.len(),
    ensures
        byte_len(s.subrange(i, j)) <= byte_len(s),
{
    assert(s =~= s.take(i) + s.subrange(i, j) + s.skip(j));
    lemma_byte_len_concat(s.take(i), s.subrange(i, j));
    lemma_byte_len_concat(s.take(i) + s.subrange(i, j), s.skip(j));
}

/// What `str_get` gives is no longer in bytes than the text.
pub proof fn lemma_str_get_byte_len(s: Seq<char>, a: int, b: int)
    ensures
        str_get(s, a, b) matches Some(t) ==> byte_len(t) <= byte_len(s),
{
    if let Some(t) = str_get(s, a, b) {
        let i = char_at_byte(s, a)->0;
        let j = char_at_byte(s, b)->0;
        assert(0 <= i <= s.len() && 0 <= j <= s.len());
        lemma_byte_len_subrange(s, i, j);
    }
}

} // verus!

verus! {

/// Trimming never lengthens a text in bytes.
pub proof fn lemma_trim_byte_len(s: Seq<char>)
    ensures
        byte_len(trim(s)) <= byte_len(s),
{
    lemma_trim_start_sub(s);
    let t = trim_start(s);
    lemma_trim_end_sub(t);
}

proof fn lemma_trim_start_sub(s: Seq<char>)
    ensures
        byte_len(trim_start(s)) <= byte_len(s),
    decreases s.len(),
{
    if s.len() > 0 && is_white_space(s[0]) {
        lemma_trim_start_sub(s.drop_first());
        lemma_byte_len_subrange(s, 1, s.len() as int);
        assert(s.drop_first() =~= s.subrange(1, s.len() as int));
    }
}

proof fn lemma_trim_end_sub(s: Seq<char>)
    ensures
        byte_len(trim_end(s)) <= byte_len(s),
    decreases s.len(),
{
    if s.len() > 0 && is_white_space(s.last()) {
        lemma_trim_end_sub(s.drop_last());
        lemma_byte_len_subrange(s, 0, s.len() - 1);
        assert(s.drop_last() =~= s.subrange(0, s.len() - 1));
    }
}

} // verus!
