//! Character-level string operations with their specifications.
//!
//! Every string is viewed as its sequence of `char`s (`s@`).  The executable
//! functions here are the building blocks that the rest of the library uses to
//! inspect URLs, user input and the lines that yt-dlp prints.
use vstd::prelude::*;

verus! {

/// `pat` occurs in `s` at char position `i`.
pub open spec fn occurs_at(s: Seq<char>, pat: Seq<char>, i: int) -> bool {
    0 <= i && i + pat.len() <= s.len() && s.subrange(i, i + pat.len()) == pat
}

/// `pat` occurs somewhere in `s`.
pub open spec fn contains_seq(s: Seq<char>, pat: Seq<char>) -> bool {
    exists|i: int| occurs_at(s, pat, i)
}

/// `s` begins with `prefix`.
pub open spec fn has_prefix(s: Seq<char>, prefix: Seq<char>) -> bool {
    occurs_at(s, prefix, 0)
}

/// Position of the last `c` in `s`, or -1 when `s` holds none.
pub open spec fn last_index_of(s: Seq<char>, c: char) -> int
    decreases s.len(),
{
    if s.len() == 0 {
        -1
    } else if s.last() == c {
        s.len() - 1
    } else {
        last_index_of(s.drop_last(), c)
    }
}

/// Position of the first `c` in `s`, or -1 when `s` holds none.
pub open spec fn first_index_of(s: Seq<char>, c: char) -> int
    decreases s.len(),
{
    if s.len() == 0 {
        -1
    } else if s[0] == c {
        0
    } else {
        let r = first_index_of(s.drop_first(), c);
        if r == -1 {
            -1
        } else {
            r + 1
        }
    }
}

/// The part of `s` after its last `c` (all of `s` when it holds no `c`).
pub open spec fn after_last(s: Seq<char>, c: char) -> Seq<char> {
    s.subrange(last_index_of(s, c) + 1, s.len() as int)
}

/// The chars that carry the Unicode `White_Space` property, which is what
/// `char::is_whitespace` tests.
pub open spec fn is_white_space(c: char) -> bool {
    ||| '\u{9}' <= c <= '\u{d}'
    ||| c == ' '
    ||| c == '\u{85}'
    ||| c == '\u{a0}'
    ||| c == '\u{1680}'
    ||| '\u{2000}' <= c <= '\u{200a}'
    ||| c == '\u{2028}'
    ||| c == '\u{2029}'
    ||| c == '\u{202f}'
    ||| c == '\u{205f}'
    ||| c == '\u{3000}'
}

/// `s` without its leading white space.
pub open spec fn trim_start(s: Seq<char>) -> Seq<char>
    decreases s.len(),
{
    if s.len() > 0 && is_white_space(s[0]) {
        trim_start(s.drop_first())
    } else {
        s
    }
}

/// `s` without its trailing white space.
pub open spec fn trim_end(s: Seq<char>) -> Seq<char>
    decreases s.len(),
{
    if s.len() > 0 && is_white_space(s.last()) {
        trim_end(s.drop_last())
    } else {
        s
    }
}

/// `s` without leading and trailing white space, as `str::trim` gives it.
pub open spec fn trim(s: Seq<char>) -> Seq<char> {
    trim_end(trim_start(s))
}

/// ASCII lower-casing of one char: `A`..`Z` become `a`..`z`, all else stays.
pub open spec fn ascii_lower(c: char) -> char {
    if 'A' <= c <= 'Z' {
        ((c as u32) + 32) as char
    } else {
        c
    }
}

/// `a` and `b` are equal once ASCII letters are lower-cased.
pub open spec fn eq_ignore_ascii_case_seq(a: Seq<char>, b: Seq<char>) -> bool {
    a.len() == b.len() && forall|i: int| 0 <= i < a.len() ==> ascii_lower(a[i]) == ascii_lower(b[i])
}

/// `s` with every occurrence of the non-empty `pat` removed, scanning from the
/// left and never letting two removed occurrences overlap (as `str::replace`
/// with an empty replacement does).
pub open spec fn remove_all(s: Seq<char>, pat: Seq<char>) -> Seq<char>
    decreases s.len(),
{
    if pat.len() == 0 || s.len() == 0 {
        s
    } else if has_prefix(s, pat) {
        remove_all(s.subrange(pat.len() as int, s.len() as int), pat)
    } else {
        seq![s[0]] + remove_all(s.drop_first(), pat)
    }
}

/// The chars of `s`, one per element.
pub fn chars_of(s: &str) -> (v: Vec<char>)
    ensures
        v@ == s@,
{
    let n = s.unicode_len();
    let mut v: Vec<char> = Vec::new();
    let mut i: usize = 0;
    while i < n
        invariant
            n == s@.len(),
            i <= n,
            v@ == s@.subrange(0, i as int),
        decreases n - i,
    {
        v.push(s.get_char(i));
        i = i + 1;
        assert(v@ =~= s@.subrange(0, i as int));
    }
    assert(v@ =~= s@);
    v
}

/// A `String` holding exactly the chars `s[from..to]`.
pub fn substring(s: &str, from: usize, to: usize) -> (r: String)
    requires
        from <= to <= s@.len(),
    ensures
        r@ == s@.subrange(from as int, to as int),
{
    String::from_str(s.substring_char(from, to))
}

/// Does `pat` occur in `s` at position `i`?
fn matches_at(s: &Vec<char>, pat: &Vec<char>, i: usize) -> (b: bool)
    ensures
        b == occurs_at(s@, pat@, i as int),
{
    if pat.len() > s.len() || i > s.len() - pat.len() {
        return false;
    }
    let sl = s.len();
    let mut k: usize = 0;
    while k < pat.len()
        invariant
            sl == s@.len(),
            i + pat@.len() <= s@.len(),
            k <= pat@.len(),
            forall|j: int| 0 <= j < k ==> s@[i + j] == pat@[j],
        decreases pat@.len() - k,
    {
        if s[i + k] != pat[k] {
            assert(s@.subrange(i as int, i + pat@.len())[k as int] != pat@[k as int]);
            return false;
        }
        k = k + 1;
    }
    assert(s@.subrange(i as int, i + pat@.len()) =~= pat@);
    true
}

/// Does `s` begin with `prefix`?
pub fn starts_with(s: &str, prefix: &str) -> (b: bool)
    ensures
        b == has_prefix(s@, prefix@),
{
    let sv = chars_of(s);
    let pv = chars_of(prefix);
    matches_at(&sv, &pv, 0)
}

/// Does `pat` occur somewhere in `s` (as `str::contains` answers)?
pub fn contains(s: &str, pat: &str) -> (b: bool)
    ensures
        b == contains_seq(s@, pat@),
{
    let sv = chars_of(s);
    let pv = chars_of(pat);
    if pv.len() > sv.len() {
        assert forall|i: int| !occurs_at(s@, pat@, i) by {}
        return false;
    }
    let last = sv.len() - pv.len();
    let mut i: usize = 0;
    while i < last
        invariant
            sv@ == s@,
            pv@ == pat@,
            last == sv@.len() - pv@.len(),
            i <= last,
            forall|j: int| 0 <= j < i ==> !occurs_at(s@, pat@, j),
        decreases last - i,
    {
        if matches_at(&sv, &pv, i) {
            return true;
        }
        i = i + 1;
    }
    if matches_at(&sv, &pv, last) {
        return true;
    }
    assert forall|j: int| !occurs_at(s@, pat@, j) by {
        if 0 <= j < i {
        }
    }
    false
}

/// Position of the last `c` in `v`, or `None`.
fn last_position(v: &Vec<char>, c: char) -> (r: Option<usize>)
    ensures
        match r {
            Some(i) => last_index_of(v@, c) == i as int,
            None => last_index_of(v@, c) == -1,
        },
{
    let mut i: usize = v.len();
    assert(v@.subrange(0, i as int) =~= v@);
    while i > 0
        invariant
            i <= v@.len(),
            last_index_of(v@, c) == last_index_of(v@.subrange(0, i as int), c),
        decreases i,
    {
        let ghost pre = v@.subrange(0, i as int);
        if v[i - 1] == c {
            assert(pre.last() == c);
            return Some(i - 1);
        }
        assert(pre.drop_last() =~= v@.subrange(0, i - 1));
        i = i - 1;
    }
    assert(v@.subrange(0, 0).len() == 0);
    None
}

/// Position of the first `c` in `v` at or after `from`, or `None`.
fn first_position_from(v: &Vec<char>, c: char, from: usize) -> (r: Option<usize>)
    requires
        from <= v@.len(),
    ensures
        match r {
            Some(i) => from <= i < v@.len() && v@[i as int] == c && forall|k: int|
                from <= k < i ==> v@[k] != c,
            None => forall|k: int| from <= k < v@.len() ==> v@[k] != c,
        },
{
    let mut i: usize = from;
    while i < v.len()
        invariant
            from <= i <= v@.len(),
            forall|k: int| from <= k < i ==> v@[k] != c,
        decreases v@.len() - i,
    {
        if v[i] == c {
            return Some(i);
        }
        i = i + 1;
    }
    None
}

/// `first_index_of` is the least position holding `c`.
pub proof fn lemma_first_index_of(s: Seq<char>, c: char)
    ensures
        -1 <= first_index_of(s, c) < s.len(),
        first_index_of(s, c) >= 0 ==> s[first_index_of(s, c)] == c,
        forall|k: int|
            0 <= k < s.len() && (first_index_of(s, c) == -1 || k < first_index_of(s, c)) ==> s[k]
                != c,
    decreases s.len(),
{
    if s.len() > 0 && s[0] != c {
        lemma_first_index_of(s.drop_first(), c);
        assert forall|k: int|
            0 <= k < s.len() && (first_index_of(s, c) == -1 || k < first_index_of(s, c)) implies s[k]
            != c by {
            if k > 0 {
                assert(s[k] == s.drop_first()[k - 1]);
            }
        }
    }
}

/// `last_index_of` is the greatest position holding `c`.
pub proof fn lemma_last_index_of(s: Seq<char>, c: char)
    ensures
        -1 <= last_index_of(s, c) < s.len(),
        last_index_of(s, c) >= 0 ==> s[last_index_of(s, c)] == c,
        forall|k: int| last_index_of(s, c) < k < s.len() ==> s[k] != c,
    decreases s.len(),
{
    if s.len() > 0 && s.last() != c {
        lemma_last_index_of(s.drop_last(), c);
        assert forall|k: int| last_index_of(s, c) < k < s.len() implies s[k] != c by {
            if k < s.len() - 1 {
                assert(s[k] == s.drop_last()[k]);
            }
        }
    }
}

/// The part of `s` after its last `c` holds no `c`, and `s` ends with it.
pub proof fn lemma_after_last(s: Seq<char>, c: char)
    ensures
        !after_last(s, c).contains(c),
        after_last(s, c).is_suffix_of(s),
        !s.contains(c) ==> after_last(s, c) == s,
{
    lemma_last_index_of(s, c);
    let r = after_last(s, c);
    let start = last_index_of(s, c) + 1;
    assert forall|k: int| 0 <= k < r.len() implies r[k] != c by {
        assert(r[k] == s[start + k]);
    }
    assert(s.subrange(s.len() - r.len(), s.len() as int) =~= r);
    if !s.contains(c) {
        if last_index_of(s, c) >= 0 {
            assert(s[last_index_of(s, c)] == c);
        }
        assert(r =~= s);
    }
}

/// The part of `s` after its last `c`, as a new `String`.
pub fn after_last_char(s: &str, c: char) -> (r: String)
    ensures
        r@ == after_last(s@, c),
{
    let v = chars_of(s);
    proof {
        lemma_last_index_of(s@, c);
    }
    let start = match last_position(&v, c) {
        Some(i) => i + 1,
        None => 0,
    };
    substring(s, start, v.len())
}

/// Does `c` carry the Unicode `White_Space` property?
pub fn is_white_space_char(c: char) -> (b: bool)
    ensures
        b == is_white_space(c),
{
    ('\u{9}' <= c && c <= '\u{d}') || c == ' ' || c == '\u{85}' || c == '\u{a0}' || c == '\u{1680}'
        || ('\u{2000}' <= c && c <= '\u{200a}') || c == '\u{2028}' || c == '\u{2029}' || c
        == '\u{202f}' || c == '\u{205f}' || c == '\u{3000}'
}

/// Skipping leading white space one char at a time.
proof fn lemma_trim_start_skip(s: Seq<char>, a: int)
    requires
        0 <= a <= s.len(),
        forall|k: int| 0 <= k < a ==> is_white_space(s[k]),
    ensures
        trim_start(s) == trim_start(s.subrange(a, s.len() as int)),
    decreases a,
{
    if a > 0 {
        assert(s.drop_first().subrange(a - 1, s.drop_first().len() as int) =~= s.subrange(
            a,
            s.len() as int,
        ));
        lemma_trim_start_skip(s.drop_first(), a - 1);
    } else {
        assert(s.subrange(0, s.len() as int) =~= s);
    }
}

/// Dropping trailing white space one char at a time.
proof fn lemma_trim_end_skip(s: Seq<char>, b: int)
    requires
        0 <= b <= s.len(),
        forall|k: int| b <= k < s.len() ==> is_white_space(s[k]),
    ensures
        trim_end(s) == trim_end(s.subrange(0, b)),
    decreases s.len() - b,
{
    if b < s.len() {
        assert(s.drop_last().subrange(0, b) =~= s.subrange(0, b));
        lemma_trim_end_skip(s.drop_last(), b);
    } else {
        assert(s.subrange(0, s.len() as int) =~= s);
    }
}

/// `trim_end` keeps a prefix of its argument.
proof fn lemma_trim_end_prefix(s: Seq<char>)
    ensures
        trim_end(s).len() <= s.len(),
        trim_end(s) == s.subrange(0, trim_end(s).len() as int),
        trim_end(s).len() == 0 || !is_white_space(trim_end(s).last()),
    decreases s.len(),
{
    if s.len() > 0 && is_white_space(s.last()) {
        lemma_trim_end_prefix(s.drop_last());
        assert(s.drop_last().subrange(0, trim_end(s).len() as int) =~= s.subrange(
            0,
            trim_end(s).len() as int,
        ));
    } else {
        assert(s.subrange(0, s.len() as int) =~= s);
    }
}

/// `trim_start` keeps a suffix of its argument.
proof fn lemma_trim_start_suffix(s: Seq<char>)
    ensures
        trim_start(s).len() <= s.len(),
        trim_start(s) == s.subrange(s.len() - trim_start(s).len(), s.len() as int),
        trim_start(s).len() == 0 || !is_white_space(trim_start(s)[0]),
    decreases s.len(),
{
    if s.len() > 0 && is_white_space(s[0]) {
        lemma_trim_start_suffix(s.drop_first());
        let t = trim_start(s);
        assert(s.drop_first().subrange(s.drop_first().len() - t.len(), s.drop_first().len() as int)
            =~= s.subrange(s.len() - t.len(), s.len() as int));
    } else {
        assert(s.subrange(0, s.len() as int) =~= s);
    }
}

/// Trimming twice gives what trimming once gives.
pub proof fn lemma_trim_idempotent(s: Seq<char>)
    ensures
        trim(trim(s)) == trim(s),
{
    let u = trim_start(s);
    let t = trim_end(u);
    lemma_trim_start_suffix(s);
    lemma_trim_end_prefix(u);
    // t has no leading white space: it is a prefix of u, which has none.
    if t.len() > 0 {
        assert(t[0] == u[0]);
    }
    assert(trim_start(t) == t);
    // t has no trailing white space.
    assert(trim_end(t) == t);
}

/// `s` with leading and trailing white space removed (`str::trim`).
pub fn trim_str(s: &str) -> (r: String)
    ensures
        r@ == trim(s@),
{
    let v = chars_of(s);
    let n = v.len();
    let mut a: usize = 0;
    while a < n && is_white_space_char(v[a])
        invariant
            v@ == s@,
            n == v@.len(),
            a <= n,
            forall|k: int| 0 <= k < a ==> is_white_space(v@[k]),
        decreases n - a,
    {
        a = a + 1;
    }
    let mut b: usize = n;
    while b > a && is_white_space_char(v[b - 1])
        invariant
            v@ == s@,
            n == v@.len(),
            a <= b <= n,
            forall|k: int| b <= k < n ==> is_white_space(v@[k]),
        decreases b - a,
    {
        b = b - 1;
    }
    proof {
        lemma_trim_start_skip(s@, a as int);
        let u = s@.subrange(a as int, n as int);
        if a < n {
            assert(!is_white_space(u[0]));
        }
        assert(trim_start(u) == u);
        let cut = (b - a) as int;
        assert forall|k: int| cut <= k < u.len() implies is_white_space(u[k]) by {
            assert(u[k] == s@[a + k]);
        }
        lemma_trim_end_skip(u, cut);
        let w = u.subrange(0, cut);
        assert(w =~= s@.subrange(a as int, b as int));
        if b > a {
            assert(!is_white_space(w.last()));
        }
        assert(trim_end(w) == w);
    }
    substring(s, a, b)
}

/// Do `a` and `b` agree once ASCII letters are lower-cased
/// (`str::eq_ignore_ascii_case`)?
pub fn eq_ignore_ascii_case(a: &str, b: &str) -> (r: bool)
    ensures
        r == eq_ignore_ascii_case_seq(a@, b@),
{
    let av = chars_of(a);
    let bv = chars_of(b);
    if av.len() != bv.len() {
        return false;
    }
    let mut i: usize = 0;
    while i < av.len()
        invariant
            av@ == a@,
            bv@ == b@,
            av@.len() == bv@.len(),
            i <= av@.len(),
            forall|k: int| 0 <= k < i ==> ascii_lower(a@[k]) == ascii_lower(b@[k]),
        decreases av@.len() - i,
    {
        if to_ascii_lower(av[i]) != to_ascii_lower(bv[i]) {
            return false;
        }
        i = i + 1;
    }
    true
}

/// ASCII lower-casing of one char.
fn to_ascii_lower(c: char) -> (r: char)
    ensures
        r == ascii_lower(c),
{
    if 'A' <= c && c <= 'Z' {
        let code: u32 = (c as u32) + 32;
        let r = char_from_ascii(code);
        r
    } else {
        c
    }
}

/// The char with an ASCII code.
fn char_from_ascii(code: u32) -> (r: char)
    requires
        code < 128,
    ensures
        r == code as char,
{
    let b: u8 = code as u8;
    b as char
}

/// Removing `pat` from `s` where `s` does not start with it keeps the first char.
proof fn lemma_remove_all_step(s: Seq<char>, pat: Seq<char>, i: int)
    requires
        pat.len() > 0,
        0 <= i < s.len(),
    ensures
        remove_all(s.subrange(i, s.len() as int), pat) == if has_prefix(
            s.subrange(i, s.len() as int),
            pat,
        ) {
            remove_all(s.subrange(i + pat.len(), s.len() as int), pat)
        } else {
            seq![s[i]] + remove_all(s.subrange(i + 1, s.len() as int), pat)
        },
{
    let t = s.subrange(i, s.len() as int);
    if has_prefix(t, pat) {
        assert(t.subrange(pat.len() as int, t.len() as int) =~= s.subrange(
            i + pat.len(),
            s.len() as int,
        ));
    } else {
        assert(t.drop_first() =~= s.subrange(i + 1, s.len() as int));
    }
}

/// `s` with every occurrence of the non-empty `pat` removed (as
/// `s.replace(pat, "")` gives it).
pub fn remove_all_str(s: &str, pat: &str) -> (r: String)
    requires
        pat@.len() > 0,
    ensures
        r@ == remove_all(s@, pat@),
{
    let sv = chars_of(s);
    let pv = chars_of(pat);
    let n = sv.len();
    let mut out = String::new();
    let mut i: usize = 0;
    let mut keep_from: usize = 0;
    assert(s@.subrange(0, n as int) =~= s@);
    assert(out@ + s@.subrange(0, 0) =~= Seq::<char>::empty());
    // out holds the kept chars of s[..keep_from]; s[keep_from..i] is kept too.
    while i < n
        invariant
            sv@ == s@,
            pv@ == pat@,
            pat@.len() > 0,
            n == s@.len(),
            keep_from <= i <= n,
            remove_all(s@, pat@) == out@ + s@.subrange(keep_from as int, i as int) + remove_all(
                s@.subrange(i as int, n as int),
                pat@,
            ),
        decreases n - i,
    {
        proof {
            lemma_remove_all_step(s@, pat@, i as int);
        }
        if matches_at(&sv, &pv, i) {
            assert(s@.subrange(i as int, n as int).subrange(0, pat@.len() as int) =~= s@.subrange(
                i as int,
                i + pat@.len(),
            ));
            let piece = s.substring_char(keep_from, i);
            out.append(piece);
            i = i + pv.len();
            keep_from = i;
            assert(s@.subrange(keep_from as int, i as int) =~= Seq::<char>::empty());
            assert(out@ + s@.subrange(keep_from as int, i as int) =~= out@);
        } else {
            proof {
                let t = s@.subrange(i as int, n as int);
                if i + pat@.len() <= n {
                    assert(t.subrange(0, pat@.len() as int) =~= s@.subrange(
                        i as int,
                        i + pat@.len(),
                    ));
                }
                assert(s@.subrange(keep_from as int, i + 1) =~= s@.subrange(
                    keep_from as int,
                    i as int,
                ) + seq![s@[i as int]]);
            }
            i = i + 1;
        }
    }
    let tail = s.substring_char(keep_from, n);
    out.append(tail);
    proof {
        assert(s@.subrange(n as int, n as int).len() == 0);
    }
    out
}

/// Position of the first `c` in `v`, or `None`.
pub fn find_char(v: &Vec<char>, c: char) -> (r: Option<usize>)
    ensures
        match r {
            Some(i) => first_index_of(v@, c) == i as int,
            None => first_index_of(v@, c) == -1,
        },
{
    proof {
        lemma_first_index_of(v@, c);
    }
    let r = first_position_from(v, c, 0);
    proof {
        let f = first_index_of(v@, c);
        match r {
            Some(i) => {
                if f != i as int {
                    if f == -1 || f > i as int {
                        assert(v@[i as int] != c);
                    } else {
                        assert(v@[f] == c);
                    }
                }
            },
            None => {
                if f >= 0 {
                    assert(v@[f] == c);
                }
            },
        }
    }
    r
}

/// Are `a` and `b` the same text?
pub fn str_eq(a: &str, b: &str) -> (r: bool)
    ensures
        r == (a@ == b@),
{
    let av = chars_of(a);
    let bv = chars_of(b);
    if av.len() != bv.len() {
        return false;
    }
    let mut i: usize = 0;
    while i < av.len()
        invariant
            av@ == a@,
            bv@ == b@,
            av@.len() == bv@.len(),
            i <= av@.len(),
            forall|k: int| 0 <= k < i ==> a@[k] == b@[k],
        decreases av@.len() - i,
    {
        if av[i] != bv[i] {
            return false;
        }
        i = i + 1;
    }
    assert(a@ =~= b@);
    true
}

/// What trimming keeps: a contiguous part of the text, with all cut chars
/// white space, that neither starts nor ends with white space.
pub proof fn law_trim(s: Seq<char>)
    ensures
        exists|a: int, b: int|
            0 <= a <= b <= s.len() && trim(s) == s.subrange(a, b) && (forall|k: int|
                0 <= k < a ==> is_white_space(#[trigger] s[k])) && (forall|k: int|
                b <= k < s.len() ==> is_white_space(#[trigger] s[k])),
        trim(s).len() > 0 ==> !is_white_space(trim(s)[0]) && !is_white_space(trim(s).last()),
{
    lemma_trim_start_cut(s);
    let u = trim_start(s);
    let a = s.len() - u.len();
    lemma_trim_end_cut(u);
    let t = trim_end(u);
    lemma_trim_start_suffix(s);
    lemma_trim_end_prefix(u);
    let b = a + t.len();
    assert(t =~= s.subrange(a, b));
    assert forall|k: int| b <= k < s.len() implies is_white_space(#[trigger] s[k]) by {
        assert(s[k] == u[k - a]);
    }
    if t.len() > 0 {
        assert(t[0] == u[0]);
    }
}

/// `trim_start` cuts only white space.
proof fn lemma_trim_start_cut(s: Seq<char>)
    ensures
        trim_start(s).len() <= s.len(),
        forall|k: int| 0 <= k < s.len() - trim_start(s).len() ==> is_white_space(#[trigger] s[k]),
    decreases s.len(),
{
    if s.len() > 0 && is_white_space(s[0]) {
        lemma_trim_start_cut(s.drop_first());
        assert forall|k: int| 0 <= k < s.len() - trim_start(s).len() implies is_white_space(
            #[trigger] s[k],
        ) by {
            if k > 0 {
                assert(s[k] == s.drop_first()[k - 1]);
            }
        }
    }
}

/// `trim_end` cuts only white space.
proof fn lemma_trim_end_cut(s: Seq<char>)
    ensures
        trim_end(s).len() <= s.len(),
        forall|k: int| trim_end(s).len() <= k < s.len() ==> is_white_space(#[trigger] s[k]),
    decreases s.len(),
{
    if s.len() > 0 && is_white_space(s.last()) {
        lemma_trim_end_cut(s.drop_last());
        assert forall|k: int| trim_end(s).len() <= k < s.len() implies is_white_space(
            #[trigger] s[k],
        ) by {
            if k < s.len() - 1 {
                assert(s[k] == s.drop_last()[k]);
            }
        }
    }
}

/// ASCII lower-casing turns `A`..`Z` into `a`..`z` (32 code points up) and
/// leaves every other char alone; texts equal up to it are equal up to ASCII
/// case, in either order.
pub proof fn law_ascii_lower(c: char, a: Seq<char>, b: Seq<char>)
    ensures
        'A' <= c <= 'Z' ==> ascii_lower(c) as u32 == c as u32 + 32,
        !('A' <= c <= 'Z') ==> ascii_lower(c) == c,
        eq_ignore_ascii_case_seq(a, a),
        eq_ignore_ascii_case_seq(a, b) == eq_ignore_ascii_case_seq(b, a),
{
}

/// Removing a pattern that does not occur leaves the text as it is, and a
/// leading occurrence is dropped whole.
pub proof fn law_remove_all(s: Seq<char>, pat: Seq<char>)
    requires
        pat.len() > 0,
    ensures
        !contains_seq(s, pat) ==> remove_all(s, pat) == s,
        remove_all(pat + s, pat) == remove_all(s, pat),
    decreases s.len(),
{
    assert((pat + s).subrange(0, pat.len() as int) =~= pat);
    assert((pat + s).subrange(pat.len() as int, (pat + s).len() as int) =~= s);
    if !contains_seq(s, pat) && s.len() > 0 {
        assert(!occurs_at(s, pat, 0));
        assert forall|i: int| !occurs_at(s.drop_first(), pat, i) by {
            if occurs_at(s.drop_first(), pat, i) {
                assert(s.subrange(i + 1, i + 1 + pat.len()) =~= s.drop_first().subrange(
                    i,
                    i + pat.len(),
                ));
                assert(occurs_at(s, pat, i + 1));
            }
        }
        law_remove_all(s.drop_first(), pat);
        assert(seq![s[0]] + s.drop_first() =~= s);
    }
}

/// The white space that trimming removes is exactly Unicode's `White_Space`
/// set, by code point: U+0009..U+000D, U+0020, U+0085, U+00A0, U+1680,
/// U+2000..U+200A, U+2028, U+2029, U+202F, U+205F and U+3000.
pub proof fn law_white_space_set(c: char)
    ensures
        is_white_space(c) <==> (9 <= c as u32 <= 13 || c as u32 == 32 || c as u32 == 0x85 || c as u32
            == 0xa0 || c as u32 == 0x1680 || (0x2000 <= c as u32 <= 0x200a) || c as u32 == 0x2028
            || c as u32 == 0x2029 || c as u32 == 0x202f || c as u32 == 0x205f || c as u32 == 0x3000),
{
}

} // verus!
