//! Small verified text utilities: substring search (also ASCII
//! case-insensitive), line splitting, trimming and token extraction — what
//! the parsing of audio-server listings needs.

use vstd::prelude::*;
use vstd::string::*;

verus! {

/// `needle` occurs in `hay` at position `i`.
pub open spec fn contains_at(hay: Seq<char>, needle: Seq<char>, i: int) -> bool {
    0 <= i && i + needle.len() <= hay.len() && hay.subrange(i, i + needle.len()) == needle
}

/// `needle` occurs somewhere in `hay`.
pub open spec fn seq_contains(hay: Seq<char>, needle: Seq<char>) -> bool {
    exists|i: int| contains_at(hay, needle, i)
}

/// ASCII lowercase of one character.
pub open spec fn lower_char(c: char) -> char {
    if 65 <= c as int <= 90 {
        ((c as int) + 32) as char
    } else {
        c
    }
}

pub open spec fn lower_seq(s: Seq<char>) -> Seq<char> {
    s.map_values(|c: char| lower_char(c))
}

/// `needle` occurs in `hay` up to ASCII case.
pub open spec fn seq_contains_ci(hay: Seq<char>, needle: Seq<char>) -> bool {
    seq_contains(lower_seq(hay), lower_seq(needle))
}

/// ASCII whitespace, as line listings use it.
pub open spec fn is_ws(c: char) -> bool {
    c == ' ' || c == '\t' || c == '\r' || c == '\n'
}

/// Index of the first newline, or the length if there is none.
pub open spec fn first_nl(s: Seq<char>) -> int
    decreases s.len(),
{
    if s.len() == 0 {
        0
    } else if s[0] == '\n' {
        0
    } else {
        1 + first_nl(s.drop_first())
    }
}

pub proof fn lemma_first_nl(s: Seq<char>)
    ensures
        0 <= first_nl(s) <= s.len(),
        forall|j: int| 0 <= j < first_nl(s) ==> s[j] != '\n',
        first_nl(s) < s.len() ==> s[first_nl(s)] == '\n',
    decreases s.len(),
{
    if s.len() > 0 && s[0] != '\n' {
        lemma_first_nl(s.drop_first());
        assert(forall|j: int|
            1 <= j < first_nl(s) ==> s[j] == s.drop_first()[j - 1] && s.drop_first()[j - 1]
                != '\n');
    }
}

/// A line with a trailing carriage return loses it.
pub open spec fn strip_cr(line: Seq<char>) -> Seq<char> {
    if line.len() > 0 && line.last() == '\r' {
        line.drop_last()
    } else {
        line
    }
}

/// The lines of a text: split on newlines, one trailing carriage return
/// per line removed, and no phantom line after a final newline.
pub open spec fn split_lines_spec(s: Seq<char>) -> Seq<Seq<char>>
    decreases s.len(),
    via split_lines_spec_dec
{
    if s.len() == 0 {
        Seq::empty()
    } else {
        let k = first_nl(s);
        if k == s.len() {
            seq![strip_cr(s)]
        } else {
            seq![strip_cr(s.take(k))] + split_lines_spec(s.skip(k + 1))
        }
    }
}

#[via_fn]
proof fn split_lines_spec_dec(s: Seq<char>) {
    lemma_first_nl(s);
}

/// Leading whitespace dropped.
pub open spec fn trim_front_spec(s: Seq<char>) -> Seq<char>
    decreases s.len(),
{
    if s.len() == 0 {
        s
    } else if is_ws(s[0]) {
        trim_front_spec(s.drop_first())
    } else {
        s
    }
}

/// Trailing whitespace dropped.
pub open spec fn trim_back_spec(s: Seq<char>) -> Seq<char>
    decreases s.len(),
{
    if s.len() == 0 {
        s
    } else if is_ws(s.last()) {
        trim_back_spec(s.drop_last())
    } else {
        s
    }
}

pub open spec fn trim_spec(s: Seq<char>) -> Seq<char> {
    trim_back_spec(trim_front_spec(s))
}

/// The prefix of `s` up to the first whitespace.
pub open spec fn until_ws(s: Seq<char>) -> Seq<char>
    decreases s.len(),
{
    if s.len() == 0 {
        s
    } else if is_ws(s[0]) {
        Seq::empty()
    } else {
        seq![s[0]] + until_ws(s.drop_first())
    }
}

/// The first whitespace-separated token of a line, empty if there is none.
pub open spec fn first_token(s: Seq<char>) -> Seq<char> {
    until_ws(trim_front_spec(s))
}

/// Some line contains the needle.
pub open spec fn line_has_spec(lines: Seq<Seq<char>>, needle: Seq<char>) -> bool {
    exists|i: int| 0 <= i < lines.len() && seq_contains(#[trigger] lines[i], needle)
}

/// Whether `needle` occurs in `hay`.
pub fn str_contains(hay: &str, needle: &str) -> (r: bool)
    ensures
        r == seq_contains(hay@, needle@),
{
    let h = hay.unicode_len();
    let n = needle.unicode_len();
    if n == 0 {
        proof {
            assert(hay@.subrange(0, 0) =~= needle@);
            assert(contains_at(hay@, needle@, 0));
        }
        return true;
    }
    if n > h {
        proof {
            assert(forall|i: int| !contains_at(hay@, needle@, i));
        }
        return false;
    }
    let mut i: usize = 0;
    while i <= h - n
        invariant
            1 <= n <= h,
            h == hay@.len(),
            n == needle@.len(),
            0 <= i <= h - n + 1,
            forall|k: int| 0 <= k < i ==> !contains_at(hay@, needle@, k),
        decreases h - i,
    {
        let mut j: usize = 0;
        let mut all_eq: bool = true;
        while j < n
            invariant
                1 <= n <= h,
                h == hay@.len(),
                n == needle@.len(),
                0 <= i <= h - n,
                0 <= j <= n,
                all_eq ==> forall|t: int| 0 <= t < j ==> hay@[i + t] == needle@[t],
                !all_eq ==> !contains_at(hay@, needle@, i as int),
            decreases n - j,
        {
            let hc = hay.get_char(i + j);
            let nc = needle.get_char(j);
            if hc != nc {
                proof {
                    if contains_at(hay@, needle@, i as int) {
                        assert(hay@.subrange(i as int, i + needle@.len())[j as int] == needle@[j as int]);
                    }
                }
                all_eq = false;
            }
            j = j + 1;
        }
        if all_eq {
            proof {
                assert(hay@.subrange(i as int, i + needle@.len()) =~= needle@);
                assert(contains_at(hay@, needle@, i as int));
            }
            return true;
        }
        i = i + 1;
    }
    proof {
        assert forall|k: int| !contains_at(hay@, needle@, k) by {
            if 0 <= k <= h - n {
                assert(!contains_at(hay@, needle@, k));
            }
        }
    }
    false
}

/// ASCII lowercase of one character.
fn lower(c: char) -> (r: char)
    ensures
        r == lower_char(c),
{
    if 'A' <= c && c <= 'Z' {
        (((c as u8)) + 32) as char
    } else {
        c
    }
}

/// Executable whitespace test.
fn is_ws_char(c: char) -> (r: bool)
    ensures
        r == is_ws(c),
{
    c == ' ' || c == '\t' || c == '\r' || c == '\n'
}

/// Whether `needle` occurs in `hay`, up to ASCII case.
pub fn str_contains_ci(hay: &str, needle: &str) -> (r: bool)
    ensures
        r == seq_contains_ci(hay@, needle@),
{
    let h = hay.unicode_len();
    let n = needle.unicode_len();
    proof {
        assert(lower_seq(hay@).len() == h);
        assert(lower_seq(needle@).len() == n);
    }
    if n == 0 {
        proof {
            assert(lower_seq(hay@).subrange(0, 0) =~= lower_seq(needle@));
            assert(contains_at(lower_seq(hay@), lower_seq(needle@), 0));
        }
        return true;
    }
    if n > h {
        proof {
            assert(forall|i: int| !contains_at(lower_seq(hay@), lower_seq(needle@), i));
        }
        return false;
    }
    let mut i: usize = 0;
    while i <= h - n
        invariant
            1 <= n <= h,
            h == hay@.len(),
            n == needle@.len(),
            0 <= i <= h - n + 1,
            forall|k: int| 0 <= k < i ==> !contains_at(lower_seq(hay@), lower_seq(needle@), k),
        decreases h - i,
    {
        let mut j: usize = 0;
        let mut all_eq: bool = true;
        while j < n
            invariant
                1 <= n <= h,
                h == hay@.len(),
                n == needle@.len(),
                0 <= i <= h - n,
                0 <= j <= n,
                all_eq ==> forall|t: int|
                    0 <= t < j ==> lower_seq(hay@)[i + t] == lower_seq(needle@)[t],
                !all_eq ==> !contains_at(lower_seq(hay@), lower_seq(needle@), i as int),
            decreases n - j,
        {
            let hc = lower(hay.get_char(i + j));
            let nc = lower(needle.get_char(j));
            if hc != nc {
                proof {
                    if contains_at(lower_seq(hay@), lower_seq(needle@), i as int) {
                        assert(lower_seq(hay@).subrange(
                            i as int,
                            i + lower_seq(needle@).len(),
                        )[j as int] == lower_seq(needle@)[j as int]);
                    }
                }
                all_eq = false;
            }
            j = j + 1;
        }
        if all_eq {
            proof {
                assert(lower_seq(hay@).subrange(i as int, i + lower_seq(needle@).len())
                    =~= lower_seq(needle@));
                assert(contains_at(lower_seq(hay@), lower_seq(needle@), i as int));
            }
            return true;
        }
        i = i + 1;
    }
    proof {
        assert forall|k: int| !contains_at(lower_seq(hay@), lower_seq(needle@), k) by {
            if 0 <= k <= h - n {
                assert(!contains_at(lower_seq(hay@), lower_seq(needle@), k));
            }
        }
    }
    false
}


/// `first_nl` is pinned by its characterization: no newline before `k`,
/// and a newline (or the end) at `k`.
proof fn lemma_first_nl_is(s: Seq<char>, k: int)
    requires
        0 <= k <= s.len(),
        forall|j: int| 0 <= j < k ==> s[j] != '\n',
        k < s.len() ==> s[k] == '\n',
    ensures
        first_nl(s) == k,
    decreases s.len(),
{
    if s.len() > 0 && s[0] != '\n' {
        assert(forall|j: int|
            0 <= j < k - 1 ==> s.drop_first()[j] == s[j + 1] && s[j + 1] != '\n');
        lemma_first_nl_is(s.drop_first(), k - 1);
    }
}

/// `trim_front_spec` drops exactly the leading whitespace run.
proof fn lemma_trim_front_is(s: Seq<char>, p: int)
    requires
        0 <= p <= s.len(),
        forall|j: int| 0 <= j < p ==> is_ws(s[j]),
        p < s.len() ==> !is_ws(s[p]),
    ensures
        trim_front_spec(s) =~= s.skip(p),
    decreases s.len(),
{
    if s.len() == 0 {
    } else if p == 0 {
        assert(s.skip(0) =~= s);
    } else {
        assert(forall|j: int|
            0 <= j < p - 1 ==> s.drop_first()[j] == s[j + 1] && is_ws(s[j + 1]));
        lemma_trim_front_is(s.drop_first(), p - 1);
        assert(s.drop_first().skip(p - 1) =~= s.skip(p));
    }
}

/// `trim_back_spec` drops exactly the trailing whitespace run.
proof fn lemma_trim_back_is(s: Seq<char>, q: int)
    requires
        0 <= q <= s.len(),
        forall|j: int| q <= j < s.len() ==> is_ws(s[j]),
        q > 0 ==> !is_ws(s[q - 1]),
    ensures
        trim_back_spec(s) =~= s.take(q),
    decreases s.len(),
{
    if s.len() == 0 {
    } else if q == s.len() {
        assert(s.take(q) =~= s);
    } else {
        assert(forall|j: int|
            q <= j < s.drop_last().len() ==> s.drop_last()[j] == s[j] && is_ws(s[j]));
        lemma_trim_back_is(s.drop_last(), q);
        assert(s.drop_last().take(q) =~= s.take(q));
    }
}

/// `until_ws` takes exactly the prefix before the first whitespace.
proof fn lemma_until_ws_is(s: Seq<char>, q: int)
    requires
        0 <= q <= s.len(),
        forall|j: int| 0 <= j < q ==> !is_ws(s[j]),
        q < s.len() ==> is_ws(s[q]),
    ensures
        until_ws(s) =~= s.take(q),
    decreases s.len(),
{
    if s.len() == 0 {
    } else if q == 0 {
        assert(s.take(0) =~= Seq::<char>::empty());
    } else {
        assert(forall|j: int|
            0 <= j < q - 1 ==> s.drop_first()[j] == s[j + 1] && !is_ws(s[j + 1]));
        lemma_until_ws_is(s.drop_first(), q - 1);
        assert(seq![s[0]] + s.drop_first().take(q - 1) =~= s.take(q));
    }
}

/// The lines of a text, as `str::lines` cuts them.
pub fn split_lines(text: &str) -> (r: Vec<String>)
    ensures
        r@.len() == split_lines_spec(text@).len(),
        forall|i: int|
            0 <= i < r@.len() ==> #[trigger] r@[i]@ == split_lines_spec(text@)[i],
{
    let n = text.unicode_len();
    let mut lines: Vec<String> = Vec::new();
    let mut pos: usize = 0;
    proof {
        assert(text@.skip(0) =~= text@);
        assert(lines@.map_values(|x: String| x@) =~= Seq::<Seq<char>>::empty());
        assert(split_lines_spec(text@) =~= lines@.map_values(|x: String| x@) + split_lines_spec(
            text@.skip(0),
        ));
    }
    while pos < n
        invariant
            n == text@.len(),
            0 <= pos <= n,
            split_lines_spec(text@) =~= lines@.map_values(|x: String| x@) + split_lines_spec(
                text@.skip(pos as int),
            ),
            forall|i: int|
                0 <= i < lines@.len() ==> #[trigger] lines@[i]@ == lines@.map_values(
                    |x: String| x@,
                )[i],
        decreases n - pos,
    {
        // Find the next newline.
        let mut j: usize = pos;
        while j < n && text.get_char(j) != '\n'
            invariant
                n == text@.len(),
                pos <= j <= n,
                forall|t: int| pos <= t < j ==> text@[t] != '\n',
            decreases n - j,
        {
            j = j + 1;
        }
        let end = if j > pos && text.get_char(j - 1) == '\r' {
            j - 1
        } else {
            j
        };
        let piece = text.substring_char(pos, end).to_owned();
        proof {
            let suffix = text@.skip(pos as int);
            let k = j - pos as int;
            assert(forall|t: int|
                0 <= t < k ==> suffix[t] == text@[pos + t] && text@[pos + t] != '\n');
            if j < n {
                assert(suffix[k] == text@[j as int]);
            }
            lemma_first_nl_is(suffix, k);
            let line = if k == suffix.len() {
                suffix
            } else {
                suffix.take(k)
            };
            assert(line =~= text@.subrange(pos as int, j as int));
            assert(strip_cr(line) =~= text@.subrange(pos as int, end as int));
            assert(piece@ == strip_cr(line));
        }
        let ghost lines_before = lines@;
        lines.push(piece);
        proof {
            assert(lines@.map_values(|x: String| x@) =~= lines_before.map_values(|x: String| x@)
                + seq![piece@]);
        }
        if j < n {
            proof {
                let suffix = text@.skip(pos as int);
                let k = j - pos as int;
                assert(split_lines_spec(suffix) == seq![strip_cr(suffix.take(k))]
                    + split_lines_spec(suffix.skip(k + 1)));
                assert(suffix.skip(k + 1) =~= text@.skip(j + 1));
                assert(lines@.map_values(|x: String| x@) + split_lines_spec(text@.skip(j + 1))
                    =~= lines_before.map_values(|x: String| x@) + split_lines_spec(suffix));
            }
            pos = j + 1;
        } else {
            proof {
                let suffix = text@.skip(pos as int);
                assert(split_lines_spec(suffix) == seq![strip_cr(suffix)]);
                assert(text@.skip(n as int) =~= Seq::<char>::empty());
                assert(split_lines_spec(text@.skip(n as int)) =~= Seq::<Seq<char>>::empty());
                assert(lines@.map_values(|x: String| x@) + split_lines_spec(text@.skip(n as int))
                    =~= lines_before.map_values(|x: String| x@) + split_lines_spec(suffix));
            }
            pos = n;
        }
    }
    proof {
        assert(text@.skip(pos as int) =~= Seq::<char>::empty());
        assert(split_lines_spec(text@.skip(pos as int)) =~= Seq::<Seq<char>>::empty());
        assert(split_lines_spec(text@) =~= lines@.map_values(|x: String| x@));
    }
    lines
}

/// The first whitespace-separated token of a line, as a fresh string;
/// empty when the line is blank.
pub fn first_token_of(line: &str) -> (r: String)
    ensures
        r@ == first_token(line@),
{
    let n = line.unicode_len();
    let mut p: usize = 0;
    while p < n && is_ws_char(line.get_char(p))
        invariant
            n == line@.len(),
            0 <= p <= n,
            forall|j: int| 0 <= j < p ==> is_ws(line@[j]),
        decreases n - p,
    {
        p = p + 1;
    }
    let mut q: usize = p;
    while q < n && !is_ws_char(line.get_char(q))
        invariant
            n == line@.len(),
            p <= q <= n,
            forall|j: int| p <= j < q ==> !is_ws(line@[j]),
        decreases n - q,
    {
        q = q + 1;
    }
    let tok = line.substring_char(p, q).to_owned();
    proof {
        lemma_trim_front_is(line@, p as int);
        let rest = line@.skip(p as int);
        assert(forall|j: int|
            0 <= j < q - p ==> rest[j] == line@[p + j] && !is_ws(line@[p + j]));
        if q < n {
            assert(rest[q - p as int] == line@[q as int]);
        }
        lemma_until_ws_is(rest, q - p as int);
        assert(rest.take(q - p as int) =~= line@.subrange(p as int, q as int));
    }
    tok
}

/// Whether a service probe's output reads `active` once trimmed, ignoring
/// ASCII case.
pub fn reports_active(probe: &str) -> (r: bool)
    ensures
        r == (lower_seq(trim_spec(probe@)) == "active"@),
{
    proof {
        reveal_strlit("active");
    }
    let n = probe.unicode_len();
    let mut p: usize = 0;
    while p < n && is_ws_char(probe.get_char(p))
        invariant
            n == probe@.len(),
            0 <= p <= n,
            forall|j: int| 0 <= j < p ==> is_ws(probe@[j]),
        decreases n - p,
    {
        p = p + 1;
    }
    if p == n {
        // All whitespace: the trimmed text is empty.
        proof {
            lemma_trim_front_is(probe@, p as int);
            assert(probe@.skip(n as int) =~= Seq::<char>::empty());
            lemma_trim_back_is(Seq::<char>::empty(), 0);
            assert(lower_seq(trim_spec(probe@)) =~= Seq::<char>::empty());
            assert("active"@.len() == 6);
        }
        return false;
    }
    let mut q: usize = n;
    while q > p && is_ws_char(probe.get_char(q - 1))
        invariant
            n == probe@.len(),
            p <= q <= n,
            p < n,
            !is_ws(probe@[p as int]),
            forall|j: int| q <= j < n ==> is_ws(probe@[j]),
        decreases q,
    {
        q = q - 1;
    }
    proof {
        lemma_trim_front_is(probe@, p as int);
        let rest = probe@.skip(p as int);
        assert(forall|j: int|
            q - p <= j < rest.len() ==> rest[j] == probe@[p + j] && is_ws(probe@[p + j]));
        assert(rest[q - 1 - p as int] == probe@[q - 1]);
        lemma_trim_back_is(rest, q - p as int);
        assert(trim_spec(probe@) =~= probe@.subrange(p as int, q as int));
    }
    // Compare the trimmed text with "active", ignoring ASCII case.
    if q - p != 6 {
        proof {
            assert(lower_seq(trim_spec(probe@)).len() == q - p as int);
        }
        return false;
    }
    let mut i: usize = 0;
    let mut all_eq: bool = true;
    let pattern = "active";
    while i < 6
        invariant
            n == probe@.len(),
            0 <= p,
            p + 6 == q,
            q <= n,
            0 <= i <= 6,
            pattern@ == "active"@,
            pattern@.len() == 6,
            trim_spec(probe@) == probe@.subrange(p as int, q as int),
            all_eq ==> forall|t: int|
                0 <= t < i ==> lower_char(probe@[p + t]) == #[trigger] "active"@[t],
            !all_eq ==> lower_seq(trim_spec(probe@)) != "active"@,
        decreases 6 - i,
    {
        let c = lower(probe.get_char(p + i));
        let e = pattern.get_char(i);
        if c != e {
            proof {
                assert(lower_seq(trim_spec(probe@))[i as int] == lower_char(probe@[p + i]));
            }
            all_eq = false;
        }
        i = i + 1;
    }
    proof {
        if all_eq {
            assert(lower_seq(trim_spec(probe@)) =~= "active"@);
        }
    }
    all_eq
}

} // verus!
