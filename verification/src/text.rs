//! Character and string helpers shared by the chat logic: character classes,
//! substring search, whitespace tokenisation and decimal rendering.
use vstd::prelude::*;

verus! {

/// ASCII letters and digits.
pub open spec fn is_ascii_alnum(c: char) -> bool {
    ||| ('0' <= c && c <= '9')
    ||| ('a' <= c && c <= 'z')
    ||| ('A' <= c && c <= 'Z')
}

/// The Unicode `White_Space` property, as `char::is_whitespace` documents it.
pub open spec fn is_white_space(c: char) -> bool {
    ||| ('\u{9}' <= c && c <= '\u{d}')
    ||| c == ' '
    ||| c == '\u{85}'
    ||| c == '\u{a0}'
    ||| c == '\u{1680}'
    ||| ('\u{2000}' <= c && c <= '\u{200a}')
    ||| c == '\u{2028}'
    ||| c == '\u{2029}'
    ||| c == '\u{202f}'
    ||| c == '\u{205f}'
    ||| c == '\u{3000}'
}

pub fn ascii_alnum(c: char) -> (b: bool)
    ensures
        b == is_ascii_alnum(c),
{
    ('0' <= c && c <= '9') || ('a' <= c && c <= 'z') || ('A' <= c && c <= 'Z')
}

pub fn white_space(c: char) -> (b: bool)
    ensures
        b == is_white_space(c),
{
    ('\u{9}' <= c && c <= '\u{d}') || c == ' ' || c == '\u{85}' || c == '\u{a0}' || c
        == '\u{1680}' || ('\u{2000}' <= c && c <= '\u{200a}') || c == '\u{2028}' || c
        == '\u{2029}' || c == '\u{202f}' || c == '\u{205f}' || c == '\u{3000}'
}

/// The characters of a string slice, in order.
pub fn chars_of(s: &str) -> (out: Vec<char>)
    ensures
        out@ == s@,
{
    let mut out: Vec<char> = Vec::new();
    for c in it: s.chars()
        invariant
            out@ == it.seq().take(it.index() as int),
            it.seq() == s@,
    {
        out.push(c);
    }
    out
}

/// Appends one character to a string (`String::push`).
#[verifier::external_body]
pub(crate) fn push_char(s: &mut String, c: char)
    ensures
        final(s)@ == old(s)@.push(c),
{
    s.push(c);
}

/// Appends characters to a string.
pub fn push_chars(s: &mut String, cs: &[char])
    ensures
        final(s)@ == old(s)@ + cs@,
{
    let n = cs.len();
    for i in 0..n
        invariant
            n == cs@.len(),
            s@ == old(s)@ + cs@.take(i as int),
    {
        push_char(s, cs[i]);
        assert(cs@.take(i + 1) == cs@.take(i as int).push(cs@[i as int]));
    }
    assert(cs@.take(n as int) == cs@);
}

/// Appends a string slice to a string.
pub fn push_str(s: &mut String, t: &str)
    ensures
        final(s)@ == old(s)@ + t@,
{
    let cs = chars_of(t);
    push_chars(s, cs.as_slice());
}

/// A string made of the given characters.
pub fn string_of(cs: &[char]) -> (s: String)
    ensures
        s@ == cs@,
{
    let mut s = String::new();
    push_chars(&mut s, cs);
    s
}

/// The full Unicode lowercase mapping of a string, as `str::to_lowercase` computes it.
pub uninterp spec fn lowercase_of(s: Seq<char>) -> Seq<char>;

/// Calls `str::to_lowercase`; its result is named `lowercase_of` of the argument's characters.
#[verifier::external_body]
pub(crate) fn to_lowercase(s: &str) -> (out: String)
    ensures
        out@ == lowercase_of(s@),
{
    s.to_lowercase()
}

/// Whether two character sequences are equal, element by element.
pub fn chars_eq(a: &[char], b: &[char]) -> (r: bool)
    ensures
        r == (a@ == b@),
{
    if a.len() != b.len() {
        return false;
    }
    let n = a.len();
    for i in 0..n
        invariant
            n == a@.len(),
            n == b@.len(),
            a@.take(i as int) == b@.take(i as int),
    {
        if a[i] != b[i] {
            return false;
        }
        assert(a@.take(i + 1) == a@.take(i as int).push(a@[i as int]));
        assert(b@.take(i + 1) == b@.take(i as int).push(b@[i as int]));
    }
    assert(a@.take(n as int) == a@);
    assert(b@.take(n as int) == b@);
    true
}

/// Whether two string slices hold the same characters.
pub fn str_eq(a: &str, b: &str) -> (r: bool)
    ensures
        r == (a@ == b@),
{
    let x = chars_of(a);
    let y = chars_of(b);
    chars_eq(x.as_slice(), y.as_slice())
}

/// `needle` occurs in `hay` starting at position `i`.
pub open spec fn occurs_at(hay: Seq<char>, needle: Seq<char>, i: int) -> bool {
    &&& 0 <= i
    &&& i + needle.len() <= hay.len()
    &&& hay.subrange(i, i + needle.len()) == needle
}

/// `needle` is a substring of `hay` (the empty sequence is a substring of everything).
pub open spec fn contains_seq(hay: Seq<char>, needle: Seq<char>) -> bool {
    exists|i: int| occurs_at(hay, needle, i)
}

/// `prefix` is a prefix of `s`.
pub open spec fn starts_with_seq(s: Seq<char>, prefix: Seq<char>) -> bool {
    prefix.len() <= s.len() && s.take(prefix.len() as int) == prefix
}

/// `suffix` is a suffix of `s`.
pub open spec fn ends_with_seq(s: Seq<char>, suffix: Seq<char>) -> bool {
    suffix.len() <= s.len() && s.skip(s.len() - suffix.len()) == suffix
}

fn occurs_at_exec(hay: &[char], needle: &[char], i: usize) -> (r: bool)
    requires
        i + needle@.len() <= hay@.len(),
    ensures
        r == occurs_at(hay@, needle@, i as int),
{
    let n = needle.len();
    let hl = hay.len();
    for j in 0..n
        invariant
            n == needle@.len(),
            hl == hay@.len(),
            i + n <= hay@.len(),
            hay@.subrange(i as int, i + j) == needle@.take(j as int),
    {
        assert(j < n);
        let k = i + j;
        if hay[k] != needle[j] {
            assert(hay@.subrange(i as int, i + n)[j as int] != needle@[j as int]);
            return false;
        }
        assert(hay@.subrange(i as int, i + j + 1) == hay@.subrange(i as int, i + j).push(
            hay@[i + j],
        ));
        assert(needle@.take(j + 1) == needle@.take(j as int).push(needle@[j as int]));
    }
    assert(needle@.take(n as int) == needle@);
    true
}

/// Substring search over character slices.
pub fn chars_contain(hay: &[char], needle: &[char]) -> (r: bool)
    ensures
        r == contains_seq(hay@, needle@),
{
    if needle.len() > hay.len() {
        assert forall|i: int| !occurs_at(hay@, needle@, i) by {}
        return false;
    }
    let last = hay.len() - needle.len();
    let mut i: usize = 0;
    while i < last
        invariant
            last == hay@.len() - needle@.len(),
            i <= last,
            forall|k: int| 0 <= k < i ==> !occurs_at(hay@, needle@, k),
        decreases last - i,
    {
        if occurs_at_exec(hay, needle, i) {
            return true;
        }
        i = i + 1;
    }
    if occurs_at_exec(hay, needle, last) {
        return true;
    }
    assert forall|k: int| !occurs_at(hay@, needle@, k) by {
        if 0 <= k < i {
        }
    }
    false
}

/// Substring search over string slices (`str::contains` with a string pattern).
pub fn str_contains(hay: &str, needle: &str) -> (r: bool)
    ensures
        r == contains_seq(hay@, needle@),
{
    let h = chars_of(hay);
    let n = chars_of(needle);
    chars_contain(h.as_slice(), n.as_slice())
}

/// Prefix test over character slices.
pub fn chars_start_with(s: &[char], prefix: &[char]) -> (r: bool)
    ensures
        r == starts_with_seq(s@, prefix@),
{
    if prefix.len() > s.len() {
        return false;
    }
    let r = occurs_at_exec(s, prefix, 0);
    assert(s@.subrange(0, prefix@.len() as int) == s@.take(prefix@.len() as int));
    r
}

/// Prefix test over string slices (`str::starts_with` with a string pattern).
pub fn str_starts_with(s: &str, prefix: &str) -> (r: bool)
    ensures
        r == starts_with_seq(s@, prefix@),
{
    let a = chars_of(s);
    let b = chars_of(prefix);
    chars_start_with(a.as_slice(), b.as_slice())
}

/// Whether a string's first character is `c` (`str::starts_with` with a `char` pattern).
pub fn starts_with_char(s: &str, c: char) -> (r: bool)
    ensures
        r == (s@.len() > 0 && s@[0] == c),
{
    let cs = chars_of(s);
    cs.len() > 0 && cs[0] == c
}

/// Whether a string's last character is `c` (`str::ends_with` with a `char` pattern).
pub fn ends_with_char(s: &str, c: char) -> (r: bool)
    ensures
        r == (s@.len() > 0 && s@.last() == c),
{
    let cs = chars_of(s);
    cs.len() > 0 && cs[cs.len() - 1] == c
}

/// Splitting on runs of white space, read left to right: `done` holds the finished words and
/// `cur` the word being read.
pub open spec fn words_from(s: Seq<char>, done: Seq<Seq<char>>, cur: Seq<char>) -> Seq<Seq<char>>
    decreases s.len(),
{
    if s.len() == 0 {
        if cur.len() > 0 {
            done.push(cur)
        } else {
            done
        }
    } else if is_white_space(s[0]) {
        words_from(s.drop_first(), if cur.len() > 0 { done.push(cur) } else { done }, seq![])
    } else {
        words_from(s.drop_first(), done, cur.push(s[0]))
    }
}

/// The maximal runs of non-white-space characters of `s`, in order (`str::split_whitespace`).
pub open spec fn words(s: Seq<char>) -> Seq<Seq<char>> {
    words_from(s, seq![], seq![])
}

/// The words of a character slice.
pub fn split_whitespace_chars(s: &[char]) -> (out: Vec<Vec<char>>)
    ensures
        out@.len() == words(s@).len(),
        forall|k: int| 0 <= k < out@.len() ==> #[trigger] out@[k]@ == words(s@)[k],
{
    let mut out: Vec<Vec<char>> = Vec::new();
    let mut cur: Vec<char> = Vec::new();
    let n = s.len();
    let ghost done: Seq<Seq<char>> = seq![];
    assert(s@.skip(0) == s@);
    for i in 0..n
        invariant
            n == s@.len(),
            out@.len() == done.len(),
            forall|k: int| 0 <= k < out@.len() ==> #[trigger] out@[k]@ == done[k],
            words(s@) == words_from(s@.skip(i as int), done, cur@),
    {
        assert(s@.skip(i as int).drop_first() == s@.skip(i + 1));
        let c = s[i];
        if white_space(c) {
            if cur.len() > 0 {
                proof {
                    done = done.push(cur@);
                }
                out.push(cur);
                cur = Vec::new();
            } else {
                assert(cur@ == Seq::<char>::empty());
            }
        } else {
            cur.push(c);
        }
    }
    assert(s@.skip(n as int).len() == 0);
    if cur.len() > 0 {
        proof {
            done = done.push(cur@);
        }
        out.push(cur);
    }
    out
}

/// Appends the decimal digit `d` (below ten) to a spec sequence.
pub open spec fn digit_char(d: nat) -> char {
    if d == 0 {
        '0'
    } else if d == 1 {
        '1'
    } else if d == 2 {
        '2'
    } else if d == 3 {
        '3'
    } else if d == 4 {
        '4'
    } else if d == 5 {
        '5'
    } else if d == 6 {
        '6'
    } else if d == 7 {
        '7'
    } else if d == 8 {
        '8'
    } else {
        '9'
    }
}

/// The decimal rendering of a natural number, without leading zeros.
pub open spec fn decimal(n: nat) -> Seq<char>
    decreases n,
{
    if n < 10 {
        seq![digit_char(n)]
    } else {
        decimal(n / 10).push(digit_char(n % 10))
    }
}

fn digit(d: u64) -> (c: char)
    requires
        d < 10,
    ensures
        c == digit_char(d as nat),
{
    if d == 0 {
        '0'
    } else if d == 1 {
        '1'
    } else if d == 2 {
        '2'
    } else if d == 3 {
        '3'
    } else if d == 4 {
        '4'
    } else if d == 5 {
        '5'
    } else if d == 6 {
        '6'
    } else if d == 7 {
        '7'
    } else if d == 8 {
        '8'
    } else {
        '9'
    }
}

/// Appends the decimal rendering of `n`.
pub fn push_decimal(s: &mut String, n: u64)
    ensures
        final(s)@ == old(s)@ + decimal(n as nat),
    decreases n,
{
    if n >= 10 {
        push_decimal(s, n / 10);
    }
    push_char(s, digit(n % 10));
}

/// `s` without its leading white space.
pub open spec fn trim_start_seq(s: Seq<char>) -> Seq<char>
    decreases s.len(),
{
    if s.len() > 0 && is_white_space(s[0]) {
        trim_start_seq(s.drop_first())
    } else {
        s
    }
}

/// `s` without its trailing white space.
pub open spec fn trim_end_seq(s: Seq<char>) -> Seq<char>
    decreases s.len(),
{
    if s.len() > 0 && is_white_space(s.last()) {
        trim_end_seq(s.drop_last())
    } else {
        s
    }
}

/// `s` without leading and trailing white space (`str::trim`).
pub open spec fn trim_seq(s: Seq<char>) -> Seq<char> {
    trim_end_seq(trim_start_seq(s))
}

/// `s` without leading and trailing white space.
pub fn trim_chars(s: &[char]) -> (out: Vec<char>)
    ensures
        out@ == trim_seq(s@),
{
    let n = s.len();
    let mut start: usize = 0;
    assert(s@.skip(0) == s@);
    while start < n && white_space(s[start])
        invariant
            n == s@.len(),
            start <= n,
            trim_start_seq(s@) == trim_start_seq(s@.skip(start as int)),
        decreases n - start,
    {
        assert(s@.skip(start as int).drop_first() == s@.skip(start + 1));
        start = start + 1;
    }
    assert(trim_start_seq(s@) == s@.skip(start as int)) by {
        assert(s@.skip(start as int).len() == 0 || !is_white_space(s@.skip(start as int)[0]));
    }
    let mut end: usize = n;
    while end > start && white_space(s[end - 1])
        invariant
            n == s@.len(),
            start <= end <= n,
            trim_seq(s@) == trim_end_seq(s@.subrange(start as int, end as int)),
            trim_start_seq(s@) == s@.skip(start as int),
        decreases end - start,
    {
        assert(s@.subrange(start as int, end as int).drop_last() == s@.subrange(start as int, end - 1));
        end = end - 1;
    }
    assert(s@.skip(start as int) == s@.subrange(start as int, n as int));
    let mut out: Vec<char> = Vec::new();
    for i in start..end
        invariant
            start <= end <= n,
            n == s@.len(),
            out@ == s@.subrange(start as int, i as int),
    {
        out.push(s[i]);
        assert(s@.subrange(start as int, i + 1) == s@.subrange(start as int, i as int).push(s@[i as int]));
    }
    proof {
        let t = s@.subrange(start as int, end as int);
        assert(t.len() == 0 || !is_white_space(t.last()));
    }
    out
}

/// `s` without leading and trailing white space.
pub fn trim(s: &str) -> (out: String)
    ensures
        out@ == trim_seq(s@),
{
    let cs = chars_of(s);
    let t = trim_chars(cs.as_slice());
    string_of(t.as_slice())
}

/// Splitting at every occurrence of a separator, read left to right: `done` holds the finished
/// pieces and `cur` the piece being read.
pub open spec fn split_from(
    s: Seq<char>,
    sep: Seq<char>,
    done: Seq<Seq<char>>,
    cur: Seq<char>,
) -> Seq<Seq<char>>
    decreases s.len(),
{
    if s.len() == 0 {
        done.push(cur)
    } else if sep.len() > 0 && starts_with_seq(s, sep) {
        split_from(s.skip(sep.len() as int), sep, done.push(cur), seq![])
    } else {
        split_from(s.drop_first(), sep, done, cur.push(s[0]))
    }
}

/// The pieces of `s` between occurrences of a non-empty separator, found left to right
/// (`str::split` with a string pattern).
pub open spec fn split_seq(s: Seq<char>, sep: Seq<char>) -> Seq<Seq<char>> {
    split_from(s, sep, seq![], seq![])
}

/// The pieces of a character slice between occurrences of a non-empty separator.
pub fn split_chars(s: &[char], sep: &[char]) -> (out: Vec<Vec<char>>)
    requires
        sep@.len() > 0,
    ensures
        out@.len() == split_seq(s@, sep@).len(),
        forall|k: int| 0 <= k < out@.len() ==> #[trigger] out@[k]@ == split_seq(s@, sep@)[k],
{
    let mut out: Vec<Vec<char>> = Vec::new();
    let mut cur: Vec<char> = Vec::new();
    let n = s.len();
    let m = sep.len();
    let ghost done: Seq<Seq<char>> = seq![];
    let mut i: usize = 0;
    assert(s@.skip(0) == s@);
    while i < n
        invariant
            n == s@.len(),
            m == sep@.len(),
            m > 0,
            i <= n,
            out@.len() == done.len(),
            forall|k: int| 0 <= k < out@.len() ==> #[trigger] out@[k]@ == done[k],
            split_seq(s@, sep@) == split_from(s@.skip(i as int), sep@, done, cur@),
        decreases n - i,
    {
        let ghost rest = s@.skip(i as int);
        let at_sep = if m <= n - i {
            let mut same = true;
            let mut j: usize = 0;
            assert(s@.subrange(i as int, i as int) =~= sep@.take(0));
            while j < m
                invariant
                    m == sep@.len(),
                    i + m <= n,
                    n == s@.len(),
                    j <= m,
                    same == (s@.subrange(i as int, i + j) == sep@.take(j as int)),
                decreases m - j,
            {
                if s[i + j] != sep[j] {
                    if same {
                        assert(s@.subrange(i as int, i + j + 1)[j as int] != sep@.take(j + 1)[j as int]);
                    }
                    same = false;
                } else {
                    if same {
                        assert(s@.subrange(i as int, i + j + 1) == s@.subrange(i as int, i + j).push(s@[i + j]));
                        assert(sep@.take(j + 1) == sep@.take(j as int).push(sep@[j as int]));
                    }
                }
                if !same {
                    assert(s@.subrange(i as int, i + j + 1) != sep@.take(j + 1)) by {
                        if s@.subrange(i as int, i + j + 1) == sep@.take(j + 1) {
                            assert(s@.subrange(i as int, i + j + 1).take(j as int) == s@.subrange(i as int, i + j));
                            assert(sep@.take(j + 1).take(j as int) == sep@.take(j as int));
                        }
                    }
                }
                j = j + 1;
            }
            assert(sep@.take(m as int) == sep@);
            assert(rest.take(m as int) == s@.subrange(i as int, i + m));
            same
        } else {
            false
        };
        assert(at_sep == starts_with_seq(rest, sep@));
        if at_sep {
            proof {
                done = done.push(cur@);
            }
            out.push(cur);
            cur = Vec::new();
            assert(rest.skip(m as int) == s@.skip(i + m));
            i = i + m;
        } else {
            cur.push(s[i]);
            assert(rest.drop_first() == s@.skip(i + 1));
            i = i + 1;
        }
    }
    proof {
        done = done.push(cur@);
    }
    out.push(cur);
    out
}

} // verus!
