//! Character-level text helpers shared by the protocol code.
//!
//! Strings are handled as sequences of `char`s: `s@` is the `Seq<char>` of a
//! `String` or `&str`. Each helper here states, as a spec function, the
//! behaviour of the `str`/integer operation of std that the protocol code
//! relies on, and is proved against that statement.

use vstd::prelude::*;

verus! {

/// The characters of a string, in order.
pub fn chars_of(s: &str) -> (res: Vec<char>)
    ensures
        res@ == s@,
{
    let mut res: Vec<char> = Vec::new();
    for c in it: s.chars()
        invariant
            res@ == it.seq().take(it.index() as int),
            it.seq() == s@,
    {
        res.push(c);
    }
    res
}

/// Appends one character to a string (`String::push`).
#[verifier::external_body]
pub(crate) fn push_char(s: &mut String, c: char)
    ensures
        final(s)@ == old(s)@.push(c),
{
    s.push(c);
}

/// A new string holding the given characters.
pub fn string_from_chars(cs: &[char]) -> (res: String)
    ensures
        res@ == cs@,
{
    let mut res = String::new();
    let mut i: usize = 0;
    while i < cs.len()
        invariant
            i <= cs@.len(),
            res@ == cs@.take(i as int),
        decreases cs@.len() - i,
    {
        push_char(&mut res, cs[i]);
        i = i + 1;
        assert(res@ =~= cs@.take(i as int));
    }
    assert(cs@.take(cs@.len() as int) =~= cs@);
    res
}

/// An owned copy of a string slice.
pub fn owned(s: &str) -> (res: String)
    ensures
        res@ == s@,
{
    let mut res = String::new();
    res.append(s);
    assert(res@ =~= s@);
    res
}

/// The concatenation of two string slices.
pub fn concat2(a: &str, b: &str) -> (res: String)
    ensures
        res@ == a@ + b@,
{
    let mut res = owned(a);
    res.append(b);
    res
}

/// The concatenation of three string slices.
pub fn concat3(a: &str, b: &str, c: &str) -> (res: String)
    ensures
        res@ == a@ + b@ + c@,
{
    let mut res = concat2(a, b);
    res.append(c);
    res
}

/// Whether two character slices are equal.
pub fn chars_eq(a: &[char], b: &[char]) -> (res: bool)
    ensures
        res == (a@ == b@),
{
    if a.len() != b.len() {
        return false;
    }
    let mut i: usize = 0;
    while i < a.len()
        invariant
            a@.len() == b@.len(),
            i <= a@.len(),
            forall|j: int| 0 <= j < i ==> a@[j] == b@[j],
        decreases a@.len() - i,
    {
        if a[i] != b[i] {
            return false;
        }
        i = i + 1;
    }
    assert(a@ =~= b@);
    true
}

/// Whether two strings are equal.
pub fn str_eq(a: &str, b: &str) -> (res: bool)
    ensures
        res == (a@ == b@),
{
    let ca = chars_of(a);
    let cb = chars_of(b);
    chars_eq(ca.as_slice(), cb.as_slice())
}

// ---------------------------------------------------------------------------
// Decimal rendering of integers (what `Display` of std's integer types writes)
// ---------------------------------------------------------------------------

/// The ASCII digit for a value below ten.
pub open spec fn digit_char(d: nat) -> char {
    (d + 48) as char
}

/// The decimal digits of a natural number, without sign or leading zeros.
pub open spec fn decimal(n: nat) -> Seq<char>
    decreases n,
{
    if n < 10 {
        seq![digit_char(n)]
    } else {
        decimal(n / 10).push(digit_char(n % 10))
    }
}

fn digit(d: u64) -> (c: char)
    requires
        d < 10,
    ensures
        c == digit_char(d as nat),
{
    let b: u8 = (d as u8) + 48;
    b as char
}

fn push_decimal(out: &mut String, n: u64)
    ensures
        final(out)@ == old(out)@ + decimal(n as nat),
    decreases n,
{
    if n >= 10 {
        push_decimal(out, n / 10);
    }
    push_char(out, digit(n % 10));
    assert(final(out)@ =~= old(out)@ + decimal(n as nat));
}

/// The decimal rendering of an unsigned integer (`u64::to_string`).
pub fn u64_to_decimal(n: u64) -> (res: String)
    ensures
        res@ == decimal(n as nat),
{
    let mut res = String::new();
    push_decimal(&mut res, n);
    assert(res@ =~= decimal(n as nat));
    res
}

// ---------------------------------------------------------------------------
// Parsing unsigned decimal integers (`usize::from_str`)
// ---------------------------------------------------------------------------

/// Whether a character is an ASCII decimal digit.
pub open spec fn is_digit(c: char) -> bool {
    '0' <= c && c <= '9'
}

/// The value of a sequence of decimal digits.
pub open spec fn digits_value(s: Seq<char>) -> nat
    decreases s.len(),
{
    if s.len() == 0 {
        0
    } else {
        digits_value(s.drop_last()) * 10 + ((s.last() as int) - 48) as nat
    }
}

/// The digits part of an unsigned integer's text: all after an optional `+`.
pub open spec fn unsigned_body(s: Seq<char>) -> Seq<char> {
    if s.len() > 0 && s[0] == '+' {
        s.skip(1)
    } else {
        s
    }
}

/// Whether every character is an ASCII digit.
pub open spec fn all_digits(s: Seq<char>) -> bool {
    forall|i: int| 0 <= i < s.len() ==> is_digit(#[trigger] s[i])
}

/// What `usize::from_str` gives back: an optional `+` sign followed by at
/// least one ASCII digit, with a value that fits in `usize`.
pub open spec fn parse_usize_spec(s: Seq<char>) -> Option<usize> {
    let body = unsigned_body(s);
    if body.len() > 0 && all_digits(body) && digits_value(body) <= usize::MAX {
        Some(digits_value(body) as usize)
    } else {
        None
    }
}

proof fn lemma_digits_value_grows(s: Seq<char>, k: int)
    requires
        0 <= k <= s.len(),
        all_digits(s),
    ensures
        digits_value(s.take(k)) <= digits_value(s),
    decreases s.len() - k,
{
    if k < s.len() {
        lemma_digits_value_grows(s, k + 1);
        assert(s.take(k + 1).drop_last() =~= s.take(k));
        assert(is_digit(s[k]));
    } else {
        assert(s.take(k) =~= s);
    }
}

/// Parses a decimal unsigned integer as `usize::from_str` does.
pub fn parse_usize(s: &[char]) -> (res: Option<usize>)
    ensures
        res == parse_usize_spec(s@),
{
    let start: usize = if s.len() > 0 && s[0] == '+' { 1 } else { 0 };
    let ghost body = unsigned_body(s@);
    assert(body =~= s@.skip(start as int));
    if start >= s.len() {
        assert(body.len() == 0);
        return None;
    }
    let mut acc: usize = 0;
    let mut i: usize = start;
    while i < s.len()
        invariant
            start <= i <= s@.len(),
            start < s@.len(),
            body == s@.skip(start as int),
            body == unsigned_body(s@),
            forall|j: int| 0 <= j < i - start ==> is_digit(#[trigger] body[j]),
            acc as nat == digits_value(body.take(i - start)),
        decreases s@.len() - i,
    {
        let c = s[i];
        if !('0' <= c && c <= '9') {
            assert(body[i - start] == c);
            assert(!is_digit(body[i - start]));
            return None;
        }
        let d: usize = ((c as u32) - 48) as usize;
        assert(body.take(i + 1 - start).drop_last() =~= body.take(i - start));
        assert(body[i - start] == c);
        if acc > (usize::MAX - d) / 10 {
            proof {
                assert(digits_value(body.take(i + 1 - start)) == acc * 10 + d);
                assert(acc * 10 + d > usize::MAX) by (nonlinear_arith)
                    requires
                        acc > (usize::MAX - d) / 10,
                        d <= 9,
                ;
                if all_digits(body) {
                    lemma_digits_value_grows(body, i + 1 - start);
                }
            }
            return None;
        }
        acc = acc * 10 + d;
        i = i + 1;
    }
    assert(body.take(i - start) =~= body);
    Some(acc)
}

// ---------------------------------------------------------------------------
// Searching and splitting (`str::find`, `str::split`, `str::lines`, ...)
// ---------------------------------------------------------------------------

/// The character sequences held by a vector of character vectors.
pub open spec fn views(v: Seq<Vec<char>>) -> Seq<Seq<char>> {
    v.map_values(|x: Vec<char>| x@)
}

/// The number of leading characters that differ from `c`: the index of the
/// first `c`, or the length when there is none.
pub open spec fn first_index(s: Seq<char>, c: char) -> nat
    decreases s.len(),
{
    if s.len() == 0 {
        0
    } else if s[0] == c {
        0
    } else {
        1 + first_index(s.skip(1), c)
    }
}

/// Bounds and meaning of [`first_index`].
pub proof fn lemma_first_index(s: Seq<char>, c: char)
    ensures
        first_index(s, c) <= s.len(),
        forall|j: int| 0 <= j < first_index(s, c) ==> s[j] != c,
        first_index(s, c) < s.len() ==> s[first_index(s, c) as int] == c,
    decreases s.len(),
{
    if s.len() > 0 && s[0] != c {
        lemma_first_index(s.skip(1), c);
        assert forall|j: int| 0 <= j < first_index(s, c) implies s[j] != c by {
            if j > 0 {
                assert(s[j] == s.skip(1)[j - 1]);
            }
        }
    }
}

/// The pieces of `s` between occurrences of `c`, as `str::split` gives them.
pub open spec fn split_char(s: Seq<char>, c: char) -> Seq<Seq<char>>
    decreases s.len(),
{
    let k = first_index(s, c);
    if k >= s.len() {
        seq![s]
    } else {
        seq![s.take(k as int)] + split_char(s.skip(k + 1 as int), c)
    }
}

/// A line without the carriage return that ends it, if any.
pub open spec fn strip_cr(s: Seq<char>) -> Seq<char> {
    if s.len() > 0 && s.last() == '\r' {
        s.drop_last()
    } else {
        s
    }
}

/// The lines of `s` as `str::lines` gives them: split at `\n`, a `\r` just
/// before the `\n` dropped, and no empty last line after a final `\n`.
pub open spec fn lines(s: Seq<char>) -> Seq<Seq<char>>
    decreases s.len(),
{
    if s.len() == 0 {
        seq![]
    } else {
        let k = first_index(s, '\n');
        if k >= s.len() {
            seq![s]
        } else {
            seq![strip_cr(s.take(k as int))] + lines(s.skip(k + 1 as int))
        }
    }
}

/// Index of the first character at or after `from` that equals `c`, or the
/// length of `cs` when there is none.
pub fn find_char_from(cs: &[char], from: usize, c: char) -> (res: usize)
    requires
        from <= cs@.len(),
    ensures
        res == from + first_index(cs@.skip(from as int), c),
{
    let mut i = from;
    while i < cs.len()
        invariant
            from <= i <= cs@.len(),
            first_index(cs@.skip(from as int), c) == (i - from) + first_index(cs@.skip(i as int), c),
        decreases cs@.len() - i,
    {
        if cs[i] == c {
            return i;
        }
        assert(cs@.skip(i as int).skip(1) =~= cs@.skip(i + 1));
        i = i + 1;
    }
    i
}

/// The characters `cs[a..b]`.
pub fn sub_chars(cs: &[char], a: usize, b: usize) -> (res: Vec<char>)
    requires
        a <= b <= cs@.len(),
    ensures
        res@ == cs@.subrange(a as int, b as int),
{
    let mut res: Vec<char> = Vec::new();
    let mut i = a;
    while i < b
        invariant
            a <= i <= b <= cs@.len(),
            res@ == cs@.subrange(a as int, i as int),
        decreases b - i,
    {
        res.push(cs[i]);
        i = i + 1;
        assert(res@ =~= cs@.subrange(a as int, i as int));
    }
    res
}

/// Splits `cs` at each occurrence of `c` (`str::split` with a `char`).
pub fn split_chars(cs: &[char], c: char) -> (res: Vec<Vec<char>>)
    ensures
        views(res@) == split_char(cs@, c),
{
    let mut res: Vec<Vec<char>> = Vec::new();
    let mut pos: usize = 0;
    assert(cs@.skip(0) =~= cs@);
    assert(views(res@) + split_char(cs@, c) =~= split_char(cs@, c));
    loop
        invariant
            pos <= cs@.len(),
            split_char(cs@, c) == views(res@) + split_char(cs@.skip(pos as int), c),
        decreases cs@.len() - pos,
    {
        let k = find_char_from(cs, pos, c);
        proof {
            lemma_first_index(cs@.skip(pos as int), c);
        }
        let piece = sub_chars(cs, pos, k);
        assert(piece@ =~= cs@.skip(pos as int).take((k - pos) as int));
        if k >= cs.len() {
            res.push(piece);
            assert(cs@.skip(pos as int).take((k - pos) as int) =~= cs@.skip(pos as int));
            assert(views(res@) =~= split_char(cs@, c));
            return res;
        }
        let ghost prev = res@;
        res.push(piece);
        assert(cs@.skip(pos as int).skip(k - pos + 1) =~= cs@.skip(k + 1));
        assert(views(res@) =~= views(prev).push(piece@));
        pos = k + 1;
    }
}

fn strip_cr_vec(v: Vec<char>) -> (res: Vec<char>)
    ensures
        res@ == strip_cr(v@),
{
    let ghost orig = v@;
    let mut v = v;
    if v.len() > 0 && v[v.len() - 1] == '\r' {
        v.pop();
        assert(v@ =~= strip_cr(orig));
    }
    v
}

/// The lines of `cs` (`str::lines`).
pub fn lines_of(cs: &[char]) -> (res: Vec<Vec<char>>)
    ensures
        views(res@) == lines(cs@),
{
    let mut res: Vec<Vec<char>> = Vec::new();
    let mut pos: usize = 0;
    assert(cs@.skip(0) =~= cs@);
    assert(views(res@) + lines(cs@) =~= lines(cs@));
    while pos < cs.len()
        invariant
            pos <= cs@.len(),
            lines(cs@) == views(res@) + lines(cs@.skip(pos as int)),
        decreases cs@.len() - pos,
    {
        let k = find_char_from(cs, pos, '\n');
        proof {
            lemma_first_index(cs@.skip(pos as int), '\n');
        }
        let piece = sub_chars(cs, pos, k);
        assert(piece@ =~= cs@.skip(pos as int).take((k - pos) as int));
        let ghost prev = res@;
        if k >= cs.len() {
            res.push(piece);
            assert(cs@.skip(pos as int).take((k - pos) as int) =~= cs@.skip(pos as int));
            assert(cs@.skip(cs@.len() as int) =~= Seq::<char>::empty());
            assert(views(res@) =~= views(prev).push(piece@));
            assert(lines(cs@) =~= views(res@) + lines(cs@.skip(cs@.len() as int)));
            return res;
        }
        let line = strip_cr_vec(piece);
        res.push(line);
        assert(cs@.skip(pos as int).skip(k - pos + 1) =~= cs@.skip(k + 1));
        assert(views(res@) =~= views(prev).push(line@));
        pos = k + 1;
    }
    assert(cs@.skip(pos as int) =~= Seq::<char>::empty());
    assert(views(res@) + lines(cs@.skip(pos as int)) =~= views(res@));
    res
}

/// Whether a character is white space as `char::is_whitespace` has it (the
/// Unicode `White_Space` property).
pub open spec fn is_ws(c: char) -> bool {
    ||| ('\u{9}' <= c && c <= '\u{d}')
    ||| c == ' '
    ||| c == '\u{85}'
    ||| c == '\u{a0}'
    ||| c == '\u{1680}'
    ||| ('\u{2000}' <= c && c <= '\u{200a}')
    ||| c == '\u{2028}'
    ||| c == '\u{2029}'
    ||| c == '\u{202f}'
    ||| c == '\u{205f}'
    ||| c == '\u{3000}'
}

/// Executable form of [`is_ws`].
pub fn is_whitespace(c: char) -> (res: bool)
    ensures
        res == is_ws(c),
{
    ('\u{9}' <= c && c <= '\u{d}') || c == ' ' || c == '\u{85}' || c == '\u{a0}' || c
        == '\u{1680}' || ('\u{2000}' <= c && c <= '\u{200a}') || c == '\u{2028}' || c
        == '\u{2029}' || c == '\u{202f}' || c == '\u{205f}' || c == '\u{3000}'
}

/// `s` without leading white space.
pub open spec fn trim_start(s: Seq<char>) -> Seq<char>
    decreases s.len(),
{
    if s.len() > 0 && is_ws(s[0]) {
        trim_start(s.skip(1))
    } else {
        s
    }
}

/// `s` without trailing white space.
pub open spec fn trim_end(s: Seq<char>) -> Seq<char>
    decreases s.len(),
{
    if s.len() > 0 && is_ws(s.last()) {
        trim_end(s.drop_last())
    } else {
        s
    }
}

/// `s` without leading and trailing white space (`str::trim`).
pub open spec fn trim(s: Seq<char>) -> Seq<char> {
    trim_end(trim_start(s))
}

/// The characters of `cs` without leading and trailing white space.
pub fn trim_chars(cs: &[char]) -> (res: Vec<char>)
    ensures
        res@ == trim(cs@),
{
    let mut i: usize = 0;
    assert(cs@.skip(0) =~= cs@);
    while i < cs.len() && is_whitespace(cs[i])
        invariant
            i <= cs@.len(),
            trim_start(cs@) == trim_start(cs@.skip(i as int)),
        decreases cs@.len() - i,
    {
        assert(cs@.skip(i as int).skip(1) =~= cs@.skip(i + 1));
        i = i + 1;
    }
    assert(trim_start(cs@) == cs@.skip(i as int));
    let mut j: usize = cs.len();
    assert(cs@.skip(i as int) =~= cs@.subrange(i as int, j as int));
    while j > i && is_whitespace(cs[j - 1])
        invariant
            i <= j <= cs@.len(),
            trim(cs@) == trim_end(cs@.subrange(i as int, j as int)),
        decreases j,
    {
        assert(cs@.subrange(i as int, j as int).drop_last() =~= cs@.subrange(i as int, j - 1));
        j = j - 1;
    }
    sub_chars(cs, i, j)
}

/// Number of leading characters that are not white space.
pub open spec fn first_ws(s: Seq<char>) -> nat
    decreases s.len(),
{
    if s.len() == 0 {
        0
    } else if is_ws(s[0]) {
        0
    } else {
        1 + first_ws(s.skip(1))
    }
}

/// The white-space separated words of `s` (`str::split_whitespace`).
pub open spec fn words(s: Seq<char>) -> Seq<Seq<char>>
    decreases s.len(),
{
    if s.len() == 0 {
        seq![]
    } else if is_ws(s[0]) {
        words(s.skip(1))
    } else {
        let k = first_ws(s);
        proof {
            lemma_first_ws(s);
        }
        seq![s.take(k as int)] + words(s.skip(k as int))
    }
}

/// Bounds on [`first_ws`].
pub proof fn lemma_first_ws(s: Seq<char>)
    ensures
        first_ws(s) <= s.len(),
        s.len() > 0 && !is_ws(s[0]) ==> first_ws(s) >= 1,
    decreases s.len(),
{
    if s.len() > 0 && !is_ws(s[0]) {
        lemma_first_ws(s.skip(1));
    }
}

fn find_ws_from(cs: &[char], from: usize) -> (res: usize)
    requires
        from <= cs@.len(),
    ensures
        res == from + first_ws(cs@.skip(from as int)),
{
    let mut i = from;
    while i < cs.len()
        invariant
            from <= i <= cs@.len(),
            first_ws(cs@.skip(from as int)) == (i - from) + first_ws(cs@.skip(i as int)),
        decreases cs@.len() - i,
    {
        if is_whitespace(cs[i]) {
            return i;
        }
        assert(cs@.skip(i as int).skip(1) =~= cs@.skip(i + 1));
        i = i + 1;
    }
    i
}

/// The white-space separated words of `cs` (`str::split_whitespace`).
pub fn words_of(cs: &[char]) -> (res: Vec<Vec<char>>)
    ensures
        views(res@) == words(cs@),
{
    let mut res: Vec<Vec<char>> = Vec::new();
    let mut pos: usize = 0;
    assert(cs@.skip(0) =~= cs@);
    assert(views(res@) + words(cs@) =~= words(cs@));
    while pos < cs.len()
        invariant
            pos <= cs@.len(),
            words(cs@) == views(res@) + words(cs@.skip(pos as int)),
        decreases cs@.len() - pos,
    {
        if is_whitespace(cs[pos]) {
            assert(cs@.skip(pos as int).skip(1) =~= cs@.skip(pos + 1));
            pos = pos + 1;
        } else {
            let k = find_ws_from(cs, pos);
            proof {
                lemma_first_ws(cs@.skip(pos as int));
            }
            let word = sub_chars(cs, pos, k);
            assert(word@ =~= cs@.skip(pos as int).take((k - pos) as int));
            let ghost prev = res@;
            res.push(word);
            assert(cs@.skip(pos as int).skip(k - pos) =~= cs@.skip(k as int));
            assert(views(res@) =~= views(prev).push(word@));
            pos = k;
        }
    }
    assert(cs@.skip(pos as int) =~= Seq::<char>::empty());
    assert(views(res@) + words(cs@.skip(pos as int)) =~= views(res@));
    res
}

/// Whether `s` begins with `p` (`str::starts_with`).
pub open spec fn starts_with(s: Seq<char>, p: Seq<char>) -> bool {
    p.len() <= s.len() && s.take(p.len() as int) == p
}

/// Executable form of [`starts_with`] on characters at an offset of `cs`.
pub fn starts_with_at(cs: &[char], at: usize, p: &[char]) -> (res: bool)
    requires
        at <= cs@.len(),
    ensures
        res == starts_with(cs@.skip(at as int), p@),
{
    let n = cs.len();
    if p.len() > n - at {
        return false;
    }
    let mut i: usize = 0;
    while i < p.len()
        invariant
            n == cs@.len(),
            at <= cs@.len(),
            p@.len() <= cs@.len() - at,
            i <= p@.len(),
            forall|j: int| 0 <= j < i ==> cs@[at + j] == p@[j],
        decreases p@.len() - i,
    {
        if cs[at + i] != p[i] {
            assert(cs@.skip(at as int).take(p@.len() as int)[i as int] != p@[i as int]);
            return false;
        }
        i = i + 1;
    }
    assert(cs@.skip(at as int).take(p@.len() as int) =~= p@);
    true
}

/// Whether the string `s` begins with the string `p`.
pub fn str_starts_with(s: &str, p: &str) -> (res: bool)
    ensures
        res == starts_with(s@, p@),
{
    let cs = chars_of(s);
    let ps = chars_of(p);
    assert(cs@.skip(0) =~= cs@);
    starts_with_at(cs.as_slice(), 0, ps.as_slice())
}

/// The ASCII lower-case form of a character; other characters unchanged.
pub open spec fn ascii_lower(c: char) -> char {
    if 'A' <= c && c <= 'Z' {
        ((c as int) + 32) as char
    } else {
        c
    }
}

/// Whether `s` begins with `p` when ASCII letters of `s` are taken in lower
/// case. For a lower-case ASCII `p` without the letters `i` and `k` (such as
/// `host:` or `content-length:`) this is what `s.to_lowercase().starts_with(p)`
/// answers.
pub open spec fn starts_with_ci(s: Seq<char>, p: Seq<char>) -> bool {
    p.len() <= s.len() && forall|j: int| 0 <= j < p.len() ==> ascii_lower(#[trigger] s[j]) == p[j]
}

/// Executable form of [`starts_with_ci`].
pub fn starts_with_ignore_case(cs: &[char], p: &[char]) -> (res: bool)
    ensures
        res == starts_with_ci(cs@, p@),
{
    if p.len() > cs.len() {
        return false;
    }
    let mut i: usize = 0;
    while i < p.len()
        invariant
            p@.len() <= cs@.len(),
            i <= p@.len(),
            forall|j: int| 0 <= j < i ==> ascii_lower(#[trigger] cs@[j]) == p@[j],
        decreases p@.len() - i,
    {
        let c = cs[i];
        let lc = if 'A' <= c && c <= 'Z' {
            (((c as u32) + 32) as u8) as char
        } else {
            c
        };
        assert(lc == ascii_lower(c));
        if lc != p[i] {
            return false;
        }
        i = i + 1;
    }
    true
}

/// The index of the first occurrence of `p` in `s` (`str::find`).
pub open spec fn find_sub(s: Seq<char>, p: Seq<char>) -> Option<nat>
    decreases s.len(),
{
    if s.len() < p.len() {
        None
    } else if starts_with(s, p) {
        Some(0)
    } else if s.len() == 0 {
        None
    } else {
        match find_sub(s.skip(1), p) {
            Some(k) => Some(k + 1),
            None => None,
        }
    }
}

/// Executable form of [`find_sub`].
pub fn find_chars(cs: &[char], p: &[char]) -> (res: Option<usize>)
    ensures
        match res {
            Some(k) => find_sub(cs@, p@) == Some(k as nat),
            None => find_sub(cs@, p@) is None,
        },
{
    let mut i: usize = 0;
    assert(cs@.skip(0) =~= cs@);
    while i <= cs.len()
        invariant
            i <= cs@.len() + 1,
            i <= cs@.len() ==> find_sub(cs@, p@) == (match find_sub(cs@.skip(i as int), p@) {
                Some(k) => Some((k + i) as nat),
                None => None::<nat>,
            }),
            i > cs@.len() ==> find_sub(cs@, p@) is None,
        decreases cs@.len() + 1 - i,
    {
        if p.len() > cs.len() - i {
            return None;
        }
        if starts_with_at(cs, i, p) {
            return Some(i);
        }
        if i == cs.len() {
            return None;
        }
        assert(cs@.skip(i as int).skip(1) =~= cs@.skip(i + 1));
        i = i + 1;
    }
    None
}

/// `s` with `rep` before each of its characters and at its end: what
/// replacing the empty pattern gives (`str::replace` with `""`).
pub open spec fn interleave(s: Seq<char>, rep: Seq<char>) -> Seq<char>
    decreases s.len(),
{
    if s.len() == 0 {
        rep
    } else {
        rep + seq![s[0]] + interleave(s.skip(1), rep)
    }
}

/// `s` with every occurrence of `pat` replaced by `rep`, scanning left to
/// right (`str::replace`); the empty pattern occurs before every character
/// and at the end.
pub open spec fn replace_all(s: Seq<char>, pat: Seq<char>, rep: Seq<char>) -> Seq<char>
    decreases s.len(),
{
    if pat.len() == 0 {
        interleave(s, rep)
    } else if s.len() == 0 {
        seq![]
    } else if starts_with(s, pat) {
        rep + replace_all(s.skip(pat.len() as int), pat, rep)
    } else {
        seq![s[0]] + replace_all(s.skip(1), pat, rep)
    }
}

/// `rep` before each character of `cs` and at its end.
fn interleave_chars(cs: &Vec<char>, rep: &str) -> (res: String)
    ensures
        res@ == interleave(cs@, rep@),
{
    let mut out = String::new();
    let mut i: usize = 0;
    assert(cs@.skip(0) =~= cs@);
    assert(out@ + interleave(cs@, rep@) =~= interleave(cs@, rep@));
    while i < cs.len()
        invariant
            i <= cs@.len(),
            interleave(cs@, rep@) == out@ + interleave(cs@.skip(i as int), rep@),
        decreases cs@.len() - i,
    {
        let ghost prev = out@;
        out.append(rep);
        push_char(&mut out, cs[i]);
        assert(cs@.skip(i as int).skip(1) =~= cs@.skip(i + 1));
        assert(cs@.skip(i as int)[0] == cs@[i as int]);
        assert(prev + (rep@ + seq![cs@[i as int]] + interleave(cs@.skip(i + 1), rep@)) =~= out@
            + interleave(cs@.skip(i + 1), rep@));
        i = i + 1;
    }
    assert(cs@.skip(i as int) =~= Seq::<char>::empty());
    out.append(rep);
    out
}

/// Replaces every occurrence of `pat` in `s` by `rep` (`str::replace`).
pub fn replace_str(s: &str, pat: &str, rep: &str) -> (res: String)
    ensures
        res@ == replace_all(s@, pat@, rep@),
{
    let cs = chars_of(s);
    let ps = chars_of(pat);
    if ps.len() == 0 {
        return interleave_chars(&cs, rep);
    }
    let mut out = String::new();
    let mut i: usize = 0;
    assert(cs@.skip(0) =~= cs@);
    assert(out@ + replace_all(cs@, ps@, rep@) =~= replace_all(cs@, ps@, rep@));
    while i < cs.len()
        invariant
            i <= cs@.len(),
            ps@ == pat@,
            ps@.len() > 0,
            cs@ == s@,
            replace_all(s@, pat@, rep@) == out@ + replace_all(cs@.skip(i as int), ps@, rep@),
        decreases cs@.len() - i,
    {
        if starts_with_at(cs.as_slice(), i, ps.as_slice()) {
            let ghost prev = out@;
            out.append(rep);
            assert(cs@.skip(i as int).skip(ps@.len() as int) =~= cs@.skip(i + ps@.len()));
            assert(prev + (rep@ + replace_all(cs@.skip(i + ps@.len()), ps@, rep@)) =~= out@
                + replace_all(cs@.skip(i + ps@.len()), ps@, rep@));
            i = i + ps.len();
        } else {
            let ghost prev = out@;
            push_char(&mut out, cs[i]);
            assert(cs@.skip(i as int).skip(1) =~= cs@.skip(i + 1));
            assert(prev + (seq![cs@[i as int]] + replace_all(cs@.skip(i + 1), ps@, rep@)) =~= out@
                + replace_all(cs@.skip(i + 1), ps@, rep@));
            i = i + 1;
        }
    }
    assert(cs@.skip(i as int) =~= Seq::<char>::empty());
    assert(out@ + replace_all(cs@.skip(i as int), ps@, rep@) =~= out@);
    out
}

/// The pieces of `v` joined with `sep` between them (`[T]::join`).
pub open spec fn join(v: Seq<Seq<char>>, sep: Seq<char>) -> Seq<char>
    decreases v.len(),
{
    if v.len() == 0 {
        seq![]
    } else if v.len() == 1 {
        v[0]
    } else {
        join(v.drop_last(), sep) + sep + v.last()
    }
}

/// Joins the pieces `v[from..]` with `sep` between them.
pub fn join_from(v: &Vec<Vec<char>>, from: usize, sep: &[char]) -> (res: Vec<char>)
    requires
        from <= v@.len(),
    ensures
        res@ == join(views(v@).skip(from as int), sep@),
{
    let mut res: Vec<char> = Vec::new();
    let mut i = from;
    assert(views(v@).skip(from as int).take(0) =~= Seq::<Seq<char>>::empty());
    while i < v.len()
        invariant
            from <= i <= v@.len(),
            res@ == join(views(v@).skip(from as int).take(i - from), sep@),
        decreases v@.len() - i,
    {
        let ghost before = views(v@).skip(from as int).take(i - from);
        let ghost after = views(v@).skip(from as int).take(i + 1 - from);
        assert(after.drop_last() =~= before);
        assert(after.last() == v@[i as int]@);
        if i > from {
            let mut j: usize = 0;
            let ghost base = res@;
            while j < sep.len()
                invariant
                    j <= sep@.len(),
                    res@ == base + sep@.take(j as int),
                decreases sep@.len() - j,
            {
                res.push(sep[j]);
                j = j + 1;
                assert(res@ =~= base + sep@.take(j as int));
            }
            assert(sep@.take(sep@.len() as int) =~= sep@);
        } else {
            assert(after =~= seq![v@[i as int]@]);
        }
        let mut k: usize = 0;
        let ghost base2 = res@;
        while k < v[i].len()
            invariant
                i < v@.len(),
                k <= v@[i as int]@.len(),
                res@ == base2 + v@[i as int]@.take(k as int),
            decreases v@[i as int]@.len() - k,
        {
            res.push(v[i][k]);
            k = k + 1;
            assert(res@ =~= base2 + v@[i as int]@.take(k as int));
        }
        assert(v@[i as int]@.take(k as int) =~= v@[i as int]@);
        i = i + 1;
        assert(res@ =~= join(after, sep@));
    }
    assert(views(v@).skip(from as int).take(i - from) =~= views(v@).skip(from as int));
    res
}

} // verus!
