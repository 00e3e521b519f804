//! Character-level text handling: trimming, line splitting, placeholder
//! substitution and decimal rendering, each against a spec over `Seq<char>`.
use vstd::prelude::*;

verus! {

// ---------------------------------------------------------------------------
// Specifications
// ---------------------------------------------------------------------------

/// The Unicode `White_Space` property, which `char::is_whitespace` and
/// `str::trim` go by.
pub open spec fn is_white_space(c: char) -> bool {
    let u = c as u32;
    ||| 0x09 <= u <= 0x0D
    ||| u == 0x20
    ||| u == 0x85
    ||| u == 0xA0
    ||| u == 0x1680
    ||| 0x2000 <= u <= 0x200A
    ||| u == 0x2028
    ||| u == 0x2029
    ||| u == 0x202F
    ||| u == 0x205F
    ||| u == 0x3000
}

/// `s` without its leading white space.
pub open spec fn trim_start(s: Seq<char>) -> Seq<char>
    decreases s.len(),
{
    if s.len() > 0 && is_white_space(s[0]) {
        trim_start(s.drop_first())
    } else {
        s
    }
}

/// `s` without its trailing white space.
pub open spec fn trim_end(s: Seq<char>) -> Seq<char>
    decreases s.len(),
{
    if s.len() > 0 && is_white_space(s.last()) {
        trim_end(s.drop_last())
    } else {
        s
    }
}

/// `s` without white space at either end, as `str::trim` gives it.
pub open spec fn trim(s: Seq<char>) -> Seq<char> {
    trim_end(trim_start(s))
}

/// The number of characters before the first `'\n'` of `s` (all of them if
/// there is none).
pub open spec fn line_len(s: Seq<char>) -> nat
    decreases s.len(),
{
    if s.len() == 0 || s[0] == '\n' {
        0
    } else {
        1 + line_len(s.drop_first())
    }
}

/// The pieces of `s` between its `'\n'` characters, as `str::split('\n')`
/// gives them: one more piece than there are newlines.
pub open spec fn split_lines(s: Seq<char>) -> Seq<Seq<char>>
    decreases s.len(),
{
    if line_len(s) < s.len() {
        seq![s.take(line_len(s) as int)] + split_lines(s.skip(line_len(s) as int + 1))
    } else {
        seq![s]
    }
}

/// A trimmed line is kept when it is neither empty nor a `#` comment.
pub open spec fn kept_line(t: Seq<char>) -> Seq<Seq<char>> {
    if t.len() > 0 && t[0] != '#' {
        seq![t]
    } else {
        seq![]
    }
}

/// Each line trimmed, the empty and the comment lines dropped, in order.
pub open spec fn clean_lines(lines: Seq<Seq<char>>) -> Seq<Seq<char>>
    decreases lines.len(),
{
    if lines.len() == 0 {
        seq![]
    } else {
        kept_line(trim(lines[0])) + clean_lines(lines.drop_first())
    }
}

/// The non-empty, non-comment lines of a text pool, trimmed. (A `'\r'` before
/// a `'\n'` is white space, so it goes with the trimming.)
pub open spec fn pool_lines(s: Seq<char>) -> Seq<Seq<char>> {
    clean_lines(split_lines(s))
}

/// `s` with every non-overlapping occurrence of `pat`, scanned from the left,
/// replaced by `rep`, as `str::replace` does for a non-empty pattern.
pub open spec fn replace_all(s: Seq<char>, pat: Seq<char>, rep: Seq<char>) -> Seq<char>
    decreases s.len(),
{
    if pat.len() == 0 || s.len() < pat.len() {
        s
    } else if s.take(pat.len() as int) == pat {
        rep + replace_all(s.skip(pat.len() as int), pat, rep)
    } else {
        seq![s[0]] + replace_all(s.drop_first(), pat, rep)
    }
}

/// The character of the decimal digit `d`.
pub open spec fn digit_char(d: nat) -> char {
    if d == 0 {
        '0'
    } else if d == 1 {
        '1'
    } else if d == 2 {
        '2'
    } else if d == 3 {
        '3'
    } else if d == 4 {
        '4'
    } else if d == 5 {
        '5'
    } else if d == 6 {
        '6'
    } else if d == 7 {
        '7'
    } else if d == 8 {
        '8'
    } else {
        '9'
    }
}

/// The decimal numeral of `n`, without leading zeros.
pub open spec fn decimal(n: nat) -> Seq<char>
    decreases n,
{
    if n < 10 {
        seq![digit_char(n)]
    } else {
        decimal(n / 10).push(digit_char(n % 10))
    }
}

/// A separator between the subtags of a locale tag: `-`, `_` or `.`.
pub open spec fn is_subtag_sep(c: char) -> bool {
    c == '-' || c == '_' || c == '.'
}

/// The number of characters before the first subtag separator of `s`.
pub open spec fn subtag_len(s: Seq<char>) -> nat
    decreases s.len(),
{
    if s.len() == 0 || is_subtag_sep(s[0]) {
        0
    } else {
        1 + subtag_len(s.drop_first())
    }
}

/// The first piece of `s` when it is split at `-`, `_` and `.`.
pub open spec fn first_subtag(s: Seq<char>) -> Seq<char> {
    s.take(subtag_len(s) as int)
}

/// What std's `str::to_lowercase` returns for `s`: its characters mapped to
/// lower case by the Unicode case tables.
pub uninterp spec fn lowercase(s: Seq<char>) -> Seq<char>;

/// Whether every character of `s` is ASCII.
pub open spec fn is_ascii_text(s: Seq<char>) -> bool {
    forall|i: int| 0 <= i < s.len() ==> (#[trigger] s[i] as u32) < 128
}

/// The ASCII lower case of a character: `A` to `Z` become `a` to `z`, every
/// other character stays.
pub open spec fn ascii_lower_char(c: char) -> char {
    if 'A' <= c && c <= 'Z' {
        ((c as u32) + 32) as char
    } else {
        c
    }
}

/// `s` with each character in ASCII lower case.
pub open spec fn ascii_lowercase(s: Seq<char>) -> Seq<char> {
    s.map_values(|c: char| ascii_lower_char(c))
}

/// The lower case of `s`: for ASCII text the ASCII lower case, otherwise what
/// the Unicode case tables give.
pub open spec fn lower_case(s: Seq<char>) -> Seq<char> {
    if is_ascii_text(s) {
        ascii_lowercase(s)
    } else {
        lowercase(s)
    }
}

/// Whether `s` holds no `{`, so that no placeholder can start in it.
pub open spec fn brace_free(s: Seq<char>) -> bool {
    forall|i: int| 0 <= i < s.len() ==> s[i] != '{'
}

/// The characters of a list of strings, each by its view.
pub open spec fn views(v: Seq<String>) -> Seq<Seq<char>> {
    v.map_values(|s: String| s@)
}

// ---------------------------------------------------------------------------
// Trusted conversion
// ---------------------------------------------------------------------------

/// Collects characters into a `String` through std's `FromIterator<char>`;
/// trusted to give a string whose characters are exactly `cs`, in order.
#[verifier::external_body]
pub(crate) fn string_from_chars(cs: &[char]) -> (r: String)
    ensures
        r@ == cs@,
{
    cs.iter().collect()
}

/// Lowercases `s` with std's `str::to_lowercase`. Trusted to return the
/// named result `lowercase(s@)`, which depends on `s` alone, and, for ASCII
/// text, the text with `A` to `Z` mapped to `a` to `z` and every other
/// character kept (the Unicode lowercase mapping of the ASCII letters). What
/// the case mapping gives for other characters is left unsaid.
#[verifier::external_body]
pub(crate) fn to_lowercase(s: &str) -> (r: String)
    ensures
        r@ == lowercase(s@),
        is_ascii_text(s@) ==> r@ == ascii_lowercase(s@),
{
    s.to_lowercase()
}

// ---------------------------------------------------------------------------
// Lemmas
// ---------------------------------------------------------------------------

/// `line_len` is the position of the first newline.
pub proof fn lemma_line_len_at(s: Seq<char>, m: int)
    requires
        0 <= m <= s.len(),
        forall|j: int| 0 <= j < m ==> s[j] != '\n',
        m == s.len() || s[m] == '\n',
    ensures
        line_len(s) == m,
    decreases m,
{
    if m > 0 {
        lemma_line_len_at(s.drop_first(), m - 1);
    }
}

/// Trimming the end keeps a first character that is not white space.
proof fn lemma_trim_end_keeps_first(x: Seq<char>)
    requires
        x.len() > 0,
        !is_white_space(x[0]),
    ensures
        trim_end(x).len() > 0,
        trim_end(x)[0] == x[0],
    decreases x.len(),
{
    if is_white_space(x.last()) {
        assert(x.len() > 1);
        lemma_trim_end_keeps_first(x.drop_last());
    }
}

/// A pool text that starts with a content character (not a newline, not `#`,
/// not white space) yields at least one line, and its first line starts with
/// that character.
pub proof fn lemma_pool_starts_with_content(s: Seq<char>)
    requires
        s.len() > 0,
        s[0] != '\n',
        s[0] != '#',
        !is_white_space(s[0]),
    ensures
        pool_lines(s).len() > 0,
        pool_lines(s)[0][0] == s[0],
{
    let k = line_len(s);
    assert(k >= 1);
    let lines = split_lines(s);
    let piece = lines[0];
    if k < s.len() {
        assert(lines == seq![s.take(k as int)] + split_lines(s.skip(k as int + 1)));
        assert(piece == s.take(k as int));
    } else {
        assert(piece == s);
    }
    assert(piece.len() > 0 && piece[0] == s[0]);
    assert(trim_start(piece) == piece);
    lemma_trim_end_keeps_first(piece);
    assert(trim(piece)[0] == s[0]);
    assert(kept_line(trim(piece)) == seq![trim(piece)]);
    assert(pool_lines(s) == kept_line(trim(piece)) + clean_lines(lines.drop_first()));
}

/// Replacing a pattern at the very start puts the replacement there and goes
/// on after the pattern.
pub proof fn lemma_replace_head(p: Seq<char>, t: Seq<char>, r: Seq<char>)
    requires
        p.len() > 0,
    ensures
        replace_all(p + t, p, r) == r + replace_all(t, p, r),
{
    let s = p + t;
    assert(s.take(p.len() as int) =~= p);
    assert(s.skip(p.len() as int) =~= t);
}

/// A placeholder pattern (one that starts with `{`) changes nothing in text
/// without a `{`.
pub proof fn lemma_replace_brace_free(s: Seq<char>, p: Seq<char>, r: Seq<char>)
    requires
        p.len() > 0,
        p[0] == '{',
        brace_free(s),
    ensures
        replace_all(s, p, r) == s,
    decreases s.len(),
{
    if s.len() >= p.len() {
        assert(s.take(p.len() as int)[0] != p[0]);
        lemma_replace_brace_free(s.drop_first(), p, r);
        assert(s =~= seq![s[0]] + s.drop_first());
    }
}

/// Text without a `{` in front is kept as it is, and the replacement goes on
/// after it.
pub proof fn lemma_replace_after_brace_free(a: Seq<char>, t: Seq<char>, p: Seq<char>, r: Seq<char>)
    requires
        p.len() > 0,
        p[0] == '{',
        brace_free(a),
    ensures
        replace_all(a + t, p, r) == a + replace_all(t, p, r),
    decreases a.len(),
{
    let s = a + t;
    if a.len() == 0 {
        assert(s =~= t);
        assert(a + replace_all(t, p, r) =~= replace_all(t, p, r));
    } else if s.len() < p.len() {
        assert(t.len() < p.len());
    } else {
        assert(s.take(p.len() as int)[0] == a[0]);
        assert(s.drop_first() =~= a.drop_first() + t);
        lemma_replace_after_brace_free(a.drop_first(), t, p, r);
        assert(a =~= seq![a[0]] + a.drop_first());
        assert(a + replace_all(t, p, r) =~= seq![a[0]] + (a.drop_first() + replace_all(t, p, r)));
    }
}

/// Filling a template whose one placeholder `p` stands between texts without
/// a `{`: the value takes the placeholder's place and the rest is kept.
pub proof fn lemma_fill_one(a: Seq<char>, p: Seq<char>, b: Seq<char>, r: Seq<char>)
    requires
        p.len() > 0,
        p[0] == '{',
        brace_free(a),
        brace_free(b),
    ensures
        replace_all(a + p + b, p, r) == a + r + b,
{
    assert(a + p + b =~= a + (p + b));
    lemma_replace_after_brace_free(a, p + b, p, r);
    lemma_replace_head(p, b, r);
    lemma_replace_brace_free(b, p, r);
    assert(a + (r + b) =~= a + r + b);
}

/// A decimal numeral holds digits only, so no `{`.
pub proof fn lemma_decimal_brace_free(n: nat)
    ensures
        brace_free(decimal(n)),
    decreases n,
{
    if n >= 10 {
        lemma_decimal_brace_free(n / 10);
    }
}

/// `subtag_len` is the position of the first separator.
pub proof fn lemma_subtag_len(s: Seq<char>, m: int)
    requires
        0 <= m <= s.len(),
        forall|j: int| 0 <= j < m ==> !is_subtag_sep(#[trigger] s[j]),
        m == s.len() || is_subtag_sep(s[m]),
    ensures
        subtag_len(s) == m,
    decreases m,
{
    if m > 0 {
        assert forall|j: int| 0 <= j < m - 1 implies !is_subtag_sep(#[trigger] s.drop_first()[j]) by {
            assert(s.drop_first()[j] == s[j + 1]);
        }
        lemma_subtag_len(s.drop_first(), m - 1);
    }
}

// ---------------------------------------------------------------------------
// Executable functions
// ---------------------------------------------------------------------------

/// The characters of `s`, in order.
pub fn chars_of(s: &str) -> (r: Vec<char>)
    ensures
        r@ == s@,
{
    let mut out: Vec<char> = Vec::new();
    for c in it: s.chars()
        invariant
            out@ == it.seq().take(it.index() as int),
            it.seq() == s@,
    {
        out.push(c);
    }
    out
}

/// Whether two strings hold the same characters.
pub fn str_eq(a: &str, b: &str) -> (r: bool)
    ensures
        r == (a@ == b@),
{
    let x = chars_of(a);
    let y = chars_of(b);
    if x.len() != y.len() {
        return false;
    }
    let mut i: usize = 0;
    while i < x.len()
        invariant
            x.len() == y.len(),
            x@ == a@,
            y@ == b@,
            0 <= i <= x.len(),
            forall|j: int| 0 <= j < i ==> x@[j] == y@[j],
        decreases x.len() - i,
    {
        if x[i] != y[i] {
            return false;
        }
        i += 1;
    }
    assert(x@ =~= y@);
    true
}

/// Whether `c` is Unicode white space (`char::is_whitespace`).
pub fn is_white_space_char(c: char) -> (r: bool)
    ensures
        r == is_white_space(c),
{
    let u = c as u32;
    (0x09 <= u && u <= 0x0D) || u == 0x20 || u == 0x85 || u == 0xA0 || u == 0x1680 || (0x2000
        <= u && u <= 0x200A) || u == 0x2028 || u == 0x2029 || u == 0x202F || u == 0x205F || u
        == 0x3000
}

/// The bounds of `cs[lo..hi]` with white space trimmed from both ends.
pub fn trim_bounds(cs: &Vec<char>, lo: usize, hi: usize) -> (r: (usize, usize))
    requires
        lo <= hi <= cs.len(),
    ensures
        lo <= r.0 <= r.1 <= hi,
        cs@.subrange(r.0 as int, r.1 as int) == trim(cs@.subrange(lo as int, hi as int)),
{
    let mut a = lo;
    while a < hi && is_white_space_char(cs[a])
        invariant
            lo <= a <= hi <= cs.len(),
            trim_start(cs@.subrange(lo as int, hi as int)) == trim_start(
                cs@.subrange(a as int, hi as int),
            ),
        decreases hi - a,
    {
        assert(cs@.subrange(a as int, hi as int).drop_first() =~= cs@.subrange(
            a + 1,
            hi as int,
        ));
        a += 1;
    }
    let mut b = hi;
    while b > a && is_white_space_char(cs[b - 1])
        invariant
            lo <= a <= b <= hi <= cs.len(),
            trim_start(cs@.subrange(lo as int, hi as int)) == cs@.subrange(a as int, hi as int),
            trim_end(cs@.subrange(a as int, hi as int)) == trim_end(
                cs@.subrange(a as int, b as int),
            ),
        decreases b - a,
    {
        assert(cs@.subrange(a as int, b as int).drop_last() =~= cs@.subrange(
            a as int,
            b - 1,
        ));
        b -= 1;
    }
    (a, b)
}

/// The characters `cs[lo..hi]` as a `String`.
pub fn string_of_range(cs: &Vec<char>, lo: usize, hi: usize) -> (r: String)
    requires
        lo <= hi <= cs.len(),
    ensures
        r@ == cs@.subrange(lo as int, hi as int),
{
    let mut part: Vec<char> = Vec::new();
    let mut i = lo;
    while i < hi
        invariant
            lo <= i <= hi <= cs.len(),
            part@ == cs@.subrange(lo as int, i as int),
        decreases hi - i,
    {
        part.push(cs[i]);
        i += 1;
        assert(part@ =~= cs@.subrange(lo as int, i as int));
    }
    string_from_chars(part.as_slice())
}

/// `s` with white space trimmed from both ends (`str::trim`).
pub fn trim_str(s: &str) -> (r: String)
    ensures
        r@ == trim(s@),
{
    let cs = chars_of(s);
    let (a, b) = trim_bounds(&cs, 0, cs.len());
    assert(cs@.subrange(0, cs@.len() as int) =~= cs@);
    string_of_range(&cs, a, b)
}

/// Appends `xs` to `out`.
pub fn push_all(out: &mut Vec<char>, xs: &Vec<char>)
    ensures
        final(out)@ == old(out)@ + xs@,
{
    let mut i: usize = 0;
    while i < xs.len()
        invariant
            0 <= i <= xs.len(),
            out@ == old(out)@ + xs@.take(i as int),
        decreases xs.len() - i,
    {
        out.push(xs[i]);
        i += 1;
        assert(out@ =~= old(out)@ + xs@.take(i as int));
    }
    assert(xs@.take(xs.len() as int) =~= xs@);
}

/// Whether `pat` occurs in `s` at position `i`.
fn occurs_at(s: &Vec<char>, i: usize, pat: &Vec<char>) -> (r: bool)
    requires
        i + pat.len() <= s.len(),
    ensures
        r == (s@.subrange(i as int, i + pat.len()) == pat@),
{
    let mut j: usize = 0;
    while j < pat.len()
        invariant
            i + pat.len() <= s.len(),
            0 <= j <= pat.len(),
            forall|k: int| 0 <= k < j ==> s@[i + k] == pat@[k],
        decreases pat.len() - j,
    {
        if s[i + j] != pat[j] {
            assert(s@.subrange(i as int, i + pat.len())[j as int] != pat@[j as int]);
            return false;
        }
        j += 1;
    }
    assert(s@.subrange(i as int, i + pat.len()) =~= pat@);
    true
}

/// `s` with every occurrence of `pat` replaced by `rep`, scanning from the
/// left without overlap.
pub fn replace_chars(s: &Vec<char>, pat: &Vec<char>, rep: &Vec<char>) -> (r: Vec<char>)
    requires
        pat.len() > 0,
    ensures
        r@ == replace_all(s@, pat@, rep@),
{
    let n = s.len();
    let m = pat.len();
    let mut out: Vec<char> = Vec::new();
    let mut i: usize = 0;
    assert(s@.skip(0) =~= s@);
    while i < n
        invariant
            n == s.len(),
            m == pat.len(),
            m > 0,
            0 <= i <= n,
            out@ + replace_all(s@.skip(i as int), pat@, rep@) == replace_all(s@, pat@, rep@),
        decreases n - i,
    {
        let ghost rest = s@.skip(i as int);
        if n - i >= m && occurs_at(s, i, pat) {
            assert(rest.take(m as int) =~= s@.subrange(i as int, i + m));
            assert(rest.skip(m as int) =~= s@.skip(i + m));
            let ghost before = out@;
            push_all(&mut out, rep);
            assert(before + (rep@ + replace_all(s@.skip(i + m), pat@, rep@)) =~= out@
                + replace_all(s@.skip(i + m), pat@, rep@));
            i += m;
        } else {
            if n - i >= m {
                assert(rest.take(m as int) =~= s@.subrange(i as int, i + m));
            }
            assert(rest.drop_first() =~= s@.skip(i + 1));
            assert(rest =~= seq![s@[i as int]] + rest.drop_first());
            let ghost before = out@;
            out.push(s[i]);
            assert(before + (seq![s@[i as int]] + replace_all(s@.skip(i + 1), pat@, rep@))
                =~= out@ + replace_all(s@.skip(i + 1), pat@, rep@));
            i += 1;
        }
    }
    assert(out@ + replace_all(s@.skip(n as int), pat@, rep@) =~= out@);
    out
}

/// `s` with every occurrence of the non-empty `pat` replaced by `rep`
/// (`str::replace`).
pub fn replace(s: &str, pat: &str, rep: &str) -> (r: String)
    requires
        pat@.len() > 0,
    ensures
        r@ == replace_all(s@, pat@, rep@),
{
    let cs = chars_of(s);
    let ps = chars_of(pat);
    let rs = chars_of(rep);
    let out = replace_chars(&cs, &ps, &rs);
    string_from_chars(out.as_slice())
}

/// The character of the decimal digit `d`.
fn digit(d: u64) -> (c: char)
    requires
        d < 10,
    ensures
        c == digit_char(d as nat),
{
    if d == 0 {
        '0'
    } else if d == 1 {
        '1'
    } else if d == 2 {
        '2'
    } else if d == 3 {
        '3'
    } else if d == 4 {
        '4'
    } else if d == 5 {
        '5'
    } else if d == 6 {
        '6'
    } else if d == 7 {
        '7'
    } else if d == 8 {
        '8'
    } else {
        '9'
    }
}

fn decimal_chars(n: u64) -> (r: Vec<char>)
    ensures
        r@ == decimal(n as nat),
    decreases n,
{
    if n < 10 {
        let mut v: Vec<char> = Vec::new();
        v.push(digit(n));
        assert(v@ =~= seq![digit_char(n as nat)]);
        v
    } else {
        let mut v = decimal_chars(n / 10);
        v.push(digit(n % 10));
        v
    }
}

/// The decimal numeral of `n` (`u64::to_string`).
pub fn decimal_string(n: u64) -> (r: String)
    ensures
        r@ == decimal(n as nat),
{
    let v = decimal_chars(n);
    string_from_chars(v.as_slice())
}

/// The first piece of `s` split at `-`, `_` and `.`
/// (`s.split(['-', '_', '.']).next()`).
pub fn first_subtag_str(s: &str) -> (r: String)
    ensures
        r@ == first_subtag(s@),
{
    let cs = chars_of(s);
    let mut i: usize = 0;
    while i < cs.len() && !(cs[i] == '-' || cs[i] == '_' || cs[i] == '.')
        invariant
            0 <= i <= cs.len(),
            forall|j: int| 0 <= j < i ==> !is_subtag_sep(#[trigger] cs@[j]),
        decreases cs.len() - i,
    {
        i += 1;
    }
    proof {
        lemma_subtag_len(cs@, i as int);
    }
    assert(cs@.subrange(0, i as int) =~= cs@.take(i as int));
    string_of_range(&cs, 0, i)
}

} // verus!
