use vstd::prelude::*;
use vstd::string::StrSliceExecFns;

verus! {

/// Relies on `String::push`: appends the given character to the end of
/// the string.
#[verifier::external_body]
pub fn push_char(s: &mut String, c: char)
    ensures
        final(s)@ == old(s)@.push(c),
{
    s.push(c);
}

/// Builds a `String` whose characters are exactly `chars`.
pub fn chars_to_string(chars: &Vec<char>) -> (r: String)
    ensures
        r@ == chars@,
{
    let mut out = String::new();
    let mut i: usize = 0;
    while i < chars.len()
        invariant
            i <= chars.len(),
            out@ == chars@.take(i as int),
        decreases chars.len() - i,
    {
        push_char(&mut out, chars[i]);
        proof {
            assert(chars@.take(i + 1) =~= chars@.take(i as int).push(chars@[i as int]));
        }
        i += 1;
    }
    proof {
        assert(chars@.take(chars@.len() as int) =~= chars@);
    }
    out
}

/// Collects the characters of a string slice into a vector.
pub fn str_to_chars(s: &str) -> (r: Vec<char>)
    ensures
        r@ == s@,
{
    let n = s.unicode_len();
    let mut out: Vec<char> = Vec::new();
    let mut i: usize = 0;
    while i < n
        invariant
            n == s@.len(),
            i <= n,
            out@ == s@.take(i as int),
        decreases n - i,
    {
        out.push(s.get_char(i));
        proof {
            assert(s@.take(i + 1) =~= s@.take(i as int).push(s@[i as int]));
        }
        i += 1;
    }
    proof {
        assert(s@.take(s@.len() as int) =~= s@);
    }
    out
}

/// The pattern `p` occurs in `s` starting at position `i`.
pub open spec fn contains_at(s: Seq<char>, p: Seq<char>, i: int) -> bool {
    0 <= i && i + p.len() <= s.len() && s.subrange(i, i + p.len()) == p
}

/// The pattern `p` occurs somewhere in `s`.
pub open spec fn contains_seq(s: Seq<char>, p: Seq<char>) -> bool {
    exists|i: int| contains_at(s, p, i)
}

/// Whether `p` occurs in `s` at exactly position `i`.
fn match_at(s: &Vec<char>, p: &Vec<char>, i: usize) -> (r: bool)
    requires
        i + p.len() <= s.len(),
    ensures
        r == contains_at(s@, p@, i as int),
{
    let mut j: usize = 0;
    while j < p.len()
        invariant
            i + p.len() <= s.len(),
            j <= p.len(),
            forall|k: int| 0 <= k < j ==> s@[i + k] == p@[k],
        decreases p.len() - j,
    {
        if s[i + j] != p[j] {
            proof {
                assert(s@.subrange(i as int, i + p.len())[j as int] != p@[j as int]);
            }
            return false;
        }
        j += 1;
    }
    proof {
        assert(s@.subrange(i as int, i + p.len()) =~= p@);
    }
    true
}

/// Substring search over character vectors.
pub fn find_seq(s: &Vec<char>, p: &Vec<char>) -> (r: Option<usize>)
    ensures
        match r {
            Some(i) => contains_at(s@, p@, i as int) && forall|k: int|
                0 <= k < i ==> !contains_at(s@, p@, k),
            None => !contains_seq(s@, p@),
        },
{
    if p.len() > s.len() {
        return None;
    }
    let bound: usize = s.len() - p.len();
    let mut i: usize = 0;
    while i < bound
        invariant
            p.len() <= s.len(),
            bound == s.len() - p.len(),
            i <= bound,
            forall|k: int| 0 <= k < i ==> !contains_at(s@, p@, k),
        decreases bound - i,
    {
        if match_at(s, p, i) {
            return Some(i);
        }
        i += 1;
    }
    if match_at(s, p, bound) {
        Some(bound)
    } else {
        proof {
            assert(forall|k: int| contains_at(s@, p@, k) ==> 0 <= k <= bound);
        }
        None
    }
}

/// The pattern `p` is a suffix of `s`.
pub open spec fn ends_with(s: Seq<char>, p: Seq<char>) -> bool {
    p.len() <= s.len() && contains_at(s, p, s.len() - p.len())
}

/// Whether `p` is a suffix of `s`.
pub fn vec_ends_with(s: &Vec<char>, p: &Vec<char>) -> (r: bool)
    ensures
        r == ends_with(s@, p@),
{
    if p.len() > s.len() {
        false
    } else {
        match_at(s, p, s.len() - p.len())
    }
}

/// Whether `p` occurs somewhere in `s`.
pub fn vec_contains(s: &Vec<char>, p: &Vec<char>) -> (r: bool)
    ensures
        r == contains_seq(s@, p@),
{
    match find_seq(s, p) {
        Some(_) => true,
        None => false,
    }
}

/// Whether the pattern string occurs in `s`.
pub fn str_contains(s: &str, p: &str) -> (r: bool)
    ensures
        r == contains_seq(s@, p@),
{
    let sv = str_to_chars(s);
    let pv = str_to_chars(p);
    vec_contains(&sv, &pv)
}

/// An occurrence inside a window of `s` is an occurrence in `s`.
pub proof fn lemma_contains_at_subrange(s: Seq<char>, p: Seq<char>, a: int, b: int, i: int)
    requires
        0 <= a <= b <= s.len(),
        contains_at(s.subrange(a, b), p, i),
    ensures
        contains_at(s, p, a + i),
{
    assert(s.subrange(a, b).subrange(i, i + p.len()) =~= s.subrange(a + i, a + i + p.len()));
}

/// An occurrence in `s` that lies wholly inside a window of `s` is an
/// occurrence in that window.
pub proof fn lemma_contains_at_into_subrange(s: Seq<char>, p: Seq<char>, a: int, b: int, i: int)
    requires
        0 <= a <= b <= s.len(),
        0 <= i,
        a + i + p.len() <= b,
        contains_at(s, p, a + i),
    ensures
        contains_at(s.subrange(a, b), p, i),
{
    assert(s.subrange(a, b).subrange(i, i + p.len()) =~= s.subrange(a + i, a + i + p.len()));
}

/// A pattern that occurs nowhere in `s` occurs nowhere in any window of
/// `s`.
pub proof fn lemma_not_contains_subrange(s: Seq<char>, p: Seq<char>, a: int, b: int)
    requires
        !contains_seq(s, p),
        0 <= a <= b <= s.len(),
    ensures
        !contains_seq(s.subrange(a, b), p),
{
    assert forall|i: int| !contains_at(s.subrange(a, b), p, i) by {
        if contains_at(s.subrange(a, b), p, i) {
            lemma_contains_at_subrange(s, p, a, b, i);
        }
    }
}

/// Index of the first occurrence of `p` in `s`, or -1 if there is none.
pub open spec fn first_occurrence(s: Seq<char>, p: Seq<char>) -> int
    decreases s.len(),
{
    if contains_at(s, p, 0) {
        0
    } else if s.len() == 0 {
        -1
    } else {
        let r = first_occurrence(s.drop_first(), p);
        if r < 0 {
            -1
        } else {
            r + 1
        }
    }
}

/// A minimal witness is the first occurrence.
proof fn lemma_first_occurrence_min(s: Seq<char>, p: Seq<char>, i: int)
    requires
        0 <= i,
        contains_at(s, p, i),
        forall|k: int| 0 <= k < i ==> !contains_at(s, p, k),
    ensures
        first_occurrence(s, p) == i,
    decreases i,
{
    if i > 0 {
        assert(!contains_at(s, p, 0));
        let d = s.drop_first();
        assert(d =~= s.subrange(1, s.len() as int));
        lemma_contains_at_into_subrange(s, p, 1, s.len() as int, i - 1);
        assert forall|k: int| 0 <= k < i - 1 implies !contains_at(d, p, k) by {
            if contains_at(d, p, k) {
                lemma_contains_at_subrange(s, p, 1, s.len() as int, k);
            }
        }
        lemma_first_occurrence_min(d, p, i - 1);
    }
}

/// A pattern that occurs nowhere has no first occurrence.
proof fn lemma_first_occurrence_none(s: Seq<char>, p: Seq<char>)
    requires
        !contains_seq(s, p),
    ensures
        first_occurrence(s, p) == -1,
    decreases s.len(),
{
    assert(!contains_at(s, p, 0));
    if s.len() > 0 {
        lemma_not_contains_subrange(s, p, 1, s.len() as int);
        assert(s.drop_first() =~= s.subrange(1, s.len() as int));
        lemma_first_occurrence_none(s.drop_first(), p);
    }
}

/// Finds the first occurrence of `p` in `s`.
pub fn find_first(s: &Vec<char>, p: &Vec<char>) -> (r: Option<usize>)
    ensures
        match r {
            Some(i) => first_occurrence(s@, p@) == i && contains_at(s@, p@, i as int),
            None => first_occurrence(s@, p@) == -1 && !contains_seq(s@, p@),
        },
{
    match find_seq(s, p) {
        Some(i) => {
            proof {
                lemma_first_occurrence_min(s@, p@, i as int);
            }
            Some(i)
        },
        None => {
            proof {
                lemma_first_occurrence_none(s@, p@);
            }
            None
        },
    }
}

/// Copies the window `[from, to)` of `s`.
pub fn copy_range(s: &Vec<char>, from: usize, to: usize) -> (r: Vec<char>)
    requires
        from <= to <= s.len(),
    ensures
        r@ == s@.subrange(from as int, to as int),
{
    let mut out: Vec<char> = Vec::new();
    let mut i: usize = from;
    while i < to
        invariant
            from <= i <= to <= s@.len(),
            out@ == s@.subrange(from as int, i as int),
        decreases to - i,
    {
        out.push(s[i]);
        proof {
            assert(s@.subrange(from as int, i + 1) =~= s@.subrange(from as int, i as int).push(
                s@[i as int],
            ));
        }
        i += 1;
    }
    out
}

/// ASCII lowercasing of a single character.
pub open spec fn spec_lower(c: char) -> char {
    match c {
        'A' => 'a',
        'B' => 'b',
        'C' => 'c',
        'D' => 'd',
        'E' => 'e',
        'F' => 'f',
        'G' => 'g',
        'H' => 'h',
        'I' => 'i',
        'J' => 'j',
        'K' => 'k',
        'L' => 'l',
        'M' => 'm',
        'N' => 'n',
        'O' => 'o',
        'P' => 'p',
        'Q' => 'q',
        'R' => 'r',
        'S' => 's',
        'T' => 't',
        'U' => 'u',
        'V' => 'v',
        'W' => 'w',
        'X' => 'x',
        'Y' => 'y',
        'Z' => 'z',
        _ => c,
    }
}

/// ASCII lowercasing of a character sequence.
pub open spec fn spec_lower_seq(s: Seq<char>) -> Seq<char> {
    Seq::new(s.len(), |i: int| spec_lower(s[i]))
}

/// ASCII lowercasing of a single character.
pub fn lower_char(c: char) -> (r: char)
    ensures
        r == spec_lower(c),
{
    match c {
        'A' => 'a',
        'B' => 'b',
        'C' => 'c',
        'D' => 'd',
        'E' => 'e',
        'F' => 'f',
        'G' => 'g',
        'H' => 'h',
        'I' => 'i',
        'J' => 'j',
        'K' => 'k',
        'L' => 'l',
        'M' => 'm',
        'N' => 'n',
        'O' => 'o',
        'P' => 'p',
        'Q' => 'q',
        'R' => 'r',
        'S' => 's',
        'T' => 't',
        'U' => 'u',
        'V' => 'v',
        'W' => 'w',
        'X' => 'x',
        'Y' => 'y',
        'Z' => 'z',
        _ => c,
    }
}

/// ASCII lowercasing of a character vector.
pub fn lower_chars(s: &Vec<char>) -> (r: Vec<char>)
    ensures
        r@ == spec_lower_seq(s@),
{
    let mut out: Vec<char> = Vec::new();
    let mut i: usize = 0;
    while i < s.len()
        invariant
            i <= s.len(),
            out@.len() == i,
            forall|k: int| 0 <= k < i ==> out@[k] == spec_lower(s@[k]),
        decreases s.len() - i,
    {
        out.push(lower_char(s[i]));
        i += 1;
    }
    proof {
        assert(out@ =~= spec_lower_seq(s@));
    }
    out
}

/// The decimal digit character for `d`.
pub open spec fn spec_digit(d: int) -> char {
    if d == 0 {
        '0'
    } else if d == 1 {
        '1'
    } else if d == 2 {
        '2'
    } else if d == 3 {
        '3'
    } else if d == 4 {
        '4'
    } else if d == 5 {
        '5'
    } else if d == 6 {
        '6'
    } else if d == 7 {
        '7'
    } else if d == 8 {
        '8'
    } else {
        '9'
    }
}

/// Decimal rendering of a nonnegative integer, most significant digit first.
pub open spec fn spec_dec(n: int) -> Seq<char>
    decreases n,
{
    if n < 10 {
        seq![spec_digit(n)]
    } else {
        spec_dec(n / 10).push(spec_digit(n % 10))
    }
}

fn digit_char(d: u64) -> (r: char)
    requires
        d < 10,
    ensures
        r == spec_digit(d as int),
{
    match d {
        0 => '0',
        1 => '1',
        2 => '2',
        3 => '3',
        4 => '4',
        5 => '5',
        6 => '6',
        7 => '7',
        8 => '8',
        _ => '9',
    }
}

/// The decimal digit characters of `n`.
pub fn u64_to_dec(n: u64) -> (r: Vec<char>)
    ensures
        r@ == spec_dec(n as int),
    decreases n,
{
    if n < 10 {
        let mut out: Vec<char> = Vec::new();
        out.push(digit_char(n));
        proof {
            assert(out@ =~= seq![spec_digit(n as int)]);
        }
        out
    } else {
        let mut out = u64_to_dec(n / 10);
        out.push(digit_char(n % 10));
        out
    }
}

/// The decimal rendering of `n` as a `String`.
pub fn u64_to_string(n: u64) -> (r: String)
    ensures
        r@ == spec_dec(n as int),
{
    let digits = u64_to_dec(n);
    chars_to_string(&digits)
}

/// The characters that count as surrounding whitespace when output is
/// trimmed: the Unicode white-space characters.
pub open spec fn spec_is_whitespace(c: char) -> bool {
    c == ' ' || c == '\t' || c == '\n' || c == '\r' || c == '\u{000B}' || c == '\u{000C}'
        || c == '\u{0085}' || c == '\u{00A0}' || c == '\u{1680}' || c == '\u{2000}' || c
        == '\u{2001}' || c == '\u{2002}' || c == '\u{2003}' || c == '\u{2004}' || c == '\u{2005}'
        || c == '\u{2006}' || c == '\u{2007}' || c == '\u{2008}' || c == '\u{2009}' || c
        == '\u{200A}' || c == '\u{2028}' || c == '\u{2029}' || c == '\u{202F}' || c == '\u{205F}'
        || c == '\u{3000}'
}

/// Whether `c` counts as whitespace for trimming.
pub fn is_whitespace(c: char) -> (r: bool)
    ensures
        r == spec_is_whitespace(c),
{
    c == ' ' || c == '\t' || c == '\n' || c == '\r' || c == '\u{000B}' || c == '\u{000C}'
        || c == '\u{0085}' || c == '\u{00A0}' || c == '\u{1680}' || c == '\u{2000}' || c
        == '\u{2001}' || c == '\u{2002}' || c == '\u{2003}' || c == '\u{2004}' || c == '\u{2005}'
        || c == '\u{2006}' || c == '\u{2007}' || c == '\u{2008}' || c == '\u{2009}' || c
        == '\u{200A}' || c == '\u{2028}' || c == '\u{2029}' || c == '\u{202F}' || c == '\u{205F}'
        || c == '\u{3000}'
}

} // verus!
