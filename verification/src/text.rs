//! Text primitives: white space, trimming, cutting at a delimiter, prefixes
//! and repetition. Every function is specified over sequences of characters.

use vstd::prelude::*;

verus! {

/// Whether `c` has the Unicode property `White_Space`.
pub open spec fn is_space(c: char) -> bool {
    let n = c as u32;
    ||| 0x09 <= n <= 0x0D
    ||| n == 0x20
    ||| n == 0x85
    ||| n == 0xA0
    ||| n == 0x1680
    ||| 0x2000 <= n <= 0x200A
    ||| n == 0x2028
    ||| n == 0x2029
    ||| n == 0x202F
    ||| n == 0x205F
    ||| n == 0x3000
}

/// How many white-space characters `s` begins with.
pub open spec fn leading_space(s: Seq<char>) -> nat
    decreases s.len(),
{
    if s.len() > 0 && is_space(s[0]) {
        1 + leading_space(s.drop_first())
    } else {
        0
    }
}

/// How many white-space characters `s` ends with.
pub open spec fn trailing_space(s: Seq<char>) -> nat
    decreases s.len(),
{
    if s.len() > 0 && is_space(s.last()) {
        1 + trailing_space(s.drop_last())
    } else {
        0
    }
}

/// `s` without the white space at its front.
pub open spec fn trim_start(s: Seq<char>) -> Seq<char> {
    s.skip(leading_space(s) as int)
}

/// `s` without the white space at its end.
pub open spec fn trim_end(s: Seq<char>) -> Seq<char> {
    s.take(s.len() - trailing_space(s))
}

/// `s` without the white space at either end.
pub open spec fn trim(s: Seq<char>) -> Seq<char> {
    trim_end(trim_start(s))
}

/// Tells whether `c` is white space.
pub fn is_whitespace(c: char) -> (r: bool)
    ensures
        r == is_space(c),
{
    let n: u32 = c as u32;
    (0x09 <= n && n <= 0x0D) || n == 0x20 || n == 0x85 || n == 0xA0 || n == 0x1680 || (0x2000 <= n
        && n <= 0x200A) || n == 0x2028 || n == 0x2029 || n == 0x202F || n == 0x205F || n == 0x3000
}

/// The white space at the front of `s` ends at the first character that is
/// none: a position with only white space before it, and none at it, is the
/// count of leading white space.
pub proof fn lemma_leading_space(s: Seq<char>, a: int)
    requires
        0 <= a <= s.len(),
        forall|j: int| 0 <= j < a ==> is_space(#[trigger] s[j]),
        a < s.len() ==> !is_space(s[a]),
    ensures
        leading_space(s) == a,
    decreases a,
{
    if a > 0 {
        lemma_leading_space(s.drop_first(), a - 1);
    }
}

/// The mirror image of `lemma_leading_space`: with only white space from `b`
/// on, and none just before `b`, the count of trailing white space is what
/// follows `b`.
pub proof fn lemma_trailing_space(s: Seq<char>, b: int)
    requires
        0 <= b <= s.len(),
        forall|j: int| b <= j < s.len() ==> is_space(#[trigger] s[j]),
        b > 0 ==> !is_space(s[b - 1]),
    ensures
        trailing_space(s) == s.len() - b,
    decreases s.len() - b,
{
    if b < s.len() {
        lemma_trailing_space(s.drop_last(), b);
    }
}

/// The leading white space of `s` is white space, and what follows it is not.
pub proof fn lemma_leading_space_ends(s: Seq<char>)
    ensures
        leading_space(s) <= s.len(),
        forall|j: int| 0 <= j < leading_space(s) ==> is_space(#[trigger] s[j]),
        leading_space(s) < s.len() ==> !is_space(s[leading_space(s) as int]),
    decreases s.len(),
{
    if s.len() > 0 && is_space(s[0]) {
        let t = s.drop_first();
        lemma_leading_space_ends(t);
        assert forall|j: int| 0 <= j < leading_space(s) implies is_space(#[trigger] s[j]) by {
            if j > 0 {
                assert(s[j] == t[j - 1]);
            }
        }
    }
}

/// The trailing white space of `s` is white space, and what stands before it
/// is not.
pub proof fn lemma_trailing_space_ends(s: Seq<char>)
    ensures
        trailing_space(s) <= s.len(),
        forall|j: int| s.len() - trailing_space(s) <= j < s.len() ==> is_space(#[trigger] s[j]),
        trailing_space(s) < s.len() ==> !is_space(s[s.len() - trailing_space(s) - 1]),
    decreases s.len(),
{
    if s.len() > 0 && is_space(s.last()) {
        let t = s.drop_last();
        lemma_trailing_space_ends(t);
        assert forall|j: int| s.len() - trailing_space(s) <= j < s.len() implies is_space(
            #[trigger] s[j],
        ) by {
            if j < s.len() - 1 {
                assert(s[j] == t[j]);
            }
        }
    }
}

/// Trimming takes white space off the two ends of `s` and nothing else, and
/// leaves no white space at either end of what remains.
pub proof fn lemma_trim_is_the_core(s: Seq<char>)
    ensures
        exists|a: int, b: int|
            {
                &&& 0 <= a <= b <= s.len()
                &&& #[trigger] s.subrange(a, b) == trim(s)
                &&& forall|j: int| 0 <= j < a ==> is_space(#[trigger] s[j])
                &&& forall|j: int| b <= j < s.len() ==> is_space(#[trigger] s[j])
            },
        trim(s).len() > 0 ==> !is_space(trim(s)[0]) && !is_space(trim(s).last()),
{
    let a = leading_space(s) as int;
    lemma_leading_space_ends(s);
    let t = s.skip(a);
    lemma_trailing_space_ends(t);
    let b = s.len() - trailing_space(t);
    assert(s.subrange(a, b) == trim(s));
    assert forall|j: int| b <= j < s.len() implies is_space(#[trigger] s[j]) by {
        assert(s[j] == t[j - a]);
    }
}

/// Copies `s` without the white space at its two ends. What comes back
/// neither begins nor ends with white space.
pub fn trimmed(s: &str) -> (r: String)
    ensures
        r@ == trim(s@),
        r@.len() > 0 ==> !is_space(r@[0]) && !is_space(r@.last()),
{
    let n: usize = s.unicode_len();
    let mut a: usize = 0;
    while a < n && is_whitespace(s.get_char(a))
        invariant
            n == s@.len(),
            a <= n,
            forall|j: int| 0 <= j < a ==> is_space(#[trigger] s@[j]),
        decreases n - a,
    {
        a = a + 1;
    }
    let mut b: usize = n;
    while b > a && is_whitespace(s.get_char(b - 1))
        invariant
            n == s@.len(),
            a <= b <= n,
            forall|j: int| b <= j < n ==> is_space(#[trigger] s@[j]),
        decreases b,
    {
        b = b - 1;
    }
    proof {
        lemma_leading_space(s@, a as int);
        lemma_trailing_space(s@.skip(a as int), b - a);
    }
    String::from_str(s.substring_char(a, b))
}

/// Where `c` first occurs in `s`; the length of `s` where it does not occur.
pub open spec fn first_index(s: Seq<char>, c: char) -> int
    decreases s.len(),
{
    if s.len() == 0 || s[0] == c {
        0
    } else {
        1 + first_index(s.drop_first(), c)
    }
}

/// The pieces that the occurrences of `sep` cut `s` into, in order. There is
/// always at least one piece, and a piece may be empty.
pub open spec fn pieces(s: Seq<char>, sep: char) -> Seq<Seq<char>>
    decreases s.len(),
{
    let i = first_index(s, sep);
    if 0 <= i < s.len() {
        seq![s.take(i)] + pieces(s.skip(i + 1), sep)
    } else {
        seq![s]
    }
}

/// A position with no `c` before it, which holds `c` or is the end of `s`,
/// is the first index of `c`.
pub proof fn lemma_first_index(s: Seq<char>, c: char, i: int)
    requires
        0 <= i <= s.len(),
        forall|j: int| 0 <= j < i ==> #[trigger] s[j] != c,
        i < s.len() ==> s[i] == c,
    ensures
        first_index(s, c) == i,
    decreases i,
{
    if i > 0 {
        lemma_first_index(s.drop_first(), c, i - 1);
    }
}

/// `parts` written one after the other with `sep` between them.
pub open spec fn joined(parts: Seq<Seq<char>>, sep: char) -> Seq<char>
    decreases parts.len(),
{
    if parts.len() == 0 {
        Seq::empty()
    } else if parts.len() == 1 {
        parts[0]
    } else {
        parts[0] + seq![sep] + joined(parts.drop_first(), sep)
    }
}

/// The first index of `c` is a position of `s` or its end; `c` does not occur
/// before it, and occurs at it where it is a position.
pub proof fn lemma_first_index_ends(s: Seq<char>, c: char)
    ensures
        0 <= first_index(s, c) <= s.len(),
        forall|j: int| 0 <= j < first_index(s, c) ==> #[trigger] s[j] != c,
        first_index(s, c) < s.len() ==> s[first_index(s, c)] == c,
    decreases s.len(),
{
    if !(s.len() == 0 || s[0] == c) {
        let t = s.drop_first();
        lemma_first_index_ends(t, c);
        assert forall|j: int| 0 <= j < first_index(s, c) implies #[trigger] s[j] != c by {
            if j > 0 {
                assert(s[j] == t[j - 1]);
            }
        }
    }
}

/// Cutting loses nothing but the delimiters: no piece holds one, and the
/// pieces joined by the delimiter are the text that was cut.
pub proof fn lemma_pieces_join(s: Seq<char>, sep: char)
    ensures
        pieces(s, sep).len() >= 1,
        forall|k: int|
            0 <= k < pieces(s, sep).len() ==> !(#[trigger] pieces(s, sep)[k]).contains(sep),
        joined(pieces(s, sep), sep) == s,
    decreases s.len(),
{
    let i = first_index(s, sep);
    lemma_first_index_ends(s, sep);
    if 0 <= i < s.len() {
        let rest = s.skip(i + 1);
        lemma_pieces_join(rest, sep);
        assert(pieces(s, sep).drop_first() == pieces(rest, sep));
    }
}

/// Copies the `v`-th piece of `txt` between occurrences of `sep`, counted
/// from zero, where there are that many pieces. No piece holds `sep`.
pub fn nth_piece(txt: &str, sep: char, v: usize) -> (r: Option<String>)
    ensures
        r is Some <==> v < pieces(txt@, sep).len(),
        r matches Some(p) ==> p@ == pieces(txt@, sep)[v as int] && !p@.contains(sep),
{
    let n: usize = txt.unicode_len();
    let mut start: usize = 0;
    let mut k: usize = 0;
    let mut i: usize = 0;
    assert(txt@.skip(0) == txt@);
    while i < n
        invariant
            n == txt@.len(),
            start <= i <= n,
            k <= v,
            k <= pieces(txt@, sep).len(),
            forall|j: int| start <= j < i ==> #[trigger] txt@[j] != sep,
            pieces(txt@, sep).skip(k as int) == pieces(txt@.skip(start as int), sep),
        decreases n - i,
    {
        if txt.get_char(i) == sep {
            proof {
                let rest = txt@.skip(start as int);
                lemma_first_index(rest, sep, i - start);
                assert(rest.skip(i - start + 1) == txt@.skip(i + 1));
                assert(pieces(txt@, sep).skip(k as int)[0] == rest.take(i - start));
                assert(pieces(rest, sep).skip(1) == pieces(txt@.skip(i + 1), sep));
            }
            if k == v {
                return Some(String::from_str(txt.substring_char(start, i)));
            }
            k = k + 1;
            start = i + 1;
        }
        i = i + 1;
    }
    proof {
        let rest = txt@.skip(start as int);
        lemma_first_index(rest, sep, rest.len() as int);
        assert(pieces(txt@, sep).skip(k as int)[0] == rest);
    }
    if k == v {
        Some(String::from_str(txt.substring_char(start, n)))
    } else {
        None
    }
}

/// The piece of `s` numbered `v` from zero, trimmed, where `sep` cuts `s`
/// into that many pieces.
pub open spec fn trimmed_piece(s: Seq<char>, sep: char, v: int) -> Option<Seq<char>> {
    if 0 <= v < pieces(s, sep).len() {
        Some(trim(pieces(s, sep)[v]))
    } else {
        None
    }
}

/// Cuts `txt` at every `sep` and returns the piece numbered `v` from zero,
/// trimmed; nothing where there are too few pieces.
pub fn split_trim(txt: &str, sep: char, v: usize) -> (r: Option<String>)
    ensures
        r.deep_view() == trimmed_piece(txt@, sep, v as int),
{
    match nth_piece(txt, sep, v) {
        Some(piece) => Some(trimmed(piece.as_str())),
        None => None,
    }
}

/// Cuts `txt` at every `split`, takes the piece numbered `v` from zero, and
/// returns it without the white space at its ends.
pub fn parse_split(txt: String, split: char, v: usize) -> (r: String)
    requires
        v < pieces(txt@, split).len(),
    ensures
        r@ == trim(pieces(txt@, split)[v as int]),
{
    split_trim(txt.as_str(), split, v).unwrap()
}

/// Tells whether `s` begins with `prefix`.
pub fn starts_with(s: &str, prefix: &str) -> (r: bool)
    ensures
        r == prefix@.is_prefix_of(s@),
{
    let n: usize = s.unicode_len();
    let m: usize = prefix.unicode_len();
    if m > n {
        return false;
    }
    let mut i: usize = 0;
    while i < m
        invariant
            n == s@.len(),
            m == prefix@.len(),
            i <= m <= n,
            forall|j: int| 0 <= j < i ==> s@[j] == #[trigger] prefix@[j],
        decreases m - i,
    {
        if s.get_char(i) != prefix.get_char(i) {
            return false;
        }
        i = i + 1;
    }
    true
}

/// Tells whether `a` and `b` hold the same characters.
pub fn same_text(a: &str, b: &str) -> (r: bool)
    ensures
        r == (a@ == b@),
{
    let same: bool = a.unicode_len() == b.unicode_len() && starts_with(b, a);
    assert(a@.len() == b@.len() ==> b@.subrange(0, a@.len() as int) == b@);
    same
}

/// Tells whether `c` occurs in `s`.
pub fn has_char(s: &str, c: char) -> (r: bool)
    ensures
        r == s@.contains(c),
{
    let n: usize = s.unicode_len();
    let mut i: usize = 0;
    while i < n
        invariant
            n == s@.len(),
            i <= n,
            forall|j: int| 0 <= j < i ==> #[trigger] s@[j] != c,
        decreases n - i,
    {
        if s.get_char(i) == c {
            return true;
        }
        i = i + 1;
    }
    false
}

/// `n` copies of `s`, one after the other.
pub open spec fn repeated(s: Seq<char>, n: nat) -> Seq<char>
    decreases n,
{
    if n == 0 {
        Seq::empty()
    } else {
        repeated(s, (n - 1) as nat) + s
    }
}

/// Copies of `s` add up: `a` of them followed by `b` of them are `a + b`.
pub proof fn lemma_repeated_add(s: Seq<char>, a: nat, b: nat)
    ensures
        repeated(s, a) + repeated(s, b) == repeated(s, a + b),
    decreases b,
{
    if b == 0 {
    } else {
        lemma_repeated_add(s, a, (b - 1) as nat);
    }
}

/// Writes `s` out `n` times.
pub fn repeat(s: &str, n: usize) -> (r: String)
    ensures
        r@ == repeated(s@, n as nat),
{
    let mut out: String = String::new();
    let mut i: usize = 0;
    while i < n
        invariant
            i <= n,
            out@ == repeated(s@, i as nat),
        decreases n - i,
    {
        out.append(s);
        i = i + 1;
    }
    out
}

} // verus!
