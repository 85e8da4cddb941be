//! Text: finding a character, cutting at it, and writing numbers.

use vstd::prelude::*;
use vstd::string::*;

verus! {

/// The index of the first `c` in `s`, or the length of `s` where it holds
/// none.
pub open spec fn find(s: Seq<char>, c: char) -> int
    decreases s.len(),
{
    if s.len() == 0 || s[0] == c {
        0
    } else {
        1 + find(s.drop_first(), c)
    }
}

/// `find` names the one index before which no `c` stands and at which one
/// does, or the text ends.
pub proof fn lemma_find(s: Seq<char>, c: char, k: int)
    requires
        0 <= k <= s.len(),
        forall|i: int| 0 <= i < k ==> s[i] != c,
        k == s.len() || s[k] == c,
    ensures
        find(s, c) == k,
    decreases k,
{
    if k > 0 {
        let t = s.drop_first();
        assert forall|i: int| 0 <= i < k - 1 implies t[i] != c by {
            assert(t[i] == s[i + 1]);
        }
        lemma_find(t, c, k - 1);
    }
}

/// What `find` returns lies within the text, no `c` stands before it, and
/// one stands at it unless the text ends there.
pub proof fn lemma_find_is_first(s: Seq<char>, c: char)
    ensures
        0 <= find(s, c) <= s.len(),
        forall|i: int| 0 <= i < find(s, c) ==> s[i] != c,
        find(s, c) < s.len() ==> s[find(s, c)] == c,
    decreases s.len(),
{
    if s.len() != 0 && s[0] != c {
        let t = s.drop_first();
        lemma_find_is_first(t, c);
        assert forall|i: int| 0 <= i < find(s, c) implies s[i] != c by {
            if i > 0 {
                assert(s[i] == t[i - 1]);
            }
        }
    }
}

/// The text before the first full stop: a media file's name without its
/// extension. A name without a full stop is its own stem.
pub open spec fn stem(file: Seq<char>) -> Seq<char> {
    file.take(find(file, '.'))
}

/// The pieces of `s` between its occurrences of `sep`, in order. A text
/// without `sep` is its own single piece, the empty text included.
pub open spec fn split(s: Seq<char>, sep: char) -> Seq<Seq<char>>
    decreases s.len(),
{
    let k = find(s, sep);
    if 0 <= k < s.len() {
        seq![s.take(k)] + split(s.skip(k + 1), sep)
    } else {
        seq![s]
    }
}

/// The pieces put together again, with `sep` between them.
pub open spec fn join(pieces: Seq<Seq<char>>, sep: char) -> Seq<char>
    decreases pieces.len(),
{
    if pieces.len() == 0 {
        Seq::empty()
    } else if pieces.len() == 1 {
        pieces[0]
    } else {
        pieces[0] + seq![sep] + join(pieces.drop_first(), sep)
    }
}

/// Splitting loses nothing: no piece holds the separator, there is at least
/// one piece, and joining the pieces gives the text back.
pub proof fn law_split_loses_nothing(s: Seq<char>, sep: char)
    ensures
        split(s, sep).len() >= 1,
        forall|i: int, j: int|
            0 <= i < split(s, sep).len() && 0 <= j < split(s, sep)[i].len() ==> split(
                s,
                sep,
            )[i][j] != sep,
        join(split(s, sep), sep) == s,
    decreases s.len(),
{
    let k = find(s, sep);
    lemma_find_is_first(s, sep);
    if 0 <= k < s.len() {
        let rest = s.skip(k + 1);
        law_split_loses_nothing(rest, sep);
        let pieces = split(s, sep);
        assert(pieces == seq![s.take(k)] + split(rest, sep));
        assert(pieces.drop_first() =~= split(rest, sep));
        assert(pieces[0] == s.take(k));
        assert(s =~= s.take(k) + seq![sep] + rest);
        assert forall|i: int, j: int|
            0 <= i < pieces.len() && 0 <= j < pieces[i].len() implies pieces[i][j] != sep by {
            if i > 0 {
                assert(pieces[i] == split(rest, sep)[i - 1]);
            }
        }
    }
}

/// The decimal digit for `d`.
pub open spec fn digit(d: int) -> Seq<char> {
    "0123456789"@.subrange(d, d + 1)
}

/// `n` in decimal, without leading zeros.
pub open spec fn decimal(n: nat) -> Seq<char>
    decreases n,
{
    if n < 10 {
        digit(n as int)
    } else {
        decimal(n / 10) + digit((n % 10) as int)
    }
}

/// `n` in decimal, with a minus sign where it is negative.
pub open spec fn signed_decimal(n: int) -> Seq<char> {
    if n < 0 {
        "-"@ + decimal((-n) as nat)
    } else {
        decimal(n as nat)
    }
}

/// `true` or `false`, spelled out.
pub open spec fn truth(b: bool) -> Seq<char> {
    if b {
        "true"@
    } else {
        "false"@
    }
}

/// What the standard library counts as white space: the characters with the
/// Unicode property White_Space.
pub uninterp spec fn white_space(c: char) -> bool;

/// How many characters of white space `s` begins with.
pub open spec fn leading_space(s: Seq<char>) -> int
    decreases s.len(),
{
    if s.len() > 0 && white_space(s[0]) {
        1 + leading_space(s.drop_first())
    } else {
        0
    }
}

/// How many characters of white space `s` ends with.
pub open spec fn trailing_space(s: Seq<char>) -> int
    decreases s.len(),
{
    if s.len() > 0 && white_space(s.last()) {
        1 + trailing_space(s.drop_last())
    } else {
        0
    }
}

/// `s` without the white space at its two ends; empty where `s` is nothing
/// but white space.
pub open spec fn trim(s: Seq<char>) -> Seq<char> {
    if leading_space(s) == s.len() {
        Seq::empty()
    } else {
        s.subrange(leading_space(s), s.len() - trailing_space(s))
    }
}

/// White space up to `k`, and none at `k` or the end of the text there:
/// then `k` characters of white space lead.
pub proof fn lemma_leading_space(s: Seq<char>, k: int)
    requires
        0 <= k <= s.len(),
        forall|i: int| 0 <= i < k ==> white_space(s[i]),
        k == s.len() || !white_space(s[k]),
    ensures
        leading_space(s) == k,
    decreases k,
{
    if k > 0 {
        let t = s.drop_first();
        assert forall|i: int| 0 <= i < k - 1 implies white_space(t[i]) by {
            assert(t[i] == s[i + 1]);
        }
        lemma_leading_space(t, k - 1);
    }
}

/// White space from `k` on, and none before `k` or the start of the text
/// there: then all but `k` characters are white space that trails.
pub proof fn lemma_trailing_space(s: Seq<char>, k: int)
    requires
        0 <= k <= s.len(),
        forall|i: int| k <= i < s.len() ==> white_space(s[i]),
        k == 0 || !white_space(s[k - 1]),
    ensures
        trailing_space(s) == s.len() - k,
    decreases s.len() - k,
{
    if k < s.len() {
        let t = s.drop_last();
        lemma_trailing_space(t, k);
    }
}

/// `str::trim` of the standard library. The claim is its documentation's:
/// the result is the stretch of the text from its first to its last
/// character that is not white space, and empty where every character is.
#[verifier::external_body]
pub(crate) fn trim_str(s: &str) -> (r: &str)
    ensures
        exists|start: int|
            0 <= start <= s@.len() - r@.len() && #[trigger] s@.subrange(start, start + r@.len())
                == r@ && (forall|i: int|
                0 <= i < s@.len() && !(start <= i < start + r@.len()) ==> white_space(s@[i])) && (
            r@.len() > 0 ==> !white_space(r@[0]) && !white_space(r@[r@.len() - 1])),
{
    s.trim()
}

/// The text without the white space at its two ends.
pub fn trimmed(s: &str) -> (r: String)
    ensures
        r@ == trim(s@),
{
    let cut = trim_str(s);
    proof {
        let start = choose|start: int|
            0 <= start <= s@.len() - cut@.len() && #[trigger] s@.subrange(
                start,
                start + cut@.len(),
            ) == cut@ && (forall|i: int|
                0 <= i < s@.len() && !(start <= i < start + cut@.len()) ==> white_space(s@[i]))
                && (cut@.len() > 0 ==> !white_space(cut@[0]) && !white_space(
                cut@[cut@.len() - 1],
            ));
        let end = start + cut@.len();
        if cut@.len() == 0 {
            lemma_leading_space(s@, s@.len() as int);
            assert(cut@ =~= Seq::<char>::empty());
        } else {
            assert(cut@[0] == s@[start]);
            assert(cut@[cut@.len() - 1] == s@[end - 1]);
            lemma_leading_space(s@, start);
            lemma_trailing_space(s@, end);
        }
    }
    String::from_str(cut)
}

/// The index of the first `c` in `s`, or the length of `s` in characters
/// where it holds none.
pub fn position(s: &str, c: char) -> (k: usize)
    ensures
        k == find(s@, c),
        k <= s@.len(),
{
    let n = s.unicode_len();
    let mut i: usize = 0;
    while i < n && s.get_char(i) != c
        invariant
            n == s@.len(),
            i <= n,
            forall|j: int| 0 <= j < i ==> s@[j] != c,
        decreases n - i,
    {
        i += 1;
    }
    proof {
        lemma_find(s@, c, i as int);
    }
    i
}

/// A media file's name without its extension.
pub fn file_stem(file: &str) -> (r: String)
    ensures
        r@ == stem(file@),
{
    let k = position(file, '.');
    String::from_str(file.substring_char(0, k))
}

/// The pieces of `s` between its occurrences of `sep`.
pub fn split_at_each(s: &str, sep: char) -> (r: Vec<String>)
    ensures
        r.deep_view() == split(s@, sep),
{
    let n = s.unicode_len();
    let mut pieces: Vec<String> = Vec::new();
    let mut rest: &str = s;
    assert(pieces.deep_view() =~= Seq::<Seq<char>>::empty());
    loop
        invariant
            pieces.deep_view() + split(rest@, sep) == split(s@, sep),
        decreases rest@.len(),
    {
        let m = rest.unicode_len();
        let k = position(rest, sep);
        if k < m {
            let ghost before = pieces.deep_view();
            pieces.push(String::from_str(rest.substring_char(0, k)));
            let next = rest.substring_char(k + 1, m);
            proof {
                assert(rest@.subrange(0, k as int) =~= rest@.take(k as int));
                assert(next@ =~= rest@.skip(k + 1));
                assert(pieces.deep_view() =~= before + seq![rest@.take(k as int)]);
                assert(pieces.deep_view() + split(next@, sep) =~= before + split(rest@, sep));
            }
            rest = next;
        } else {
            let ghost before = pieces.deep_view();
            pieces.push(String::from_str(rest));
            proof {
                assert(pieces.deep_view() =~= before + seq![rest@]);
            }
            return pieces;
        }
    }
}

/// The decimal digit for `d`.
fn digit_of(d: u64) -> (r: &'static str)
    requires
        d < 10,
    ensures
        r@ == digit(d as int),
{
    proof {
        reveal_strlit("0123456789");
    }
    let digits: &'static str = "0123456789";
    digits.substring_char(d as usize, d as usize + 1)
}

/// `n` in decimal.
pub fn decimal_of(n: u64) -> (r: String)
    ensures
        r@ == decimal(n as nat),
    decreases n,
{
    if n < 10 {
        String::from_str(digit_of(n))
    } else {
        decimal_of(n / 10).concat(digit_of(n % 10))
    }
}

/// `n` in decimal, with a minus sign where it is negative.
pub fn signed_decimal_of(n: i32) -> (r: String)
    ensures
        r@ == signed_decimal(n as int),
{
    let wide: i64 = n as i64;
    if wide < 0 {
        String::from_str("-").concat(decimal_of((-wide) as u64).as_str())
    } else {
        decimal_of(wide as u64)
    }
}

/// `true` or `false`, spelled out.
pub fn truth_of(b: bool) -> (r: String)
    ensures
        r@ == truth(b),
{
    if b {
        String::from_str("true")
    } else {
        String::from_str("false")
    }
}

} // verus!
