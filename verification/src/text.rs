//! Character classes and the few string operations the address types share.
//!
//! Text is modelled as `Seq<char>`, the view of `str` and `String`. Lengths are
//! counted in characters, never in bytes.

use vstd::prelude::*;
use vstd::std_specs::iter::IteratorSpec;
use vstd::string::*;

verus! {

/// `c` is one of `a..=z` or `A..=Z`.
pub open spec fn is_ascii_alphabetic(c: char) -> bool {
    ('a' <= c && c <= 'z') || ('A' <= c && c <= 'Z')
}

/// `c` is one of `A..=Z`.
pub open spec fn is_ascii_uppercase(c: char) -> bool {
    'A' <= c && c <= 'Z'
}

/// `c` is one of `a..=z`.
pub open spec fn is_ascii_lowercase(c: char) -> bool {
    'a' <= c && c <= 'z'
}

/// `c` is one of `0..=9`.
pub open spec fn is_ascii_digit(c: char) -> bool {
    '0' <= c && c <= '9'
}

/// `c` lies in the ASCII range, `U+0000..=U+007F`.
pub open spec fn is_ascii_char(c: char) -> bool {
    c <= '\u{7f}'
}

/// `c` carries the Unicode property `White_Space`: the ASCII controls
/// `U+0009..=U+000D`, the space, and the twenty code points beyond ASCII that
/// the property names.
pub open spec fn is_whitespace(c: char) -> bool {
    ||| ('\u{09}' <= c && c <= '\u{0d}')
    ||| c == ' '
    ||| c == '\u{85}'
    ||| c == '\u{a0}'
    ||| c == '\u{1680}'
    ||| ('\u{2000}' <= c && c <= '\u{200a}')
    ||| c == '\u{2028}'
    ||| c == '\u{2029}'
    ||| c == '\u{202f}'
    ||| c == '\u{205f}'
    ||| c == '\u{3000}'
}

/// Every character of `s` is an ASCII letter.
pub open spec fn all_ascii_alphabetic(s: Seq<char>) -> bool {
    forall|i: int| 0 <= i < s.len() ==> is_ascii_alphabetic(#[trigger] s[i])
}

/// Every character of `s` is an ASCII uppercase letter or an ASCII digit.
pub open spec fn all_ascii_uppercase_or_digit(s: Seq<char>) -> bool {
    forall|i: int|
        0 <= i < s.len() ==> (is_ascii_uppercase(#[trigger] s[i]) || is_ascii_digit(s[i]))
}

/// Every character of `s` lies in the ASCII range.
pub open spec fn all_ascii(s: Seq<char>) -> bool {
    forall|i: int| 0 <= i < s.len() ==> is_ascii_char(#[trigger] s[i])
}

/// `s` is empty or holds nothing but whitespace: what is left of it after
/// trimming is the empty string.
pub open spec fn is_blank(s: Seq<char>) -> bool {
    forall|i: int| 0 <= i < s.len() ==> is_whitespace(#[trigger] s[i])
}

/// The uppercase form of one ASCII character: `a..=z` move to `A..=Z`, every
/// other character stays.
pub open spec fn ascii_upper(c: char) -> char {
    if is_ascii_lowercase(c) {
        ((c as u32) - 32) as char
    } else {
        c
    }
}

/// `s` with each character replaced by its `ascii_upper`.
pub open spec fn ascii_uppercase(s: Seq<char>) -> Seq<char> {
    Seq::new(s.len(), |i: int| ascii_upper(s[i]))
}

/// The uppercase form that Unicode's full case mapping gives to `s`. It is
/// left uninterpreted: the mapping may lengthen the text, and fills tables.
pub uninterp spec fn unicode_uppercase(s: Seq<char>) -> Seq<char>;

/// The uppercase form of `s`. On ASCII text it is `ascii_uppercase(s)`; on
/// any other text it is whatever Unicode's case mapping gives.
pub open spec fn uppercase(s: Seq<char>) -> Seq<char> {
    if all_ascii(s) {
        ascii_uppercase(s)
    } else {
        unicode_uppercase(s)
    }
}

/// The texts of `parts` written one after another, with a single space
/// between neighbours. No parts give the empty text.
pub open spec fn join_with_space(parts: Seq<Seq<char>>) -> Seq<char>
    decreases parts.len(),
{
    if parts.len() == 0 {
        Seq::empty()
    } else if parts.len() == 1 {
        parts[0]
    } else {
        join_with_space(parts.drop_last()) + seq![' '] + parts.last()
    }
}

/// Calls `str::to_uppercase` of the standard library.
///
/// Trusted, not proved: the result is the Unicode uppercase form of `s`, and
/// for text made of ASCII characters alone that form changes `a..=z` into
/// `A..=Z` and nothing else.
#[verifier::external_body]
pub(crate) fn to_uppercase(s: &str) -> (r: String)
    ensures
        r@ == (if all_ascii(s@) {
            ascii_uppercase(s@)
        } else {
            unicode_uppercase(s@)
        }),
{
    s.to_uppercase()
}

/// Text made of ASCII letters is ASCII text.
pub proof fn lemma_letters_are_ascii(s: Seq<char>)
    requires
        all_ascii_alphabetic(s),
    ensures
        all_ascii(s),
{
    assert forall|i: int| 0 <= i < s.len() implies is_ascii_char(
        #[trigger] s[i],
    ) by {
        assert(is_ascii_alphabetic(s[i]));
    }
}

/// Text of ASCII uppercase letters and digits is ASCII text that uppercasing
/// leaves as it is.
pub proof fn lemma_uppercase_fixed(s: Seq<char>)
    requires
        all_ascii_uppercase_or_digit(s),
    ensures
        all_ascii(s),
        ascii_uppercase(s) == s,
        uppercase(s) == s,
{
    assert forall|i: int| 0 <= i < s.len() implies is_ascii_char(#[trigger] s[i]) by {}
    assert(ascii_uppercase(s) =~= s);
}

/// Uppercasing ASCII text gives ASCII text of the same length, and doing it
/// again changes nothing.
pub proof fn lemma_ascii_uppercase_idempotent(s: Seq<char>)
    requires
        all_ascii(s),
    ensures
        all_ascii(ascii_uppercase(s)),
        ascii_uppercase(s).len() == s.len(),
        ascii_uppercase(ascii_uppercase(s)) == ascii_uppercase(s),
        uppercase(uppercase(s)) == uppercase(s),
{
    let u = ascii_uppercase(s);
    assert forall|i: int| 0 <= i < u.len() implies is_ascii_char(#[trigger] u[i]) by {
        assert(u[i] == ascii_upper(s[i]));
        assert(is_ascii_char(s[i]));
    }
    assert forall|i: int| 0 <= i < u.len() implies ascii_upper(#[trigger] u[i]) == u[i] by {
        assert(u[i] == ascii_upper(s[i]));
    }
    assert(ascii_uppercase(u) =~= u);
}

/// A prefix of `s` that is one longer than another prefix is that prefix
/// with the next character pushed.
proof fn lemma_take_next(s: Seq<char>, k: int)
    requires
        0 <= k < s.len(),
    ensures
        s.take(k + 1) == s.take(k).push(s[k]),
        s.take(s.len() as int) == s,
{
    assert(s.take(k + 1) =~= s.take(k).push(s[k]));
    assert(s.take(s.len() as int) =~= s);
}

/// Whether `c` is Unicode whitespace.
pub fn char_is_whitespace(c: char) -> (r: bool)
    ensures
        r == is_whitespace(c),
{
    (c >= '\u{09}' && c <= '\u{0d}') || c == ' ' || c == '\u{85}' || c == '\u{a0}' || c
        == '\u{1680}' || (c >= '\u{2000}' && c <= '\u{200a}') || c == '\u{2028}' || c
        == '\u{2029}' || c == '\u{202f}' || c == '\u{205f}' || c == '\u{3000}'
}

/// Whether `s` is empty or whitespace only.
pub fn str_is_blank(s: &str) -> (r: bool)
    ensures
        r == is_blank(s@),
{
    let mut blank = true;
    for c in it: s.chars()
        invariant
            it.seq() == s@,
            blank == is_blank(s@.take(it.index() as int)),
    {
        proof {
            let k = it.index() as int;
            lemma_take_next(s@, k);
            let shorter = s@.take(k);
            let longer = s@.take(k + 1);
            assert(longer[k] == c);
            if is_blank(longer) {
                assert forall|i: int| 0 <= i < shorter.len() implies is_whitespace(
                    #[trigger] shorter[i],
                ) by {
                    assert(shorter[i] == longer[i]);
                }
            }
        }
        blank = blank && char_is_whitespace(c);
    }
    assert(s@.take(s@.len() as int) =~= s@);
    blank
}

/// Whether every character of `s` is an ASCII letter.
pub fn str_all_ascii_alphabetic(s: &str) -> (r: bool)
    ensures
        r == all_ascii_alphabetic(s@),
{
    let mut all = true;
    for c in it: s.chars()
        invariant
            it.seq() == s@,
            all == all_ascii_alphabetic(s@.take(it.index() as int)),
    {
        proof {
            let k = it.index() as int;
            lemma_take_next(s@, k);
            let shorter = s@.take(k);
            let longer = s@.take(k + 1);
            assert(longer[k] == c);
            if all_ascii_alphabetic(longer) {
                assert forall|i: int| 0 <= i < shorter.len() implies is_ascii_alphabetic(
                    #[trigger] shorter[i],
                ) by {
                    assert(shorter[i] == longer[i]);
                }
            }
        }
        all = all && ((c >= 'a' && c <= 'z') || (c >= 'A' && c <= 'Z'));
    }
    assert(s@.take(s@.len() as int) =~= s@);
    all
}

/// Whether every character of `s` is an ASCII uppercase letter or an ASCII
/// digit.
pub fn str_all_ascii_uppercase_or_digit(s: &str) -> (r: bool)
    ensures
        r == all_ascii_uppercase_or_digit(s@),
{
    let mut all = true;
    for c in it: s.chars()
        invariant
            it.seq() == s@,
            all == all_ascii_uppercase_or_digit(s@.take(it.index() as int)),
    {
        proof {
            let k = it.index() as int;
            lemma_take_next(s@, k);
            let shorter = s@.take(k);
            let longer = s@.take(k + 1);
            assert(longer[k] == c);
            if all_ascii_uppercase_or_digit(longer) {
                assert forall|i: int| 0 <= i < shorter.len() implies (is_ascii_uppercase(
                    #[trigger] shorter[i],
                ) || is_ascii_digit(shorter[i])) by {
                    assert(shorter[i] == longer[i]);
                }
            }
        }
        all = all && ((c >= 'A' && c <= 'Z') || (c >= '0' && c <= '9'));
    }
    assert(s@.take(s@.len() as int) =~= s@);
    all
}

/// Whether `a` and `b` hold the same characters.
pub fn str_eq(a: &str, b: &str) -> (r: bool)
    ensures
        r == (a@ == b@),
{
    let mut left = a.chars();
    let mut right = b.chars();
    let ghost mut n: int = 0;
    loop
        invariant
            0 <= n <= a@.len(),
            n <= b@.len(),
            left.remaining() == a@.skip(n),
            right.remaining() == b@.skip(n),
            a@.take(n) == b@.take(n),
            left.obeys_prophetic_iter_laws(),
            right.obeys_prophetic_iter_laws(),
        decreases a@.len() - n,
    {
        let x = left.next();
        let y = right.next();
        match (x, y) {
            (None, None) => {
                proof {
                    assert(a@.take(n) =~= a@);
                    assert(b@.take(n) =~= b@);
                }
                return true;
            },
            (Some(p), Some(q)) => {
                proof {
                    assert(p == a@[n]);
                    assert(q == b@[n]);
                }
                if p != q {
                    return false;
                }
                proof {
                    assert(a@.take(n + 1) =~= a@.take(n).push(p));
                    assert(b@.take(n + 1) =~= b@.take(n).push(q));
                    assert(a@.skip(n).drop_first() =~= a@.skip(n + 1));
                    assert(b@.skip(n).drop_first() =~= b@.skip(n + 1));
                    n = n + 1;
                }
            },
            _ => {
                return false;
            },
        }
    }
}

/// Writes `parts` one after another with a single space between neighbours.
pub fn join(parts: &Vec<String>) -> (r: String)
    ensures
        r@ == join_with_space(parts.deep_view()),
{
    let ghost texts = parts.deep_view();
    let mut line = String::new();
    let mut i: usize = 0;
    while i < parts.len()
        invariant
            i <= parts.len(),
            texts == parts.deep_view(),
            line@ == join_with_space(texts.take(i as int)),
        decreases parts.len() - i,
    {
        proof {
            reveal_strlit(" ");
            assert(" "@ =~= seq![' ']);
            assert(texts.take(i + 1).drop_last() =~= texts.take(i as int));
            assert(texts.take(i + 1).last() == parts[i as int]@);
        }
        if i > 0 {
            line.append(" ");
        }
        line.append(parts[i].as_str());
        proof {
            if i == 0 {
                assert(line@ =~= parts[0]@);
            }
        }
        i = i + 1;
    }
    proof {
        assert(texts.take(parts.len() as int) =~= texts);
    }
    line
}

} // verus!
