//! Calls into std's text handling that vstd gives no contract.
use vstd::prelude::*;
use vstd::utf8::{decode_utf8, valid_utf8};

verus! {

/// What `String::from_utf8_lossy` makes of a byte sequence.
pub uninterp spec fn utf8_lossy(b: Seq<u8>) -> Seq<char>;

/// Relies on `String::from_utf8_lossy`: the text that the bytes hold, invalid
/// sequences replaced; bytes that are valid UTF-8 give exactly their characters.
#[verifier::external_body]
pub(crate) fn decode_lossy(b: &[u8]) -> (r: String)
    ensures
        r@ == utf8_lossy(b@),
        valid_utf8(b@) ==> r@ == decode_utf8(b@),
{
    String::from_utf8_lossy(b).into_owned()
}

/// The characters of a string slice, in order.
pub fn str_chars(s: &str) -> (r: Vec<char>)
    ensures
        r@ == s@,
{
    broadcast use vstd::string::axiom_spec_iter;

    let mut r: Vec<char> = Vec::new();
    for c in it: s.chars()
        invariant
            r@ == it.seq().subrange(0, it.index() as int),
    {
        r.push(c);
    }
    r
}

/// Whether `n` is where UTF-8 validation of `b` stops: the longest prefix of `b`
/// that is valid UTF-8 has length `n`.
pub open spec fn valid_prefix_len(b: Seq<u8>, n: int) -> bool {
    &&& 0 <= n <= b.len()
    &&& valid_utf8(b.subrange(0, n))
    &&& forall|m: int| n < m <= b.len() ==> !valid_utf8(#[trigger] b.subrange(0, m))
}

/// Relies on `std::str::from_utf8`: it accepts exactly the valid UTF-8 byte
/// sequences; on refusal the payload is `Utf8Error::valid_up_to`, documented as
/// the largest index such that the bytes before it are valid UTF-8.
#[verifier::external_body]
pub(crate) fn check_utf8(b: &[u8]) -> (r: Result<(), usize>)
    ensures
        r is Ok <==> valid_utf8(b@),
        r matches Err(n) ==> valid_prefix_len(b@, n as int),
{
    std::str::from_utf8(b).map(|_| ()).map_err(|e| e.valid_up_to())
}

/// Whether a character has the Unicode White_Space property.
pub open spec fn is_white_space(c: char) -> bool {
    ('\u{9}' <= c && c <= '\u{d}') || c == ' ' || c == '\u{85}' || c == '\u{a0}' || c
        == '\u{1680}' || ('\u{2000}' <= c && c <= '\u{200a}') || c == '\u{2028}' || c
        == '\u{2029}' || c == '\u{202f}' || c == '\u{205f}' || c == '\u{3000}'
}

/// Whether a character has the Unicode White_Space property.
pub fn is_white(c: char) -> (r: bool)
    ensures
        r == is_white_space(c),
{
    ('\u{9}' <= c && c <= '\u{d}') || c == ' ' || c == '\u{85}' || c == '\u{a0}' || c
        == '\u{1680}' || ('\u{2000}' <= c && c <= '\u{200a}') || c == '\u{2028}' || c
        == '\u{2029}' || c == '\u{202f}' || c == '\u{205f}' || c == '\u{3000}'
}

/// The whitespace-separated words of `s` from `i` on, the current word holding `cur`.
pub open spec fn words_from(s: Seq<char>, i: int, cur: Seq<char>) -> Seq<Seq<char>>
    decreases s.len() - i,
{
    if i >= s.len() {
        if cur.len() > 0 {
            seq![cur]
        } else {
            Seq::empty()
        }
    } else if is_white_space(s[i]) {
        if cur.len() > 0 {
            seq![cur] + words_from(s, i + 1, Seq::empty())
        } else {
            words_from(s, i + 1, Seq::empty())
        }
    } else {
        words_from(s, i + 1, cur.push(s[i]))
    }
}

/// The whitespace-separated words of `s`.
pub open spec fn words(s: Seq<char>) -> Seq<Seq<char>> {
    words_from(s, 0, Seq::empty())
}

/// Splits a character sequence at whitespace.
pub fn split_words(s: &Vec<char>) -> (r: Vec<Vec<char>>)
    ensures
        r@.len() == words(s@).len(),
        forall|k: int| 0 <= k < r@.len() ==> (#[trigger] r@[k])@ == words(s@)[k],
{
    let mut r: Vec<Vec<char>> = Vec::new();
    let mut cur: Vec<char> = Vec::new();
    let mut i: usize = 0;
    let ghost done: Seq<Seq<char>> = Seq::empty();
    while i < s.len()
        invariant
            i <= s@.len(),
            r@.len() == done.len(),
            forall|k: int| 0 <= k < r@.len() ==> (#[trigger] r@[k])@ == done[k],
            done + words_from(s@, i as int, cur@) == words(s@),
        decreases s.len() - i,
    {
        let c = s[i];
        let ghost old_cur = cur@;
        if is_white(c) {
            if cur.len() == 0 {
                assert(cur@ =~= Seq::<char>::empty());
                assert(words_from(s@, i as int, cur@) == words_from(s@, i + 1, cur@));
            }
            if cur.len() > 0 {
                proof {
                    assert(done + words_from(s@, i as int, cur@) =~= done.push(cur@) + words_from(
                        s@,
                        i + 1,
                        Seq::empty(),
                    ));
                    done = done.push(cur@);
                }
                r.push(cur);
                cur = Vec::new();
            }
        } else {
            cur.push(c);
            assert(words_from(s@, i as int, old_cur) == words_from(s@, i + 1, cur@));
        }
        i = i + 1;
    }
    if cur.len() > 0 {
        proof {
            assert(done + words_from(s@, i as int, cur@) =~= done.push(cur@));
            done = done.push(cur@);
        }
        r.push(cur);
    } else {
        assert(done + words_from(s@, i as int, cur@) =~= done);
    }
    r
}

/// The value of a string of decimal digits.
pub open spec fn digits_value(s: Seq<char>) -> int
    decreases s.len(),
{
    if s.len() == 0 {
        0
    } else {
        digits_value(s.drop_last()) * 10 + (s.last() as int - 48)
    }
}

/// Whether every character is a decimal digit.
pub open spec fn all_digits(s: Seq<char>) -> bool {
    forall|i: int| 0 <= i < s.len() ==> '0' <= #[trigger] s[i] && s[i] <= '9'
}

/// `s` without a leading `+`.
pub open spec fn unsigned_part(s: Seq<char>) -> Seq<char> {
    if s.len() > 0 && s[0] == '+' {
        s.skip(1)
    } else {
        s
    }
}

/// What `str::parse::<usize>` makes of `s`: an optional `+`, then one or more
/// digits whose value fits.
pub open spec fn parse_usize_spec(s: Seq<char>) -> Option<usize> {
    let t = unsigned_part(s);
    if t.len() > 0 && all_digits(t) && digits_value(t) <= usize::MAX {
        Some(digits_value(t) as usize)
    } else {
        None
    }
}

proof fn lemma_digits_grow(s: Seq<char>, k: int)
    requires
        0 <= k <= s.len(),
        all_digits(s),
    ensures
        digits_value(s.subrange(0, k)) <= digits_value(s),
        0 <= digits_value(s.subrange(0, k)),
    decreases s.len() - k,
{
    if k < s.len() {
        lemma_digits_grow(s, k + 1);
        assert(s.subrange(0, k + 1).drop_last() =~= s.subrange(0, k));
        assert('0' <= s[k] <= '9');
    } else {
        assert(s.subrange(0, k) =~= s);
        lemma_digits_nonneg(s);
    }
}

proof fn lemma_digits_nonneg(s: Seq<char>)
    requires
        all_digits(s),
    ensures
        0 <= digits_value(s),
    decreases s.len(),
{
    if s.len() > 0 {
        assert(all_digits(s.drop_last()));
        lemma_digits_nonneg(s.drop_last());
        assert('0' <= s[s.len() - 1] <= '9');
    }
}

/// Parses a decimal number as `str::parse::<usize>` does.
pub fn parse_usize(s: &Vec<char>) -> (r: Option<usize>)
    ensures
        r == parse_usize_spec(s@),
{
    let start: usize = if s.len() > 0 && s[0] == '+' { 1 } else { 0 };
    let ghost t = unsigned_part(s@);
    assert(t =~= s@.subrange(start as int, s@.len() as int));
    if start >= s.len() {
        return None;
    }
    let mut v: usize = 0;
    let mut i: usize = start;
    while i < s.len()
        invariant
            start <= i <= s@.len(),
            t == unsigned_part(s@),
            t =~= s@.subrange(start as int, s@.len() as int),
            all_digits(t.subrange(0, i - start)),
            v as int == digits_value(t.subrange(0, i - start)),
        decreases s.len() - i,
    {
        let c = s[i];
        if !('0' <= c && c <= '9') {
            assert(t[i - start] == c);
            assert(!all_digits(t));
            return None;
        }
        let d = (c as u32 - 48) as usize;
        assert(t.subrange(0, i + 1 - start).drop_last() =~= t.subrange(0, i - start));
        if v > (usize::MAX - d) / 10 {
            proof {
                assert(all_digits(t.subrange(0, i + 1 - start)));
                assert(digits_value(t.subrange(0, i + 1 - start)) > usize::MAX) by (nonlinear_arith)
                    requires
                        digits_value(t.subrange(0, i + 1 - start)) == v * 10 + d,
                        v > (usize::MAX - d) / 10,
                        d <= 9,
                ;
                if all_digits(t) {
                    lemma_digits_grow(t, i + 1 - start);
                    assert(digits_value(t) > usize::MAX);
                }
            }
            return None;
        }
        assert(v * 10 + d <= usize::MAX) by (nonlinear_arith)
            requires
                v <= (usize::MAX - d) / 10,
                d <= 9,
        ;
        v = v * 10 + d;
        i = i + 1;
        assert(all_digits(t.subrange(0, i - start)));
    }
    assert(t.subrange(0, i - start) =~= t);
    Some(v)
}

/// Relies on `String`'s `FromIterator<char>`: the string holds exactly the characters.
#[verifier::external_body]
pub(crate) fn string_from_chars(v: &Vec<char>) -> (r: String)
    ensures
        r@ == v@,
{
    v.iter().collect()
}

/// The decimal digits of `n`.
pub open spec fn decimal(n: nat) -> Seq<char>
    decreases n,
{
    if n < 10 {
        seq![(n + 48) as char]
    } else {
        decimal(n / 10).push(((n % 10) + 48) as char)
    }
}

/// Appends the decimal digits of `n`.
pub fn push_decimal(n: usize, out: &mut Vec<char>)
    ensures
        final(out)@ == old(out)@ + decimal(n as nat),
    decreases n,
{
    if n < 10 {
        out.push(((n as u8) + 48) as char);
    } else {
        push_decimal(n / 10, out);
        out.push((((n % 10) as u8) + 48) as char);
    }
    assert(final(out)@ =~= old(out)@ + decimal(n as nat));
}

/// Whether `char::is_alphabetic` holds of a character.
pub uninterp spec fn alphabetic(c: char) -> bool;

/// Relies on `char::is_alphabetic`: whether the character has the Unicode
/// Alphabetic property.
#[verifier::external_body]
pub(crate) fn char_is_alphabetic(c: char) -> (r: bool)
    ensures
        r == alphabetic(c),
{
    c.is_alphabetic()
}

/// Whether `char::is_lowercase` holds of a character.
pub uninterp spec fn lowercase(c: char) -> bool;

/// Relies on `char::is_lowercase`: whether the character has the Unicode
/// Lowercase property.
#[verifier::external_body]
pub(crate) fn char_is_lowercase(c: char) -> (r: bool)
    ensures
        r == lowercase(c),
{
    c.is_lowercase()
}

/// The first character of `char::to_uppercase`.
pub uninterp spec fn upper_first(c: char) -> Option<char>;

/// Relies on `char::to_uppercase`: the first character of the uppercase mapping.
#[verifier::external_body]
pub(crate) fn char_upper_first(c: char) -> (r: Option<char>)
    ensures
        r == upper_first(c),
{
    c.to_uppercase().next()
}

/// The first character of `char::to_lowercase`.
pub uninterp spec fn lower_first(c: char) -> Option<char>;

/// Relies on `char::to_lowercase`: the first character of the lowercase mapping.
#[verifier::external_body]
pub(crate) fn char_lower_first(c: char) -> (r: Option<char>)
    ensures
        r == lower_first(c),
{
    c.to_lowercase().next()
}

} // verus!
