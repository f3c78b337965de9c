//! Character-level text primitives shared by the detection rules.
//!
//! Texts are modelled as `Seq<char>`; the executable functions work on
//! `&[char]` slices and are specified against the functions of the model.

use vstd::prelude::*;
use vstd::slice::slice_subrange;
use vstd::string::StrSliceExecFns;

verus! {

/// Whether `c` has the Unicode `White_Space` property.
pub open spec fn is_whitespace(c: char) -> bool {
    let u = c as u32;
    ||| 0x09 <= u <= 0x0D
    ||| u == 0x20
    ||| u == 0x85
    ||| u == 0xA0
    ||| u == 0x1680
    ||| 0x2000 <= u <= 0x200A
    ||| u == 0x2028
    ||| u == 0x2029
    ||| u == 0x202F
    ||| u == 0x205F
    ||| u == 0x3000
}

/// The number of whitespace characters that `s` begins with.
pub open spec fn blank_len(s: Seq<char>) -> nat
    decreases s.len(),
{
    if s.len() > 0 && is_whitespace(s[0]) {
        1 + blank_len(s.drop_first())
    } else {
        0
    }
}

/// The number of whitespace characters that `s` ends with.
pub open spec fn trailing_blank_len(s: Seq<char>) -> nat
    decreases s.len(),
{
    if s.len() > 0 && is_whitespace(s.last()) {
        1 + trailing_blank_len(s.drop_last())
    } else {
        0
    }
}

/// `s` without its leading whitespace.
pub open spec fn trim_start(s: Seq<char>) -> Seq<char> {
    s.skip(blank_len(s) as int)
}

/// `s` without its trailing whitespace.
pub open spec fn trim_end(s: Seq<char>) -> Seq<char> {
    s.take(s.len() - trailing_blank_len(s))
}

/// `s` without its leading and trailing whitespace.
pub open spec fn trim(s: Seq<char>) -> Seq<char> {
    trim_end(trim_start(s))
}

/// The number of characters before the first whitespace character of `s`.
pub open spec fn token_len(s: Seq<char>) -> nat
    decreases s.len(),
{
    if s.len() > 0 && !is_whitespace(s[0]) {
        1 + token_len(s.drop_first())
    } else {
        0
    }
}

/// The first whitespace-delimited token of `s`; empty if there is none.
pub open spec fn first_token(s: Seq<char>) -> Seq<char> {
    let t = trim_start(s);
    t.take(token_len(t) as int)
}

/// Whether `s` holds no whitespace character.
pub open spec fn no_blank(s: Seq<char>) -> bool {
    forall|i: int| 0 <= i < s.len() ==> !is_whitespace(#[trigger] s[i])
}

/// The number of characters that go when `prefix` is removed from the start
/// of `s` as often as it stands there. An empty prefix removes nothing.
pub open spec fn strip_len(s: Seq<char>, prefix: Seq<char>) -> nat
    decreases s.len(),
{
    if prefix.len() > 0 && prefix.is_prefix_of(s) {
        prefix.len() + strip_len(s.skip(prefix.len() as int), prefix)
    } else {
        0
    }
}

/// `s` with every leading repetition of `prefix` removed.
pub open spec fn strip(s: Seq<char>, prefix: Seq<char>) -> Seq<char> {
    s.skip(strip_len(s, prefix) as int)
}

/// The number of characters before the first `sep` in `s`.
pub open spec fn segment_len(s: Seq<char>, sep: char) -> nat
    decreases s.len(),
{
    if s.len() > 0 && s[0] != sep {
        1 + segment_len(s.drop_first(), sep)
    } else {
        0
    }
}

/// The first part of `split_on(s, sep)`.
pub open spec fn first_segment(s: Seq<char>, sep: char) -> Seq<char> {
    s.take(segment_len(s, sep) as int)
}

/// The parts of `s` between occurrences of `sep`. A text without `sep` is
/// its own single part; a `sep` at the end is followed by an empty part.
pub open spec fn split_on(s: Seq<char>, sep: char) -> Seq<Seq<char>>
    decreases s.len(),
{
    let n = segment_len(s, sep);
    if n < s.len() {
        seq![s.take(n as int)] + split_on(s.skip(n as int + 1), sep)
    } else {
        seq![s]
    }
}

/// The lines of a text: its parts between line feeds.
pub open spec fn lines(s: Seq<char>) -> Seq<Seq<char>> {
    split_on(s, '\n')
}

/// The parts joined into one text, with `sep` between neighbours.
pub open spec fn join(parts: Seq<Seq<char>>, sep: Seq<char>) -> Seq<char>
    decreases parts.len(),
{
    if parts.len() == 0 {
        Seq::empty()
    } else if parts.len() == 1 {
        parts[0]
    } else {
        join(parts.drop_last(), sep) + sep + parts.last()
    }
}

/// Whether `pattern` occurs in `s` as a contiguous part.
pub open spec fn contains_text(s: Seq<char>, pattern: Seq<char>) -> bool {
    exists|i: int| 0 <= i <= s.len() && pattern.is_prefix_of(#[trigger] s.skip(i))
}

/// What `str::to_lowercase` makes of a text: its lowercase form by the
/// Unicode character database.
pub uninterp spec fn lowercase(text: Seq<char>) -> Seq<char>;

/// Whether `c` is one of the decimal digits `0` to `9`.
pub open spec fn is_digit(c: char) -> bool {
    0x30 <= c as u32 <= 0x39
}

/// Whether `s` consists of decimal digits only.
pub open spec fn all_digits(s: Seq<char>) -> bool {
    forall|i: int| 0 <= i < s.len() ==> is_digit(#[trigger] s[i])
}

/// The number that the decimal digits `s` write.
pub open spec fn digits_value(s: Seq<char>) -> nat
    decreases s.len(),
{
    if s.len() == 0 {
        0
    } else {
        10 * digits_value(s.drop_last()) + (s.last() as u32 - 0x30) as nat
    }
}

/// The number that `s` writes: an optional `+`, then one or more decimal
/// digits, nothing else, and a value that fits in 32 bits.
pub open spec fn parse_u32(s: Seq<char>) -> Option<u32> {
    let digits = if s.len() > 0 && s[0] == '+' {
        s.drop_first()
    } else {
        s
    };
    if digits.len() > 0 && all_digits(digits) && digits_value(digits) <= u32::MAX {
        Some(digits_value(digits) as u32)
    } else {
        None
    }
}

/// Whether the characters of `s` within `bounds` are those of `part`.
pub open spec fn part_is(s: Seq<char>, bounds: (usize, usize), part: Seq<char>) -> bool {
    bounds.0 <= bounds.1 <= s.len() && s.subrange(bounds.0 as int, bounds.1 as int) == part
}

/// Whether `bounds` mark, one for one, where the `parts` stand in `s`.
pub open spec fn bounds_of(s: Seq<char>, bounds: Seq<(usize, usize)>, parts: Seq<Seq<char>>) -> bool {
    bounds.len() == parts.len() && forall|i: int|
        0 <= i < bounds.len() ==> part_is(s, #[trigger] bounds[i], parts[i])
}

/// Whether `c` is a whitespace character: see [`is_whitespace`].
pub fn char_is_whitespace(c: char) -> (r: bool)
    ensures
        r == is_whitespace(c),
{
    let u: u32 = c as u32;
    (0x09 <= u && u <= 0x0D) || u == 0x20 || u == 0x85 || u == 0xA0 || u == 0x1680 || (0x2000 <= u
        && u <= 0x200A) || u == 0x2028 || u == 0x2029 || u == 0x202F || u == 0x205F || u == 0x3000
}

/// The characters of `s`, in order.
pub fn to_chars(s: &str) -> (v: Vec<char>)
    ensures
        v@ == s@,
{
    broadcast use vstd::string::group_string_axioms;

    let mut v: Vec<char> = Vec::new();
    for c in it: s.chars()
        invariant
            it.seq() == s@,
            v@ == it.history(),
    {
        v.push(c);
    }
    v
}

/// Whether the characters of `s` are exactly those of `t`.
pub fn is_text(s: &[char], t: &str) -> (r: bool)
    ensures
        r == (s@ == t@),
{
    broadcast use vstd::string::group_string_axioms;

    let mut i: usize = 0;
    for c in it: t.chars()
        invariant
            it.seq() == t@,
            i == it.index(),
            i <= s.len(),
            s@.take(i as int) == t@.take(i as int),
    {
        if i >= s.len() || s[i] != c {
            return false;
        }
        i += 1;
    }
    assert(s@.take(s.len() as int) == s@);
    assert(t@.take(t@.len() as int) == t@);
    i == s.len()
}

/// Whether `s` begins with the characters of `prefix`.
pub fn starts_with(s: &[char], prefix: &str) -> (r: bool)
    ensures
        r == prefix@.is_prefix_of(s@),
{
    broadcast use vstd::string::group_string_axioms;

    let mut i: usize = 0;
    for c in it: prefix.chars()
        invariant
            it.seq() == prefix@,
            i == it.index(),
            i <= s.len(),
            s@.take(i as int) == prefix@.take(i as int),
    {
        if i >= s.len() || s[i] != c {
            return false;
        }
        i += 1;
    }
    true
}

/// Whether `pattern` occurs in `s` as a contiguous part.
pub fn contains(s: &[char], pattern: &str) -> (r: bool)
    ensures
        r == contains_text(s@, pattern@),
{
    let mut i: usize = 0;
    loop
        invariant
            i <= s.len(),
            forall|j: int| 0 <= j < i ==> !pattern@.is_prefix_of(#[trigger] s@.skip(j)),
        decreases s.len() - i,
    {
        if starts_with(slice_subrange(s, i, s.len()), pattern) {
            return true;
        }
        if i == s.len() {
            return false;
        }
        i += 1;
    }
}

/// Counts the whitespace characters that `s` begins with.
pub fn skip_blank(s: &[char]) -> (n: usize)
    ensures
        n == blank_len(s@),
        n <= s.len(),
{
    let mut i: usize = 0;
    assert(s@.skip(0) == s@);
    while i < s.len() && char_is_whitespace(s[i])
        invariant
            i <= s.len(),
            blank_len(s@) == i + blank_len(s@.skip(i as int)),
        decreases s.len() - i,
    {
        assert(s@.skip(i as int).drop_first() == s@.skip(i + 1));
        i += 1;
    }
    i
}

/// Counts the characters before the first whitespace character of `s`.
pub fn token_end(s: &[char]) -> (n: usize)
    ensures
        n == token_len(s@),
        n <= s.len(),
{
    let mut i: usize = 0;
    assert(s@.skip(0) == s@);
    while i < s.len() && !char_is_whitespace(s[i])
        invariant
            i <= s.len(),
            token_len(s@) == i + token_len(s@.skip(i as int)),
        decreases s.len() - i,
    {
        assert(s@.skip(i as int).drop_first() == s@.skip(i + 1));
        i += 1;
    }
    i
}

/// Counts the characters before the first `sep` in `s`.
pub fn segment_end(s: &[char], sep: char) -> (n: usize)
    ensures
        n == segment_len(s@, sep),
        n <= s.len(),
{
    let mut i: usize = 0;
    assert(s@.skip(0) == s@);
    while i < s.len() && s[i] != sep
        invariant
            i <= s.len(),
            segment_len(s@, sep) == i + segment_len(s@.skip(i as int), sep),
        decreases s.len() - i,
    {
        assert(s@.skip(i as int).drop_first() == s@.skip(i + 1));
        i += 1;
    }
    i
}

/// The bounds of `s` without the whitespace at both ends.
pub fn trim_bounds(s: &[char]) -> (r: (usize, usize))
    ensures
        r.0 <= r.1 <= s.len(),
        s@.subrange(r.0 as int, r.1 as int) == trim(s@),
{
    let start = skip_blank(s);
    let t = slice_subrange(s, start, s.len());
    let mut end: usize = t.len();
    assert(t@.take(t.len() as int) == t@);
    while end > 0 && char_is_whitespace(t[end - 1])
        invariant
            end <= t.len(),
            trailing_blank_len(t@) == (t.len() - end) + trailing_blank_len(t@.take(end as int)),
        decreases end,
    {
        assert(t@.take(end as int).drop_last() == t@.take(end - 1));
        end -= 1;
    }
    (start, start + end)
}

/// The bounds of the first whitespace-delimited token of `s`.
pub fn token_bounds(s: &[char]) -> (r: (usize, usize))
    ensures
        r.0 <= r.1 <= s.len(),
        s@.subrange(r.0 as int, r.1 as int) == first_token(s@),
{
    let start = skip_blank(s);
    let t = slice_subrange(s, start, s.len());
    let end = token_end(t);
    (start, start + end)
}

/// Where `s` continues after `start` once every repetition of `prefix` that
/// stands there is passed.
pub(crate) fn strip_from(s: &[char], start: usize, prefix: &str) -> (r: usize)
    requires
        start <= s.len(),
    ensures
        start <= r <= s.len(),
        s@.skip(r as int) == strip(s@.skip(start as int), prefix@),
{
    let k = prefix.unicode_len();
    let ghost tail = s@.skip(start as int);
    if k == 0 {
        return start;
    }
    let mut i: usize = start;
    loop
        invariant
            start <= i <= s.len(),
            k == prefix@.len(),
            k > 0,
            tail == s@.skip(start as int),
            strip_len(tail, prefix@) == (i - start) + strip_len(s@.skip(i as int), prefix@),
        ensures
            start <= i <= s.len(),
            strip_len(tail, prefix@) == i - start,
        decreases s.len() - i,
    {
        let rest = slice_subrange(s, i, s.len());
        if !starts_with(rest, prefix) {
            break;
        }
        assert(s@.skip(i as int).skip(k as int) == s@.skip(i + k));
        i += k;
    }
    i
}

/// The bounds of the parts of `s` between occurrences of `sep`, in order.
pub fn split_bounds(s: &[char], sep: char) -> (r: Vec<(usize, usize)>)
    ensures
        bounds_of(s@, r@, split_on(s@, sep)),
{
    let mut out: Vec<(usize, usize)> = Vec::new();
    let mut pos: usize = 0;
    let ghost parts = split_on(s@, sep);
    assert(s@.skip(0) == s@);
    loop
        invariant_except_break
            pos <= s.len(),
            out@.len() <= parts.len(),
            parts.skip(out@.len() as int) == split_on(s@.skip(pos as int), sep),
        invariant
            parts == split_on(s@, sep),
            forall|i: int| 0 <= i < out@.len() ==> part_is(s@, #[trigger] out@[i], parts[i]),
        ensures
            out@.len() == parts.len(),
        decreases s.len() - pos,
    {
        let rest = slice_subrange(s, pos, s.len());
        let n = segment_end(rest, sep);
        let ghost k = out@.len() as int;
        let ghost tail = parts.skip(k);
        assert(tail.len() == parts.len() - k);
        if n < rest.len() {
            proof {
                assert(tail[0] == rest@.take(n as int));
                assert(s@.subrange(pos as int, pos + n) == rest@.take(n as int));
                assert(rest@.skip(n + 1) == s@.skip(pos + n + 1));
                assert(parts.skip(k + 1) == tail.skip(1));
            }
            out.push((pos, pos + n));
            pos = pos + n + 1;
        } else {
            proof {
                assert(parts[k] == tail[0]);
            }
            out.push((pos, s.len()));
            break;
        }
    }
    out
}

/// The text of the characters of `text` from `start` up to `end`.
pub(crate) fn substring(text: &str, start: usize, end: usize) -> (r: String)
    requires
        start <= end <= text@.len(),
    ensures
        r@ == text@.subrange(start as int, end as int),
{
    text.substring_char(start, end).to_owned()
}

/// `str::to_lowercase`: the lowercase form of a text. The result depends on
/// the text alone.
#[verifier::external_body]
pub(crate) fn to_lowercase(text: &str) -> (r: String)
    ensures
        r@ == lowercase(text@),
{
    text.to_lowercase()
}

/// Reads the number that `s` writes, as `str::parse::<u32>` does: an
/// optional `+`, then decimal digits whose value fits in 32 bits.
pub fn parse_number(s: &[char]) -> (r: Option<u32>)
    ensures
        r == parse_u32(s@),
{
    let digits = if s.len() > 0 && s[0] == '+' {
        slice_subrange(s, 1, s.len())
    } else {
        s
    };
    if digits.len() == 0 {
        return None;
    }
    let mut value: u32 = 0;
    let mut i: usize = 0;
    while i < digits.len()
        invariant
            i <= digits.len(),
            digits.len() > 0,
            digits@ == if s@.len() > 0 && s@[0] == '+' {
                s@.drop_first()
            } else {
                s@
            },
            all_digits(digits@.take(i as int)),
            value == digits_value(digits@.take(i as int)),
        decreases digits.len() - i,
    {
        let code: u32 = digits[i] as u32;
        if code < 0x30 || code > 0x39 {
            return None;
        }
        let digit: u32 = code - 0x30;
        assert(digits@.take(i + 1).drop_last() == digits@.take(i as int));
        if value > (u32::MAX - digit) / 10 {
            proof {
                if all_digits(digits@) {
                    lemma_digits_value_prefix(digits@, i + 1);
                }
            }
            return None;
        }
        value = value * 10 + digit;
        i += 1;
    }
    assert(digits@.take(digits.len() as int) == digits@);
    Some(value)
}

/// No text begins with more whitespace characters than it has characters.
pub proof fn lemma_blank_len_bound(s: Seq<char>)
    ensures
        blank_len(s) <= s.len(),
    decreases s.len(),
{
    if s.len() > 0 && is_whitespace(s[0]) {
        lemma_blank_len_bound(s.drop_first());
    }
}

/// A text without whitespace keeps its length as a token.
pub proof fn lemma_token_len_no_blank(s: Seq<char>)
    requires
        no_blank(s),
    ensures
        token_len(s) == s.len(),
    decreases s.len(),
{
    if s.len() > 0 {
        assert forall|i: int| 0 <= i < s.drop_first().len() implies !is_whitespace(
            #[trigger] s.drop_first()[i],
        ) by {
        }
        lemma_token_len_no_blank(s.drop_first());
    }
}

/// The characters before the first whitespace character are no whitespace.
pub proof fn lemma_token_no_blank(s: Seq<char>)
    ensures
        token_len(s) <= s.len(),
        no_blank(s.take(token_len(s) as int)),
    decreases s.len(),
{
    if s.len() > 0 && !is_whitespace(s[0]) {
        let rest = s.drop_first();
        lemma_token_no_blank(rest);
        let n = token_len(s) as int;
        assert forall|i: int| 0 <= i < n implies !is_whitespace(#[trigger] s.take(n)[i]) by {
            if i > 0 {
                assert(s.take(n)[i] == rest.take(n - 1)[i - 1]);
            }
        }
    }
}

/// A first token holds no whitespace.
pub proof fn lemma_first_token_no_blank(s: Seq<char>)
    ensures
        no_blank(first_token(s)),
        first_token(s).len() <= s.len(),
{
    lemma_blank_len_bound(s);
    lemma_token_no_blank(trim_start(s));
}

/// A text without whitespace is its own first token and is left as it is
/// by trimming.
pub proof fn lemma_no_blank_fixed(s: Seq<char>)
    requires
        no_blank(s),
    ensures
        trim(s) == s,
        first_token(s) == s,
{
    if s.len() > 0 {
    }
    assert(s.skip(0) == s);
    lemma_token_len_no_blank(s);
}

/// Removing a prefix removes no more characters than the text has.
pub proof fn lemma_strip_len_bound(s: Seq<char>, prefix: Seq<char>)
    ensures
        strip_len(s, prefix) <= s.len(),
    decreases s.len(),
{
    if prefix.len() > 0 && prefix.is_prefix_of(s) {
        lemma_strip_len_bound(s.skip(prefix.len() as int), prefix);
    }
}

/// Removing a prefix that does not stand at the start changes nothing;
/// removing one that stands there makes the text shorter.
pub proof fn lemma_strip_effect(s: Seq<char>, prefix: Seq<char>)
    ensures
        strip(s, prefix).len() <= s.len(),
        !(prefix.len() > 0 && prefix.is_prefix_of(s)) ==> strip(s, prefix) == s,
        prefix.len() > 0 && prefix.is_prefix_of(s) ==> strip(s, prefix).len() < s.len(),
{
    lemma_strip_len_bound(s, prefix);
    if prefix.len() > 0 && prefix.is_prefix_of(s) {
        lemma_strip_len_bound(s.skip(prefix.len() as int), prefix);
    } else {
    }
}

/// The first separator stands within the text, or there is none.
pub proof fn lemma_segment_len_bound(s: Seq<char>, sep: char)
    ensures
        segment_len(s, sep) <= s.len(),
    decreases s.len(),
{
    if s.len() > 0 && s[0] != sep {
        lemma_segment_len_bound(s.drop_first(), sep);
    }
}

/// The parts of a split begin with the first segment; there is a second
/// part exactly when the separator occurs, and it is the first segment of
/// what follows the separator.
pub proof fn lemma_split_on_parts(s: Seq<char>, sep: char)
    ensures
        split_on(s, sep).len() >= 1,
        split_on(s, sep)[0] == first_segment(s, sep),
        split_on(s, sep).len() >= 2 <==> segment_len(s, sep) < s.len(),
        segment_len(s, sep) < s.len() ==> split_on(s, sep)[1] == first_segment(
            s.skip(segment_len(s, sep) as int + 1),
            sep,
        ),
{
    let n = segment_len(s, sep) as int;
    lemma_segment_len_bound(s, sep);
    if n < s.len() {
        let rest = s.skip(n + 1);
        lemma_segment_len_bound(rest, sep);
        let m = segment_len(rest, sep) as int;
        if m < rest.len() {
            assert(split_on(rest, sep) == seq![rest.take(m)] + split_on(rest.skip(m + 1), sep));
        } else {
        }
    } else {
    }
}

/// The value of a prefix of a digit string is at most the value of the whole.
pub proof fn lemma_digits_value_prefix(s: Seq<char>, k: int)
    requires
        0 <= k <= s.len(),
        all_digits(s),
    ensures
        digits_value(s.take(k)) <= digits_value(s),
    decreases s.len() - k,
{
    if k == s.len() {
        assert(s.take(k) == s);
    } else {
        assert(s.drop_last().take(k) == s.take(k));
        lemma_digits_value_prefix(s.drop_last(), k);
    }
}

} // verus!
