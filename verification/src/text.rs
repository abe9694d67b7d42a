//! Character-level building blocks shared by the rest of the library:
//! conversions between strings and character vectors, decimal rendering,
//! whitespace trimming and word splitting.

use vstd::prelude::*;
use vstd::string::*;

verus! {

/// `String::push` appends exactly one character.
pub assume_specification[ String::push ](s: &mut String, c: char)
    ensures
        final(s)@ == old(s)@.push(c),
;

/// `str` equality holds exactly when both slices hold the same characters.
pub assume_specification[ <str as PartialEq>::eq ](a: &str, b: &str) -> (r: bool)
    ensures
        r == (a@ == b@),
;

/// Whether a character belongs to the Unicode general category of control
/// codes: U+0000 to U+001F and U+007F to U+009F.
pub open spec fn unicode_control(c: char) -> bool {
    c as u32 <= 0x1f || (0x7f <= c as u32 && c as u32 <= 0x9f)
}

/// `char::is_control` tells the general category of control codes, which
/// is these two ranges.
pub assume_specification[ char::is_control ](c: char) -> (r: bool)
    ensures
        r == unicode_control(c),
;

/// Whether a character has the Unicode `White_Space` property: U+0009 to
/// U+000D, U+0020, U+0085, U+00A0, U+1680, U+2000 to U+200A, U+2028, U+2029,
/// U+202F, U+205F and U+3000.
pub open spec fn unicode_white_space(c: char) -> bool {
    (0x09 <= c as u32 && c as u32 <= 0x0d) || c as u32 == 0x20 || c as u32 == 0x85 || c as u32
        == 0xa0 || c as u32 == 0x1680 || (0x2000 <= c as u32 && c as u32 <= 0x200a) || c as u32
        == 0x2028 || c as u32 == 0x2029 || c as u32 == 0x202f || c as u32 == 0x205f || c as u32
        == 0x3000
}

/// `char::is_whitespace` tells the `White_Space` property, which is this
/// list.
pub assume_specification[ char::is_whitespace ](c: char) -> (r: bool)
    ensures
        r == unicode_white_space(c),
;

/// The Unicode lowercase form of a character sequence, as
/// `str::to_lowercase` computes it.
pub uninterp spec fn unicode_lowercase(s: Seq<char>) -> Seq<char>;

/// `str::to_lowercase` is a function of the characters alone.
pub assume_specification[ str::to_lowercase ](s: &str) -> (r: String)
    ensures
        r@ == unicode_lowercase(s@),
;

/// Same characters, as a vector.
pub fn chars_of(s: &str) -> (v: Vec<char>)
    ensures
        v@ == s@,
{
    let mut v: Vec<char> = Vec::new();
    for c in it: s.chars()
        invariant
            it.seq() == s@,
            v@ == s@.take(it.index() as int),
    {
        v.push(c);
        assert(s@.take(it.index() + 1) == s@.take(it.index() as int).push(c));
    }
    assert(s@.take(s@.len() as int) == s@);
    v
}

/// Same characters, as a string.
pub fn string_of(v: &Vec<char>) -> (s: String)
    ensures
        s@ == v@,
{
    let mut s = String::new();
    let mut i: usize = 0;
    while i < v.len()
        invariant
            i <= v.len(),
            s@ == v@.take(i as int),
        decreases v.len() - i,
    {
        s.push(v[i]);
        assert(v@.take(i + 1) == v@.take(i as int).push(v@[i as int]));
        i += 1;
    }
    assert(v@.take(v@.len() as int) == v@);
    s
}

/// The character for a decimal digit `0..=9`.
pub open spec fn digit_char(d: int) -> char {
    ((48 + d) as u8) as char
}

/// Decimal rendering without sign or padding.
pub open spec fn decimal(n: nat) -> Seq<char>
    decreases n,
{
    if n < 10 {
        seq![digit_char(n as int)]
    } else {
        decimal(n / 10).push(digit_char((n % 10) as int))
    }
}

/// A decimal rendering is one or more decimal digits.
pub proof fn lemma_decimal_is_digits(n: nat)
    ensures
        decimal(n).len() >= 1,
        forall|i: int| 0 <= i < decimal(n).len() ==> '0' <= #[trigger] decimal(n)[i] <= '9',
        n >= 10 ==> decimal(n).len() >= 2,
    decreases n,
{
    if n >= 10 {
        lemma_decimal_is_digits(n / 10);
    }
}

/// Decimal rendering, zero-padded on the left to at least two digits.
pub open spec fn decimal_two(n: nat) -> Seq<char> {
    if n < 10 {
        seq!['0', digit_char(n as int)]
    } else {
        decimal(n)
    }
}

fn digit(d: u8) -> (c: char)
    requires
        d < 10,
    ensures
        c == digit_char(d as int),
{
    (48u8 + d) as char
}

/// Appends the decimal rendering of `n` to `out`.
pub fn push_decimal(out: &mut String, n: u64)
    ensures
        final(out)@ == old(out)@ + decimal(n as nat),
    decreases n,
{
    if n < 10 {
        out.push(digit(n as u8));
        assert(final(out)@ =~= old(out)@ + decimal(n as nat));
    } else {
        push_decimal(out, n / 10);
        out.push(digit((n % 10) as u8));
        assert(final(out)@ =~= old(out)@ + decimal(n as nat));
    }
}

/// Appends the two-digit, zero-padded rendering of `n` to `out`.
pub fn push_decimal_two(out: &mut String, n: u64)
    ensures
        final(out)@ == old(out)@ + decimal_two(n as nat),
{
    if n < 10 {
        out.push('0');
        out.push(digit(n as u8));
        assert(final(out)@ =~= old(out)@ + decimal_two(n as nat));
    } else {
        push_decimal(out, n);
    }
}

/// Number of white-space characters at the front of `s`.
pub open spec fn leading_white_space(s: Seq<char>) -> nat
    decreases s.len(),
{
    if s.len() > 0 && unicode_white_space(s[0]) {
        1 + leading_white_space(s.drop_first())
    } else {
        0
    }
}

/// Number of white-space characters at the back of `s`.
pub open spec fn trailing_white_space(s: Seq<char>) -> nat
    decreases s.len(),
{
    if s.len() > 0 && unicode_white_space(s.last()) {
        1 + trailing_white_space(s.drop_last())
    } else {
        0
    }
}

/// `s` without its leading and trailing white space.
pub open spec fn trimmed(s: Seq<char>) -> Seq<char> {
    let rest = s.skip(leading_white_space(s) as int);
    rest.take(rest.len() - trailing_white_space(rest))
}

/// A run of `i` white-space characters at the front that stops at `i` is the
/// whole leading white space.
pub proof fn lemma_leading_white_space(s: Seq<char>, i: int)
    requires
        0 <= i <= s.len(),
        forall|k: int| 0 <= k < i ==> unicode_white_space(#[trigger] s[k]),
        i == s.len() || !unicode_white_space(s[i]),
    ensures
        leading_white_space(s) == i,
    decreases i,
{
    if i > 0 {
        let t = s.drop_first();
        assert forall|k: int| 0 <= k < i - 1 implies unicode_white_space(#[trigger] t[k]) by {
            assert(t[k] == s[k + 1]);
        }
        lemma_leading_white_space(t, i - 1);
    }
}

/// A run of `j` white-space characters at the back that stops there is the
/// whole trailing white space.
pub proof fn lemma_trailing_white_space(s: Seq<char>, j: int)
    requires
        0 <= j <= s.len(),
        forall|k: int| s.len() - j <= k < s.len() ==> unicode_white_space(#[trigger] s[k]),
        j == s.len() || !unicode_white_space(s[s.len() - j - 1]),
    ensures
        trailing_white_space(s) == j,
    decreases j,
{
    if j > 0 {
        let t = s.drop_last();
        assert forall|k: int| t.len() - (j - 1) <= k < t.len() implies unicode_white_space(
            #[trigger] t[k],
        ) by {
            assert(t[k] == s[k]);
        }
        lemma_trailing_white_space(t, j - 1);
    }
}

/// Trimming takes nothing but white space away: what is left is a stretch of
/// the text, and it neither begins nor ends with white space.
pub proof fn law_trimmed_is_a_stretch(s: Seq<char>)
    ensures
        exists|from: int, to: int|
            0 <= from <= to <= s.len() && trimmed(s) == #[trigger] s.subrange(from, to),
        trimmed(s).len() > 0 ==> !unicode_white_space(trimmed(s).first()) && !unicode_white_space(
            trimmed(s).last(),
        ),
{
    lemma_white_space_counts(s);
    let lead = leading_white_space(s) as int;
    let rest = s.skip(lead);
    lemma_white_space_counts(rest);
    let trail = trailing_white_space(rest) as int;
    assert(trimmed(s) =~= s.subrange(lead, s.len() - trail));
    if trimmed(s).len() > 0 {
        assert(trimmed(s).first() == rest[0]);
        assert(trimmed(s).last() == rest[rest.len() - trail - 1]);
    }
}

/// The white space at either end is within the text and ends where a
/// character other than white space stands.
proof fn lemma_white_space_counts(s: Seq<char>)
    ensures
        leading_white_space(s) <= s.len(),
        trailing_white_space(s) <= s.len(),
        leading_white_space(s) < s.len() ==> !unicode_white_space(s[leading_white_space(s) as int]),
        trailing_white_space(s) < s.len() ==> !unicode_white_space(
            s[s.len() - trailing_white_space(s) - 1],
        ),
        leading_white_space(s) == s.len() ==> trailing_white_space(s) == s.len(),
    decreases s.len(),
{
    if s.len() > 0 {
        lemma_white_space_counts(s.drop_first());
        lemma_white_space_counts(s.drop_last());
        if unicode_white_space(s[0]) {
            let t = s.drop_first();
            if leading_white_space(t) < t.len() {
                assert(t[leading_white_space(t) as int] == s[leading_white_space(t) as int + 1]);
            }
        }
        if unicode_white_space(s.last()) {
            let t = s.drop_last();
            if trailing_white_space(t) < t.len() {
                assert(t[t.len() - trailing_white_space(t) - 1] == s[s.len() - trailing_white_space(
                    t,
                ) - 2]);
            }
        }
        if leading_white_space(s) == s.len() {
            lemma_all_white_space(s, s.len() as int);
            lemma_trailing_white_space(s, s.len() as int);
        }
    }
}

/// The leading white space consists of white space.
proof fn lemma_all_white_space(s: Seq<char>, n: int)
    requires
        0 <= n <= leading_white_space(s),
    ensures
        leading_white_space(s) <= s.len(),
        forall|k: int| 0 <= k < n ==> unicode_white_space(#[trigger] s[k]),
    decreases s.len(),
{
    if s.len() > 0 && unicode_white_space(s[0]) {
        let t = s.drop_first();
        if n > 0 {
            lemma_all_white_space(t, n - 1);
            assert forall|k: int| 0 <= k < n implies unicode_white_space(#[trigger] s[k]) by {
                if k > 0 {
                    assert(s[k] == t[k - 1]);
                }
            }
        } else {
            lemma_all_white_space(t, 0);
        }
    }
}

/// Removes leading and trailing white space.
pub fn trim(v: &Vec<char>) -> (r: Vec<char>)
    ensures
        r@ == trimmed(v@),
{
    let n = v.len();
    let mut a: usize = 0;
    while a < n && v[a].is_whitespace()
        invariant
            n == v.len(),
            a <= n,
            forall|k: int| 0 <= k < a ==> unicode_white_space(#[trigger] v@[k]),
        decreases n - a,
    {
        a += 1;
    }
    let mut b: usize = n;
    while b > a && v[b - 1].is_whitespace()
        invariant
            n == v.len(),
            a <= b <= n,
            forall|k: int| b <= k < n ==> unicode_white_space(#[trigger] v@[k]),
        decreases b,
    {
        b -= 1;
    }
    let mut r: Vec<char> = Vec::new();
    let mut i: usize = a;
    while i < b
        invariant
            a <= i <= b <= n,
            n == v.len(),
            r@ == v@.subrange(a as int, i as int),
        decreases b - i,
    {
        r.push(v[i]);
        assert(v@.subrange(a as int, i + 1) == v@.subrange(a as int, i as int).push(v@[i as int]));
        i += 1;
    }
    proof {
        lemma_leading_white_space(v@, a as int);
        let rest = v@.skip(a as int);
        assert forall|k: int| rest.len() - (n - b) <= k < rest.len() implies unicode_white_space(
            #[trigger] rest[k],
        ) by {
            assert(rest[k] == v@[k + a]);
        }
        if b > a {
            assert(rest[rest.len() - (n - b) - 1] == v@[b - 1]);
        }
        lemma_trailing_white_space(rest, n - b);
        assert(rest.take(rest.len() - (n - b)) =~= v@.subrange(a as int, b as int));
    }
    r
}

/// Whether `c` is one of the decimal digits `0` to `9`.
pub open spec fn is_decimal_digit(c: char) -> bool {
    '0' <= c && c <= '9'
}

/// The number that a sequence of decimal digits writes.
pub open spec fn digits_value(s: Seq<char>) -> nat
    decreases s.len(),
{
    if s.len() == 0 {
        0
    } else {
        digits_value(s.drop_last()) * 10 + (s.last() as nat - 48) as nat
    }
}

/// Whether `s` is one or more decimal digits and nothing else.
pub open spec fn is_decimal_number(s: Seq<char>) -> bool {
    s.len() > 0 && forall|i: int| 0 <= i < s.len() ==> is_decimal_digit(#[trigger] s[i])
}

/// The number that `s` writes in decimal, with an optional leading `+`, where
/// it is at most `limit`; `None` for every other text.
pub open spec fn parsed_up_to(s: Seq<char>, limit: nat) -> Option<nat> {
    let digits = if s.len() > 0 && s[0] == '+' {
        s.drop_first()
    } else {
        s
    };
    if is_decimal_number(digits) && digits_value(digits) <= limit {
        Some(digits_value(digits))
    } else {
        None
    }
}

/// The number that `s` writes where it fits in 32 bits.
pub open spec fn parsed_u32(s: Seq<char>) -> Option<u32> {
    match parsed_up_to(s, u32::MAX as nat) {
        Some(n) => Some(n as u32),
        None => None,
    }
}

/// The number that `s` writes where it fits in a `usize`.
pub open spec fn parsed_usize(s: Seq<char>) -> Option<usize> {
    match parsed_up_to(s, usize::MAX as nat) {
        Some(n) => Some(n as usize),
        None => None,
    }
}

/// A number's decimal rendering writes the number.
pub proof fn lemma_decimal_writes_itself(n: nat)
    ensures
        is_decimal_number(decimal(n)),
        digits_value(decimal(n)) == n,
    decreases n,
{
    lemma_decimal_is_digits(n);
    if n < 10 {
        assert(decimal(n).drop_last() =~= Seq::<char>::empty());
        assert(digits_value(decimal(n).drop_last()) == 0);
    } else {
        lemma_decimal_writes_itself(n / 10);
        assert(decimal(n).drop_last() =~= decimal(n / 10));
        assert(decimal(n).last() == digit_char((n % 10) as int));
    }
}

/// Reading a number back from its decimal rendering gives the number,
/// where it is within the limit.
pub proof fn law_decimal_round_trip(n: nat, limit: nat)
    requires
        n <= limit,
    ensures
        parsed_up_to(decimal(n), limit) == Some(n),
{
    lemma_decimal_writes_itself(n);
    lemma_decimal_is_digits(n);
    assert(decimal(n)[0] != '+');
}

/// More digits never write a smaller number.
pub proof fn lemma_digits_value_grows(s: Seq<char>, n: int)
    requires
        0 <= n <= s.len(),
        forall|i: int| 0 <= i < s.len() ==> is_decimal_digit(#[trigger] s[i]),
    ensures
        digits_value(s.take(n)) <= digits_value(s),
    decreases s.len() - n,
{
    if n < s.len() {
        lemma_digits_value_grows(s, n + 1);
        assert(s.take(n + 1).drop_last() =~= s.take(n));
        assert(s.take(n + 1).last() == s[n]);
    } else {
        assert(s.take(n) =~= s);
    }
}

/// Reads a number written in decimal, with an optional leading `+`, that is
/// at most `limit`.
pub fn parse_number(s: &str, limit: u64) -> (r: Option<u64>)
    ensures
        match r {
            Some(n) => parsed_up_to(s@, limit as nat) == Some(n as nat),
            None => parsed_up_to(s@, limit as nat) is None,
        },
{
    let chars = chars_of(s);
    let start: usize = if chars.len() > 0 && chars[0] == '+' {
        1
    } else {
        0
    };
    let ghost digits = chars@.skip(start as int);
    proof {
        if start == 1 {
            assert(digits =~= s@.drop_first());
        } else {
            assert(digits =~= s@);
        }
    }
    if chars.len() == start {
        return None;
    }
    let mut value: u64 = 0;
    let mut i: usize = start;
    assert(digits.take(0) =~= Seq::<char>::empty());
    while i < chars.len()
        invariant
            start <= i <= chars.len(),
            digits == chars@.skip(start as int),
            digits.len() > 0,
            parsed_up_to(s@, limit as nat) == (if is_decimal_number(digits) && digits_value(digits)
                <= limit {
                Some(digits_value(digits))
            } else {
                None
            }),
            forall|k: int| 0 <= k < i - start ==> is_decimal_digit(#[trigger] digits[k]),
            value == digits_value(digits.take(i - start)),
            value <= limit,
        decreases chars.len() - i,
    {
        let c = chars[i];
        assert(digits[i - start] == c);
        if !('0' <= c && c <= '9') {
            return None;
        }
        let d: u64 = (c as u32 - '0' as u32) as u64;
        proof {
            assert(digits.take(i - start + 1).drop_last() =~= digits.take(i - start));
            assert(digits.take(i - start + 1).last() == c);
        }
        if d > limit || value > (limit - d) / 10 {
            proof {
                if is_decimal_number(digits) {
                    lemma_digits_value_grows(digits, i - start + 1);
                }
            }
            return None;
        }
        value = value * 10 + d;
        i += 1;
    }
    assert(digits.take(digits.len() as int) =~= digits);
    Some(value)
}

/// Reads a number that fits in 32 bits.
pub fn parse_u32(s: &str) -> (r: Option<u32>)
    ensures
        r == parsed_u32(s@),
{
    match parse_number(s, u32::MAX as u64) {
        Some(n) => Some(n as u32),
        None => None,
    }
}

/// Reads a number that fits in a `usize`.
pub fn parse_usize(s: &str) -> (r: Option<usize>)
    ensures
        r == parsed_usize(s@),
{
    match parse_number(s, usize::MAX as u64) {
        Some(n) => Some(n as usize),
        None => None,
    }
}

/// The parts in order, with `separator` between neighbours.
pub open spec fn joined(parts: Seq<Seq<char>>, separator: Seq<char>) -> Seq<char>
    decreases parts.len(),
{
    if parts.len() == 0 {
        Seq::empty()
    } else if parts.len() == 1 {
        parts[0]
    } else {
        joined(parts.drop_last(), separator) + separator + parts.last()
    }
}

/// The views of a sequence of strings, in order.
pub open spec fn lines_view(lines: Seq<String>) -> Seq<Seq<char>> {
    lines.map_values(|s: String| s@)
}

/// Adding a string adds its view.
pub proof fn lemma_lines_view_push(lines: Seq<String>, line: String)
    ensures
        lines_view(lines.push(line)) == lines_view(lines).push(line@),
{
    assert(lines_view(lines.push(line)) =~= lines_view(lines).push(line@));
}

/// A list of one line.
pub fn one_line(line: String) -> (r: Vec<String>)
    ensures
        lines_view(r@) == seq![line@],
{
    let mut lines: Vec<String> = Vec::new();
    lines.push(line);
    assert(lines_view(lines@) =~= seq![line@]);
    lines
}

/// A list of no lines.
pub fn no_lines() -> (r: Vec<String>)
    ensures
        lines_view(r@) == Seq::<Seq<char>>::empty(),
{
    let lines: Vec<String> = Vec::new();
    assert(lines_view(lines@) =~= Seq::<Seq<char>>::empty());
    lines
}

/// Joins strings with a separator between neighbours.
pub fn join(parts: &Vec<String>, separator: &str) -> (r: String)
    ensures
        r@ == joined(lines_view(parts@), separator@),
{
    let mut out = String::new();
    let mut i: usize = 0;
    while i < parts.len()
        invariant
            i <= parts.len(),
            out@ == joined(lines_view(parts@).take(i as int), separator@),
        decreases parts.len() - i,
    {
        proof {
            let all = lines_view(parts@);
            assert(all.take(i + 1).drop_last() =~= all.take(i as int));
            assert(all.take(i + 1).last() == parts@[i as int]@);
        }
        if i > 0 {
            out.append(separator);
        }
        out.append(parts[i].as_str());
        proof {
            let all = lines_view(parts@);
            if i == 0 {
                assert(all.take(1)[0] == parts@[0]@);
                assert(out@ =~= joined(all.take(1), separator@));
            }
        }
        i += 1;
    }
    assert(lines_view(parts@).take(parts@.len() as int) == lines_view(parts@));
    out
}

/// The words of a text: its maximal runs of characters that are not white
/// space, in order. Read from the end: a white-space character adds nothing;
/// any other extends the last word where it directly follows one, and begins
/// a new word where it does not.
pub open spec fn words(s: Seq<char>) -> Seq<Seq<char>>
    decreases s.len(),
{
    if s.len() == 0 {
        Seq::empty()
    } else {
        let before = words(s.drop_last());
        if unicode_white_space(s.last()) {
            before
        } else if s.len() >= 2 && !unicode_white_space(s[s.len() - 2]) && before.len() > 0 {
            before.drop_last().push(before.last().push(s.last()))
        } else {
            before.push(seq![s.last()])
        }
    }
}

/// A text that ends in a character other than white space has a word.
pub proof fn lemma_words_after_letter(s: Seq<char>)
    requires
        s.len() > 0,
        !unicode_white_space(s.last()),
    ensures
        words(s).len() > 0,
{
}

/// Splits a text into its words.
pub fn split_words(v: &Vec<char>) -> (r: Vec<Vec<char>>)
    ensures
        r@.map_values(|w: Vec<char>| w@) == words(v@),
{
    let mut out: Vec<Vec<char>> = Vec::new();
    let mut current: Vec<char> = Vec::new();
    let mut in_word = false;
    let mut i: usize = 0;
    assert(v@.take(0) =~= Seq::<char>::empty());
    while i < v.len()
        invariant
            i <= v.len(),
            in_word <==> (i > 0 && !unicode_white_space(v@[i - 1])),
            in_word ==> out@.map_values(|w: Vec<char>| w@).push(current@) == words(
                v@.take(i as int),
            ),
            !in_word ==> out@.map_values(|w: Vec<char>| w@) == words(v@.take(i as int)),
            !in_word ==> current@.len() == 0,
        decreases v.len() - i,
    {
        let c = v[i];
        proof {
            let now = v@.take(i + 1);
            assert(now.drop_last() =~= v@.take(i as int));
            assert(now.last() == c);
            if i > 0 {
                assert(now[now.len() - 2] == v@[i - 1]);
            }
            if i > 0 {
                assert(v@.take(i as int).last() == v@[i - 1]);
                if !unicode_white_space(v@[i - 1]) {
                    lemma_words_after_letter(v@.take(i as int));
                }
            }
        }
        if c.is_whitespace() {
            if in_word {
                let ghost before = out@.map_values(|w: Vec<char>| w@);
                out.push(current);
                assert(out@.map_values(|w: Vec<char>| w@) =~= before.push(current@));
                current = Vec::new();
                in_word = false;
            }
        } else {
            if in_word {
                let ghost before = out@.map_values(|w: Vec<char>| w@);
                let ghost word = current@;
                current.push(c);
                assert(before.push(word).drop_last() =~= before);
            } else {
                current.push(c);
                assert(current@ =~= seq![c]);
                in_word = true;
            }
        }
        i += 1;
    }
    assert(v@.take(v@.len() as int) == v@);
    if in_word {
        let ghost before = out@.map_values(|w: Vec<char>| w@);
        out.push(current);
        assert(out@.map_values(|w: Vec<char>| w@) =~= before.push(current@));
    }
    out
}

/// Whether `needle` stands in `s` at position `at`.
pub open spec fn stands_at(s: Seq<char>, needle: Seq<char>, at: int) -> bool {
    0 <= at && at + needle.len() <= s.len() && s.subrange(at, at + needle.len()) == needle
}

/// What stands before the first occurrence of `needle` in `s`; all of `s`
/// where `needle` does not occur.
pub open spec fn before_first(s: Seq<char>, needle: Seq<char>) -> Seq<char>
    decreases s.len(),
{
    if stands_at(s, needle, 0) || s.len() == 0 {
        Seq::empty()
    } else {
        seq![s[0]] + before_first(s.drop_first(), needle)
    }
}

/// Where `needle` stands at `at` and nowhere before, what stands before its
/// first occurrence is the first `at` characters; where it stands nowhere up
/// to the end, it is everything.
pub proof fn lemma_before_first(s: Seq<char>, needle: Seq<char>, at: int)
    requires
        0 <= at <= s.len(),
        forall|k: int| 0 <= k < at ==> !stands_at(s, needle, k),
        at == s.len() || stands_at(s, needle, at),
    ensures
        before_first(s, needle) == s.take(at),
    decreases at,
{
    if at == 0 {
        assert(s.take(0) =~= Seq::<char>::empty());
    } else {
        let rest = s.drop_first();
        assert(!stands_at(s, needle, 0));
        assert forall|k: int| 0 <= k < at - 1 implies !stands_at(rest, needle, k) by {
            if stands_at(rest, needle, k) {
                assert(s.subrange(k + 1, k + 1 + needle.len()) =~= rest.subrange(
                    k,
                    k + needle.len(),
                ));
                assert(stands_at(s, needle, k + 1));
            }
        }
        if at < s.len() {
            assert(rest.subrange(at - 1, at - 1 + needle.len()) =~= s.subrange(
                at,
                at + needle.len(),
            ));
        }
        lemma_before_first(rest, needle, at - 1);
        assert(s.take(at) =~= seq![s[0]] + rest.take(at - 1));
    }
}

fn matches_at(v: &Vec<char>, needle: &Vec<char>, at: usize) -> (r: bool)
    requires
        at <= v.len(),
    ensures
        r == stands_at(v@, needle@, at as int),
{
    if needle.len() > v.len() - at {
        return false;
    }
    let mut j: usize = 0;
    while j < needle.len()
        invariant
            j <= needle.len(),
            at + needle.len() <= v.len(),
            forall|k: int| 0 <= k < j ==> v@[at + k] == needle@[k],
        decreases needle.len() - j,
    {
        if v[at + j] != needle[j] {
            assert(v@.subrange(at as int, at + needle.len())[j as int] != needle@[j as int]);
            return false;
        }
        j += 1;
    }
    assert(v@.subrange(at as int, at + needle.len()) =~= needle@);
    true
}

/// Takes what stands before the first occurrence of `needle`.
pub fn take_before(v: &Vec<char>, needle: &Vec<char>) -> (r: Vec<char>)
    ensures
        r@ == before_first(v@, needle@),
{
    let mut out: Vec<char> = Vec::new();
    let mut i: usize = 0;
    while i < v.len()
        invariant
            i <= v.len(),
            out@ == v@.take(i as int),
            forall|k: int| 0 <= k < i ==> !stands_at(v@, needle@, k),
        decreases v.len() - i,
    {
        if matches_at(v, needle, i) {
            proof {
                lemma_before_first(v@, needle@, i as int);
            }
            return out;
        }
        out.push(v[i]);
        assert(v@.take(i + 1) == v@.take(i as int).push(v@[i as int]));
        i += 1;
    }
    proof {
        lemma_before_first(v@, needle@, v@.len() as int);
    }
    out
}

} // verus!
