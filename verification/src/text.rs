//! Text building blocks: decimal rendering, Unicode whitespace, ASCII case and
//! substring search, all stated over sequences of `char`.

use vstd::prelude::*;
use vstd::string::*;

verus! {

/// Appends one character to a string.
///
/// Claims of `String::push` that it appends exactly the given character.
pub assume_specification[ String::push ](s: &mut String, c: char)
    ensures
        final(s)@ == old(s)@.push(c),
;

/// The decimal digit `d` as a character, for `d < 10`.
pub open spec fn digit_char(d: nat) -> char {
    (48 + d) as char
}

/// Decimal notation of a natural number without leading zeros.
pub open spec fn decimal(n: nat) -> Seq<char>
    decreases n,
{
    if n < 10 {
        seq![digit_char(n)]
    } else {
        decimal(n / 10).push(digit_char(n % 10))
    }
}

/// Decimal notation of an integer, with a leading `-` when it is negative.
pub open spec fn signed_decimal(n: int) -> Seq<char> {
    if n < 0 {
        seq!['-'] + decimal((-n) as nat)
    } else {
        decimal(n as nat)
    }
}

/// The last `width` decimal digits of `n`, padded with zeros on the left.
pub open spec fn fixed_decimal(n: nat, width: nat) -> Seq<char>
    decreases width,
{
    if width == 0 {
        seq![]
    } else {
        fixed_decimal(n / 10, (width - 1) as nat).push(digit_char(n % 10))
    }
}

fn digit(d: u64) -> (c: char)
    requires
        d < 10,
    ensures
        c == digit_char(d as nat),
{
    (48u8 + d as u8) as char
}

/// Appends the decimal notation of `n`.
pub fn push_decimal(out: &mut String, n: u64)
    ensures
        final(out)@ == old(out)@ + decimal(n as nat),
    decreases n,
{
    if n < 10 {
        out.push(digit(n));
    } else {
        push_decimal(out, n / 10);
        out.push(digit(n % 10));
    }
}

/// Appends the decimal notation of `n`, with a sign when it is negative.
pub fn push_signed_decimal(out: &mut String, n: i64)
    ensures
        final(out)@ == old(out)@ + signed_decimal(n as int),
{
    if n < 0 {
        out.push('-');
        let magnitude: u64 = if n == i64::MIN {
            9223372036854775808u64
        } else {
            (-n) as u64
        };
        push_decimal(out, magnitude);
    } else {
        push_decimal(out, n as u64);
    }
}

/// Appends the last `width` decimal digits of `n`, zero padded.
pub fn push_fixed_decimal(out: &mut String, n: u64, width: u32)
    ensures
        final(out)@ == old(out)@ + fixed_decimal(n as nat, width as nat),
    decreases width,
{
    if width > 0 {
        push_fixed_decimal(out, n / 10, width - 1);
        out.push(digit(n % 10));
    }
}

/// Whether `c` carries the Unicode `White_Space` property.
pub open spec fn spec_is_whitespace(c: char) -> bool {
    ||| 0x09 <= c as int <= 0x0d
    ||| c as int == 0x20
    ||| c as int == 0x85
    ||| c as int == 0xa0
    ||| c as int == 0x1680
    ||| 0x2000 <= c as int <= 0x200a
    ||| c as int == 0x2028
    ||| c as int == 0x2029
    ||| c as int == 0x202f
    ||| c as int == 0x205f
    ||| c as int == 0x3000
}

/// Tests for the Unicode `White_Space` property.
pub fn is_whitespace(c: char) -> (r: bool)
    ensures
        r == spec_is_whitespace(c),
{
    let code: u32 = c as u32;
    (0x09 <= code && code <= 0x0d) || code == 0x20 || code == 0x85 || code == 0xa0 || code == 0x1680
        || (0x2000 <= code && code <= 0x200a) || code == 0x2028 || code == 0x2029 || code == 0x202f
        || code == 0x205f || code == 0x3000
}

/// ASCII lower case of one character; any other character is unchanged.
pub open spec fn lower_char(c: char) -> char {
    if 65 <= c as int <= 90 {
        (c as int + 32) as char
    } else {
        c
    }
}

/// ASCII lower case of a text.
pub open spec fn lower(s: Seq<char>) -> Seq<char> {
    Seq::new(s.len(), |i: int| lower_char(s[i]))
}

/// ASCII lower case of one character.
pub fn to_lower(c: char) -> (r: char)
    ensures
        r == lower_char(c),
{
    let code: u32 = c as u32;
    if 65 <= code && code <= 90 {
        (code as u8 + 32u8) as char
    } else {
        c
    }
}

/// The characters of a string, in order.
pub fn chars_of(s: &str) -> (v: Vec<char>)
    ensures
        v@ == s@,
{
    let mut v: Vec<char> = Vec::new();
    for c in it: s.chars()
        invariant
            it.seq() == s@,
            v@ == s@.take(it.index() as int),
    {
        v.push(c);
        assert(s@.take(it.index() + 1) =~= s@.take(it.index() as int).push(c));
    }
    assert(s@.take(s@.len() as int) =~= s@);
    v
}

/// The ASCII lower case of a string.
pub fn to_lower_string(s: &str) -> (out: String)
    ensures
        out@ == lower(s@),
{
    let chars = chars_of(s);
    let mut out = String::new();
    let mut i: usize = 0;
    while i < chars.len()
        invariant
            chars@ == s@,
            i <= chars.len(),
            out@ == lower(s@.take(i as int)),
        decreases chars.len() - i,
    {
        out.push(to_lower(chars[i]));
        assert(lower(s@.take(i as int)).push(lower_char(s@[i as int])) =~= lower(
            s@.take(i + 1),
        ));
        i = i + 1;
    }
    assert(s@.take(s@.len() as int) =~= s@);
    out
}

/// Number of leading characters of `s` that are white space.
pub open spec fn leading_whitespace(s: Seq<char>) -> nat
    decreases s.len(),
{
    if s.len() > 0 && spec_is_whitespace(s[0]) {
        1 + leading_whitespace(s.skip(1))
    } else {
        0
    }
}

/// Length of `s` without the white space at its end.
pub open spec fn trimmed_end(s: Seq<char>) -> nat
    decreases s.len(),
{
    if s.len() > 0 && spec_is_whitespace(s.last()) {
        trimmed_end(s.drop_last())
    } else {
        s.len()
    }
}

/// `s` without white space at either end.
pub open spec fn trim(s: Seq<char>) -> Seq<char> {
    let tail = s.skip(leading_whitespace(s) as int);
    tail.take(trimmed_end(tail) as int)
}

/// What remains of a text between its first and last character that is no
/// white space begins and ends with such characters.
pub proof fn trim_has_no_outer_whitespace(s: Seq<char>)
    ensures
        trim(s).len() > 0 ==> !spec_is_whitespace(trim(s).first()) && !spec_is_whitespace(
            trim(s).last(),
        ),
{
    lemma_leading(s);
    let tail = s.skip(leading_whitespace(s) as int);
    lemma_trimmed_end(tail);
}

proof fn lemma_leading(s: Seq<char>)
    ensures
        leading_whitespace(s) <= s.len(),
        leading_whitespace(s) < s.len() ==> !spec_is_whitespace(s[leading_whitespace(s) as int]),
        forall|i: int| 0 <= i < leading_whitespace(s) ==> spec_is_whitespace(s[i]),
    decreases s.len(),
{
    if s.len() > 0 && spec_is_whitespace(s[0]) {
        lemma_leading(s.skip(1));
        assert forall|i: int| 0 <= i < leading_whitespace(s) implies spec_is_whitespace(s[i]) by {
            if i > 0 {
                assert(s[i] == s.skip(1)[i - 1]);
            }
        }
    }
}

proof fn lemma_trimmed_end(s: Seq<char>)
    ensures
        trimmed_end(s) <= s.len(),
        trimmed_end(s) > 0 ==> !spec_is_whitespace(s[trimmed_end(s) - 1]),
        forall|i: int| trimmed_end(s) <= i < s.len() ==> spec_is_whitespace(s[i]),
    decreases s.len(),
{
    if s.len() > 0 && spec_is_whitespace(s.last()) {
        lemma_trimmed_end(s.drop_last());
        assert forall|i: int| trimmed_end(s) <= i < s.len() implies spec_is_whitespace(s[i]) by {
            if i < s.len() - 1 {
                assert(s[i] == s.drop_last()[i]);
            }
        }
    }
}

proof fn lemma_leading_unique(s: Seq<char>, n: int)
    requires
        0 <= n <= s.len(),
        forall|i: int| 0 <= i < n ==> spec_is_whitespace(s[i]),
        n < s.len() ==> !spec_is_whitespace(s[n]),
    ensures
        leading_whitespace(s) == n,
{
    lemma_leading(s);
}

proof fn lemma_trimmed_end_unique(s: Seq<char>, n: int)
    requires
        0 <= n <= s.len(),
        forall|i: int| n <= i < s.len() ==> spec_is_whitespace(s[i]),
        n > 0 ==> !spec_is_whitespace(s[n - 1]),
    ensures
        trimmed_end(s) == n,
{
    lemma_trimmed_end(s);
    if trimmed_end(s) > n {
        assert(spec_is_whitespace(s[trimmed_end(s) - 1]));
    }
}

/// `s` without white space at either end.
pub fn trim_string(s: &str) -> (out: String)
    ensures
        out@ == trim(s@),
{
    let chars = chars_of(s);
    let mut start: usize = 0;
    while start < chars.len() && is_whitespace(chars[start])
        invariant
            chars@ == s@,
            start <= chars.len(),
            forall|i: int| 0 <= i < start ==> spec_is_whitespace(s@[i]),
        decreases chars.len() - start,
    {
        start = start + 1;
    }
    proof {
        lemma_leading_unique(s@, start as int);
    }
    let mut end: usize = chars.len();
    while start < end && is_whitespace(chars[end - 1])
        invariant
            chars@ == s@,
            start <= end <= chars.len(),
            forall|i: int| end <= i < s@.len() ==> spec_is_whitespace(s@[i]),
        decreases end,
    {
        end = end - 1;
    }
    proof {
        let tail = s@.skip(start as int);
        lemma_trimmed_end_unique(tail, end - start);
        assert(tail.take(end - start) =~= s@.subrange(start as int, end as int));
    }
    s.substring_char(start, end).to_owned()
}

/// Whether the text `needle` stands in `hay` at position `at`.
pub open spec fn occurs_at(hay: Seq<char>, needle: Seq<char>, at: int) -> bool {
    0 <= at && at + needle.len() <= hay.len() && hay.subrange(at, at + needle.len()) == needle
}

/// Whether the text `needle` occurs anywhere in `hay`.
pub open spec fn contains_text(hay: Seq<char>, needle: Seq<char>) -> bool {
    exists|at: int| occurs_at(hay, needle, at)
}

/// Whether `needle` stands in `hay` at position `at`.
pub(crate) fn matches_at(hay: &Vec<char>, needle: &Vec<char>, at: usize) -> (r: bool)
    requires
        at + needle.len() <= hay.len(),
    ensures
        r == occurs_at(hay@, needle@, at as int),
{
    let mut i: usize = 0;
    while i < needle.len()
        invariant
            at + needle.len() <= hay.len(),
            i <= needle.len(),
            forall|j: int| 0 <= j < i ==> hay@[at + j] == needle@[j],
        decreases needle.len() - i,
    {
        if hay[at + i] != needle[i] {
            assert(hay@.subrange(at as int, at + needle@.len())[i as int] != needle@[i as int]);
            return false;
        }
        i = i + 1;
    }
    assert(hay@.subrange(at as int, at + needle@.len()) =~= needle@);
    true
}

/// Searches `hay` for the text `needle`.
pub fn contains(hay: &str, needle: &str) -> (r: bool)
    ensures
        r == contains_text(hay@, needle@),
{
    let h = chars_of(hay);
    let n = chars_of(needle);
    if n.len() > h.len() {
        return false;
    }
    let mut at: usize = 0;
    while at <= h.len() - n.len()
        invariant
            h@ == hay@,
            n@ == needle@,
            n.len() <= h.len(),
            at <= h.len() - n.len() + 1,
            forall|i: int| 0 <= i < at ==> !occurs_at(hay@, needle@, i),
        decreases h.len() - n.len() + 1 - at,
    {
        if matches_at(&h, &n, at) {
            return true;
        }
        if at == h.len() - n.len() {
            assert forall|i: int| !occurs_at(hay@, needle@, i) by {}
            return false;
        }
        at = at + 1;
    }
    false
}

/// Tests two strings for the same text.
pub fn same_text(a: &str, b: &str) -> (r: bool)
    ensures
        r == (a@ == b@),
{
    let x = chars_of(a);
    let y = chars_of(b);
    if x.len() != y.len() {
        return false;
    }
    let mut i: usize = 0;
    while i < x.len()
        invariant
            x@ == a@,
            y@ == b@,
            x.len() == y.len(),
            i <= x.len(),
            forall|j: int| 0 <= j < i ==> a@[j] == b@[j],
        decreases x.len() - i,
    {
        if x[i] != y[i] {
            return false;
        }
        i = i + 1;
    }
    assert(a@ =~= b@);
    true
}

/// Tests two strings for the same text up to ASCII case.
pub fn same_text_ignoring_case(a: &str, b: &str) -> (r: bool)
    ensures
        r == (lower(a@) == lower(b@)),
{
    let x = to_lower_string(a);
    let y = to_lower_string(b);
    same_text(x.as_str(), y.as_str())
}

/// What `String::from_utf8_lossy` makes of the given bytes.
pub uninterp spec fn utf8_lossy_text(bytes: Seq<u8>) -> Seq<char>;

/// Decodes bytes as UTF-8, with `U+FFFD` in place of what is not valid.
///
/// Calls `String::from_utf8_lossy`. Claimed is that its text depends on the bytes
/// alone and that valid UTF-8 is decoded to the text that it encodes. Where the
/// replacement characters stand for other bytes is left unsaid.
#[verifier::external_body]
pub(crate) fn utf8_lossy(bytes: &[u8]) -> (out: String)
    ensures
        out@ == utf8_lossy_text(bytes@),
        vstd::utf8::valid_utf8(bytes@) ==> vstd::utf8::encode_utf8(out@) == bytes@,
{
    String::from_utf8_lossy(bytes).into_owned()
}

/// The elements of a list in decimal, with a comma and a space in between.
pub open spec fn comma_decimals(values: Seq<u32>) -> Seq<char>
    decreases values.len(),
{
    if values.len() == 0 {
        seq![]
    } else if values.len() == 1 {
        decimal(values[0] as nat)
    } else {
        comma_decimals(values.drop_last()) + ", "@ + decimal(values.last() as nat)
    }
}

/// A list of numbers in square brackets.
pub open spec fn list_text(values: Seq<u32>) -> Seq<char> {
    "["@ + comma_decimals(values) + "]"@
}

/// Appends a list of numbers in square brackets.
pub fn push_list(out: &mut String, values: &Vec<u32>)
    ensures
        final(out)@ == old(out)@ + list_text(values@),
{
    let ghost start = out@;
    out.append("[");
    let mut i: usize = 0;
    assert(out@ =~= start + "["@ + comma_decimals(values@.take(0)));
    while i < values.len()
        invariant
            i <= values.len(),
            out@ == start + "["@ + comma_decimals(values@.take(i as int)),
        decreases values.len() - i,
    {
        let ghost before = values@.take(i as int);
        let ghost after = values@.take(i + 1);
        assert(after.drop_last() =~= before);
        if i > 0 {
            out.append(", ");
        }
        push_decimal(out, values[i] as u64);
        assert(out@ =~= start + "["@ + comma_decimals(after));
        i = i + 1;
    }
    assert(values@.take(values@.len() as int) =~= values@);
    out.append("]");
    assert(out@ =~= start + list_text(values@));
}

/// Whether `c` is a decimal digit.
pub open spec fn is_digit(c: char) -> bool {
    48 <= c as int <= 57
}

/// The number that a run of decimal digits stands for.
pub open spec fn digits_value(digits: Seq<char>) -> nat
    decreases digits.len(),
{
    if digits.len() == 0 {
        0
    } else {
        (10 * digits_value(digits.drop_last()) + (digits.last() as int - 48)) as nat
    }
}

/// The number that decimal digits stand for: at least one of them, and no more
/// than fits in 64 bits.
pub open spec fn digits_number(digits: Seq<char>) -> Option<u64> {
    if digits.len() > 0 && all_digits(digits) && digits_value(digits) <= u64::MAX {
        Some(digits_value(digits) as u64)
    } else {
        None
    }
}

/// Whether a text holds nothing but decimal digits.
pub open spec fn all_digits(s: Seq<char>) -> bool {
    forall|i: int| 0 <= i < s.len() ==> is_digit(#[trigger] s[i])
}

/// The unsigned number that a text stands for: decimal digits with an optional
/// plus sign.
pub open spec fn unsigned_of(s: Seq<char>) -> Option<u64> {
    if s.len() > 0 && s[0] == '+' {
        digits_number(s.skip(1))
    } else {
        digits_number(s)
    }
}

proof fn lemma_digits_monotone(digits: Seq<char>, n: int)
    requires
        0 <= n <= digits.len(),
        all_digits(digits),
    ensures
        digits_value(digits.take(n)) <= digits_value(digits),
    decreases digits.len() - n,
{
    if n < digits.len() {
        assert(digits.take(n + 1).drop_last() =~= digits.take(n));
        assert(is_digit(digits[n]));
        lemma_digits_monotone(digits, n + 1);
    } else {
        assert(digits.take(n) =~= digits);
    }
}

/// The code point of a character.
pub fn code_of(c: char) -> (r: u32)
    ensures
        r == c as int,
{
    c as u32
}

fn parse_digits(digits: &Vec<char>) -> (r: Option<u64>)
    ensures
        r == digits_number(digits@),
{
    if digits.len() == 0 {
        return None;
    }
    let mut value: u64 = 0;
    let mut i: usize = 0;
    assert(digits@.take(0) =~= Seq::empty());
    while i < digits.len()
        invariant
            i <= digits.len(),
            all_digits(digits@.take(i as int)),
            value == digits_value(digits@.take(i as int)),
        decreases digits.len() - i,
    {
        let code: u32 = code_of(digits[i]);
        if code < 48 || code > 57 {
            assert(!is_digit(digits@[i as int]));
            return None;
        }
        let ghost next = digits@.take(i + 1);
        assert(next.drop_last() =~= digits@.take(i as int));
        assert(all_digits(next)) by {
            assert forall|j: int| 0 <= j < next.len() implies is_digit(#[trigger] next[j]) by {
                if j < i {
                    assert(next[j] == digits@.take(i as int)[j]);
                }
            }
        }
        let digit: u64 = (code - 48) as u64;
        if value > u64::MAX / 10 || 10 * value > u64::MAX - digit {
            proof {
                if all_digits(digits@) {
                    lemma_digits_monotone(digits@, i + 1);
                }
            }
            return None;
        }
        value = 10 * value + digit;
        i = i + 1;
    }
    assert(digits@.take(digits@.len() as int) =~= digits@);
    Some(value)
}

/// Reads an unsigned decimal number.
pub fn parse_unsigned(s: &str) -> (r: Option<u64>)
    ensures
        r == unsigned_of(s@),
{
    let mut chars = chars_of(s);
    if chars.len() > 0 && chars[0] == '+' {
        chars.remove(0);
        assert(chars@ =~= s@.skip(1));
    }
    parse_digits(&chars)
}

/// Ten to a power.
pub open spec fn ten_to(n: nat) -> nat
    decreases n,
{
    if n == 0 {
        1
    } else {
        10 * ten_to((n - 1) as nat)
    }
}

/// The ten decimal digits are written in their order, from `0` to `9`.
pub proof fn digits_are_the_decimal_ones(d: nat)
    requires
        d < 10,
    ensures
        '0' as int <= digit_char(d) as int <= '9' as int,
        digit_char(d) as int - '0' as int == d,
        is_digit(digit_char(d)),
{
}

/// Decimal notation can be read back: it has no leading zero, and its digits stand for the
/// number. A sign stands in front of negative numbers alone.
pub proof fn decimals_read_back(n: nat)
    ensures
        decimal(n).len() > 0,
        all_digits(decimal(n)),
        digits_value(decimal(n)) == n,
        n > 0 ==> decimal(n)[0] != '0',
        n <= u64::MAX ==> unsigned_of(decimal(n)) == Some(n as u64),
        n > 0 ==> signed_decimal(-(n as int))[0] == '-' && signed_decimal(-(n as int)).skip(1)
            == decimal(n),
        signed_decimal(n as int) == decimal(n),
    decreases n,
{
    if n >= 10 {
        decimals_read_back(n / 10);
        assert(decimal(n).drop_last() =~= decimal(n / 10));
        assert(decimal(n)[0] == decimal(n / 10)[0]);
    } else {
        assert(decimal(n).drop_last() =~= Seq::<char>::empty());
        reveal_with_fuel(digits_value, 2);
    }
    assert forall|i: int| 0 <= i < decimal(n).len() implies is_digit(#[trigger] decimal(n)[i]) by {
        if n >= 10 && i < decimal(n).len() - 1 {
            assert(decimal(n)[i] == decimal(n / 10)[i]);
        }
    }
    assert(is_digit(decimal(n)[0]));
    if n > 0 {
        assert(signed_decimal(-(n as int)).skip(1) =~= decimal(n));
    }
}

/// The digits of a number in a fixed width stand for it, where the width has room.
pub proof fn fixed_decimals_read_back(n: nat, width: nat)
    requires
        n < ten_to(width),
    ensures
        fixed_decimal(n, width).len() == width,
        all_digits(fixed_decimal(n, width)),
        digits_value(fixed_decimal(n, width)) == n,
    decreases width,
{
    if width > 0 {
        let shorter = fixed_decimal(n / 10, (width - 1) as nat);
        fixed_decimals_read_back(n / 10, (width - 1) as nat);
        let text = fixed_decimal(n, width);
        assert(text.drop_last() =~= shorter);
        assert forall|i: int| 0 <= i < text.len() implies is_digit(#[trigger] text[i]) by {
            if i < text.len() - 1 {
                assert(text[i] == shorter[i]);
            }
        }
    }
}

/// Digits behind others count for less: those in front stand for so many times the power of
/// ten that has as many zeros as there are digits behind.
pub proof fn digits_count_by_their_places(front: Seq<char>, behind: Seq<char>)
    requires
        all_digits(front),
        all_digits(behind),
    ensures
        digits_value(front + behind) == digits_value(front) * ten_to(behind.len()) + digits_value(
            behind,
        ),
    decreases behind.len(),
{
    if behind.len() == 0 {
        assert(front + behind =~= front);
        assert(digits_value(front) * 1 == digits_value(front)) by (nonlinear_arith);
    } else {
        let rest = behind.drop_last();
        assert forall|i: int| 0 <= i < rest.len() implies is_digit(#[trigger] rest[i]) by {
            assert(rest[i] == behind[i]);
        }
        digits_count_by_their_places(front, rest);
        assert((front + behind).drop_last() =~= front + rest);
        assert(is_digit(behind[behind.len() - 1]));
        let a = digits_value(front);
        let t = ten_to(rest.len());
        assert(10 * (a * t) == a * (10 * t)) by (nonlinear_arith);
    }
}

/// Lower case changes the letters from `A` to `Z` alone, each to the small letter in its
/// place, and changes nothing the second time.
pub proof fn lower_case_keeps_all_but_capitals(c: char)
    ensures
        'A' as int <= c as int <= 'Z' as int ==> lower_char(c) as int - 'a' as int == c as int
            - 'A' as int,
        !('A' as int <= c as int <= 'Z' as int) ==> lower_char(c) == c,
        lower_char(lower_char(c)) == lower_char(c),
{
}

/// Letters, digits and signs of ASCII are no white space; blanks and line ends are.
pub proof fn visible_characters_are_no_whitespace(c: char)
    ensures
        0x21 <= c as int <= 0x7e ==> !spec_is_whitespace(c),
        c == ' ' || c == '\t' || c == '\n' || c == '\r' ==> spec_is_whitespace(c),
        (c as int) < 9 ==> !spec_is_whitespace(c),
{
}

/// Trimming takes away white space at both ends, and nothing else.
pub proof fn trimming_takes_whitespace_alone(s: Seq<char>) -> (ends: (int, int))
    ensures
        0 <= ends.0 <= ends.1 <= s.len(),
        trim(s) == s.subrange(ends.0, ends.1),
        forall|i: int| 0 <= i < ends.0 ==> spec_is_whitespace(#[trigger] s[i]),
        forall|i: int| ends.1 <= i < s.len() ==> spec_is_whitespace(#[trigger] s[i]),
        trim(s).len() > 0 ==> !spec_is_whitespace(s[ends.0]) && !spec_is_whitespace(s[ends.1 - 1]),
{
    lemma_leading(s);
    let begin = leading_whitespace(s) as int;
    let tail = s.skip(begin);
    lemma_trimmed_end(tail);
    let end = begin + trimmed_end(tail);
    assert(trim(s) =~= s.subrange(begin, end));
    assert forall|i: int| end <= i < s.len() implies spec_is_whitespace(#[trigger] s[i]) by {
        assert(s[i] == tail[i - begin]);
    }
    assert forall|i: int| 0 <= i < begin implies spec_is_whitespace(#[trigger] s[i]) by {}
    if trim(s).len() > 0 {
        assert(tail[trimmed_end(tail) - 1] == s[end - 1]);
    }
    (begin, end)
}

/// A number is read from a text of digits alone, but for one plus sign in front.
pub proof fn numbers_are_digits(s: Seq<char>)
    ensures
        unsigned_of(s) is Some ==> s.len() > 0 && (is_digit(s[0]) || (s[0] == '+' && s.len() > 1)),
        unsigned_of(s) is Some ==> forall|i: int| 1 <= i < s.len() ==> is_digit(#[trigger] s[i]),
        unsigned_of(s) is Some && is_digit(s[0]) ==> unsigned_of(s) == Some(
            digits_value(s) as u64,
        ) && digits_value(s) <= u64::MAX,
        s.len() > 0 && all_digits(s) && digits_value(s) > u64::MAX ==> unsigned_of(s) is None,
{
    if unsigned_of(s) is Some {
        if s[0] == '+' {
            assert forall|i: int| 1 <= i < s.len() implies is_digit(#[trigger] s[i]) by {
                assert(s[i] == s.skip(1)[i - 1]);
            }
        } else {
            assert(is_digit(s[0]));
        }
    }
    if s.len() > 0 && all_digits(s) {
        assert(is_digit(s[0]));
    }
}

} // verus!
