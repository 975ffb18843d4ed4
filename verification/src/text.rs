//! Text: blanks, prefixes, and integers written in digits.
use vstd::prelude::*;
use vstd::string::*;
use vstd::utf8::*;

verus! {

/// Whether a character is white space (the Unicode property White_Space).
pub open spec fn is_white_space(c: char) -> bool {
    let n = c as u32;
    ||| 0x09 <= n <= 0x0D
    ||| n == 0x20
    ||| n == 0x85
    ||| n == 0xA0
    ||| n == 0x1680
    ||| 0x2000 <= n <= 0x200A
    ||| n == 0x2028
    ||| n == 0x2029
    ||| n == 0x202F
    ||| n == 0x205F
    ||| n == 0x3000
}

/// A text without the white space at its two ends.
pub open spec fn trimmed(s: Seq<char>) -> Seq<char>
    decreases s.len(),
{
    if s.len() == 0 {
        s
    } else if is_white_space(s.first()) {
        trimmed(s.drop_first())
    } else if is_white_space(s.last()) {
        trimmed(s.drop_last())
    } else {
        s
    }
}

/// Whether a text holds nothing but white space.
pub open spec fn is_blank_text(s: Seq<char>) -> bool {
    forall|i: int| 0 <= i < s.len() ==> is_white_space(#[trigger] s[i])
}

/// `str::trim` takes the leading and the trailing characters with the Unicode property
/// White_Space off a text, and leaves the rest as it is.
pub assume_specification[ str::trim ](s: &str) -> (rest: &str)
    ensures
        rest@ == trimmed(s@),
;

pub proof fn lemma_trimmed_empty(s: Seq<char>)
    ensures
        trimmed(s).len() == 0 <==> is_blank_text(s),
    decreases s.len(),
{
    if s.len() > 0 {
        if is_white_space(s.first()) {
            lemma_trimmed_empty(s.drop_first());
            assert forall|i: int| 0 <= i < s.len() && is_blank_text(s.drop_first()) implies is_white_space(
            #[trigger] s[i]) by {
                if i > 0 {
                    assert(s.drop_first()[i - 1] == s[i]);
                }
            }
            assert forall|i: int| 0 <= i < s.drop_first().len() && is_blank_text(s) implies is_white_space(
            #[trigger] s.drop_first()[i]) by {
                assert(s[i + 1] == s.drop_first()[i]);
            }
        } else {
            assert(!is_white_space(s[0]));
            if is_white_space(s.last()) {
                lemma_trimmed_empty(s.drop_last());
                assert(s.drop_last()[0] == s[0]);
            }
        }
    }
}

/// Whether a text is empty or holds nothing but white space.
pub fn is_blank(s: &str) -> (blank: bool)
    ensures
        blank == is_blank_text(s@),
{
    proof {
        lemma_trimmed_empty(s@);
    }
    s.trim().is_empty()
}

/// Whether two texts are the same.
pub fn same_text(a: &str, b: &str) -> (same: bool)
    ensures
        same == (a@ == b@),
{
    a.to_owned() == b.to_owned()
}

/// Whether a text holds a character.
pub fn contains_char(s: &str, wanted: char) -> (found: bool)
    ensures
        found == s@.contains(wanted),
{
    for c in it: s.chars()
        invariant
            it.seq() == s@,
            forall|j: int| 0 <= j < it.index() ==> s@[j] != wanted,
    {
        if c == wanted {
            return true;
        }
    }
    false
}

/// Whether a character is one of the ten digits.
pub open spec fn is_digit(c: char) -> bool {
    '0' <= c <= '9'
}

pub open spec fn all_digits(s: Seq<char>) -> bool {
    forall|i: int| 0 <= i < s.len() ==> is_digit(#[trigger] s[i])
}

/// The number that a row of digits writes.
pub open spec fn digits_value(s: Seq<char>) -> nat
    decreases s.len(),
{
    if s.len() == 0 {
        0
    } else {
        digits_value(s.drop_last()) * 10 + (s.last() as u32 - '0' as u32) as nat
    }
}

/// The number that a text writes: digits, and one sign before them at the most. Zeros in
/// front change nothing.
pub open spec fn written_integer(s: Seq<char>) -> Option<int> {
    let signed = s.len() > 0 && (s[0] == '+' || s[0] == '-');
    let digits = if signed {
        s.drop_first()
    } else {
        s
    };
    if digits.len() > 0 && all_digits(digits) {
        if signed && s[0] == '-' {
            Some(-(digits_value(digits) as int))
        } else {
            Some(digits_value(digits) as int)
        }
    } else {
        None
    }
}

/// The 64-bit integer that a text writes, where it writes one.
pub open spec fn written_i64(s: Seq<char>) -> Option<i64> {
    match written_integer(s) {
        Some(n) => if i64::MIN <= n <= i64::MAX {
            Some(n as i64)
        } else {
            None
        },
        None => None,
    }
}

proof fn lemma_digits_value_grows(s: Seq<char>, n: int)
    requires
        0 <= n <= s.len(),
        all_digits(s),
    ensures
        digits_value(s.take(n)) <= digits_value(s),
    decreases s.len() - n,
{
    if n < s.len() {
        lemma_digits_value_grows(s, n + 1);
        assert(s.take(n + 1).drop_last() =~= s.take(n));
        assert(is_digit(s[n]));
    } else {
        assert(s.take(n) =~= s);
    }
}

/// The 64-bit integer that a text writes.
pub fn parse_i64(s: &str) -> (n: Option<i64>)
    ensures
        n == written_i64(s@),
{
    let len = s.unicode_len();
    if len == 0 {
        return None;
    }
    let sign = s.get_char(0);
    let negative = sign == '-';
    let start: usize = if negative || sign == '+' {
        1
    } else {
        0
    };
    if start == len {
        return None;
    }
    let ghost digits = if start == 1 {
        s@.drop_first()
    } else {
        s@
    };
    // One more than the largest `i64`, which is the magnitude of the smallest.
    let limit: u64 = 9_223_372_036_854_775_808;
    let mut magnitude: u64 = 0;
    let mut i: usize = start;
    assert(digits.take(0) =~= Seq::<char>::empty());
    while i < len
        invariant
            start <= i <= len,
            start <= 1,
            len == s@.len(),
            digits == (if start == 1 {
                s@.drop_first()
            } else {
                s@
            }),
            all_digits(digits.take(i - start)),
            magnitude == digits_value(digits.take(i - start)),
            magnitude <= limit,
            limit == 9_223_372_036_854_775_808,
            start == 1 <==> (s@[0] == '+' || s@[0] == '-'),
            s@.len() > 0,
        decreases len - i,
    {
        let c = s.get_char(i);
        assert(c == digits[i - start]);
        if c < '0' || c > '9' {
            assert(!is_digit(digits[i - start]));
            return None;
        }
        let ghost next = digits.take(i - start + 1);
        proof {
            assert(next.drop_last() =~= digits.take(i - start));
            assert forall|j: int| 0 <= j < next.len() implies is_digit(#[trigger] next[j]) by {
                if j < i - start {
                    assert(digits.take(i - start)[j] == next[j]);
                }
            }
        }
        let wide: u128 = magnitude as u128 * 10 + (c as u32 - '0' as u32) as u128;
        assert(wide == digits_value(next));
        if wide > limit as u128 {
            proof {
                if all_digits(digits) {
                    lemma_digits_value_grows(digits, i - start + 1);
                }
            }
            return None;
        }
        magnitude = wide as u64;
        i += 1;
    }
    assert(digits.take(len - start) =~= digits);
    if negative {
        if magnitude == limit {
            Some(i64::MIN)
        } else {
            Some(-(magnitude as i64))
        }
    } else if magnitude < limit {
        Some(magnitude as i64)
    } else {
        None
    }
}

/// The text up to the first `separator`: the whole text where there is none.
pub open spec fn segment_before(s: Seq<char>, separator: char) -> Seq<char>
    decreases s.len(),
{
    if s.len() == 0 || s.first() == separator {
        Seq::empty()
    } else {
        seq![s.first()] + segment_before(s.drop_first(), separator)
    }
}

proof fn lemma_segment_before(s: Seq<char>, separator: char, n: int)
    requires
        0 <= n <= s.len(),
        forall|j: int| 0 <= j < n ==> s[j] != separator,
        n == s.len() || s[n] == separator,
    ensures
        segment_before(s, separator) == s.take(n),
    decreases n,
{
    if n == 0 {
        assert(s.take(0) =~= Seq::<char>::empty());
    } else {
        assert forall|j: int| 0 <= j < n - 1 implies s.drop_first()[j] != separator by {
            assert(s.drop_first()[j] == s[j + 1]);
        }
        lemma_segment_before(s.drop_first(), separator, n - 1);
        assert(s.take(n) =~= seq![s.first()] + s.drop_first().take(n - 1));
    }
}

/// The text up to the first `separator`.
pub fn before(s: &str, separator: char) -> (segment: &str)
    ensures
        segment@ == segment_before(s@, separator),
{
    let len = s.unicode_len();
    let mut i: usize = 0;
    while i < len
        invariant
            0 <= i <= len,
            len == s@.len(),
            forall|j: int| 0 <= j < i ==> s@[j] != separator,
        decreases len - i,
    {
        if s.get_char(i) == separator {
            proof {
                lemma_segment_before(s@, separator, i as int);
            }
            return s.substring_char(0, i);
        }
        i += 1;
    }
    proof {
        lemma_segment_before(s@, separator, len as int);
    }
    s.substring_char(0, len)
}

/// What stands behind `prefix`, where the text starts with it.
pub open spec fn text_behind(s: Seq<char>, prefix: Seq<char>) -> Option<Seq<char>> {
    if prefix.is_prefix_of(s) {
        Some(s.skip(prefix.len() as int))
    } else {
        None
    }
}

/// What stands behind `prefix`, where the text starts with it.
pub fn behind<'a>(s: &'a str, prefix: &str) -> (rest: Option<&'a str>)
    ensures
        rest is Some <==> text_behind(s@, prefix@) is Some,
        rest matches Some(r) ==> text_behind(s@, prefix@) == Some(r@),
{
    let n = prefix.unicode_len();
    let len = s.unicode_len();
    if n > len {
        return None;
    }
    let head = s.substring_char(0, n);
    if same_text(head, prefix) {
        let rest = s.substring_char(n, len);
        assert(rest@ =~= s@.skip(n as int));
        assert(prefix@.is_prefix_of(s@));
        Some(rest)
    } else {
        proof {
            if prefix@.is_prefix_of(s@) {
                assert(head@ =~= prefix@);
            }
        }
        None
    }
}

/// Whether `char::is_alphanumeric` holds of a character: whether it is a letter or a number
/// by the Unicode tables of the standard library.
pub uninterp spec fn is_alphanumeric_char(c: char) -> bool;

/// `char::is_alphanumeric` answers by the Unicode tables. Of an ASCII character it is true of
/// the letters and the digits alone.
pub assume_specification[ char::is_alphanumeric ](c: char) -> (b: bool)
    ensures
        b == is_alphanumeric_char(c),
        (c as u32) < 128 ==> b == ('0' <= c <= '9' || 'A' <= c <= 'Z' || 'a' <= c <= 'z'),
;

/// Whether a text holds a character that is neither a letter nor a number.
pub open spec fn has_special_character(s: Seq<char>) -> bool {
    exists|i: int| 0 <= i < s.len() && !is_alphanumeric_char(#[trigger] s[i])
}

/// Whether a text holds a character that is neither a letter nor a number.
pub fn has_special(s: &str) -> (found: bool)
    ensures
        found == has_special_character(s@),
{
    for c in it: s.chars()
        invariant
            it.seq() == s@,
            forall|j: int| 0 <= j < it.index() ==> is_alphanumeric_char(#[trigger] s@[j]),
    {
        if !c.is_alphanumeric() {
            assert(!is_alphanumeric_char(s@[it.index()]));
            return true;
        }
    }
    false
}

/// A copy of a text that may be absent.
pub open spec fn text_of(value: Option<String>) -> Option<Seq<char>> {
    match value {
        Some(s) => Some(s@),
        None => None,
    }
}

/// A text, or the empty one where it is absent.
pub open spec fn text_or_empty(value: Option<String>) -> Seq<char> {
    match value {
        Some(s) => s@,
        None => Seq::empty(),
    }
}

/// A text, or the empty one where it is absent.
pub fn or_empty(value: Option<String>) -> (text: String)
    ensures
        text@ == text_or_empty(value),
{
    match value {
        Some(s) => s,
        None => String::new(),
    }
}

/// Three texts, one behind the other.
pub fn join3(a: &str, b: &str, c: &str) -> (text: String)
    ensures
        text@ == a@ + b@ + c@,
{
    a.to_owned().concat(b).concat(c)
}

// ---------------------------------------------------------------------------
// Laws
// ---------------------------------------------------------------------------

/// Whether all of a text before one place and from another on is white space.
pub open spec fn white_outside(s: Seq<char>, a: int, b: int) -> bool {
    &&& 0 <= a <= b <= s.len()
    &&& forall|i: int| 0 <= i < a ==> is_white_space(#[trigger] s[i])
    &&& forall|i: int| b <= i < s.len() ==> is_white_space(#[trigger] s[i])
}

/// Trimming takes white space off the two ends and nothing else: what is left is a part of the
/// text, all before and behind it is white space, and it neither starts nor ends with any.
pub proof fn trimming_takes_white_space_off(s: Seq<char>)
    ensures
        exists|a: int, b: int| #[trigger] white_outside(s, a, b) && trimmed(s) == s.subrange(a, b),
        trimmed(s).len() > 0 ==> !is_white_space(trimmed(s).first()) && !is_white_space(
            trimmed(s).last(),
        ),
    decreases s.len(),
{
    if s.len() == 0 || (!is_white_space(s.first()) && !is_white_space(s.last())) {
        assert(s.subrange(0, s.len() as int) =~= s);
        assert(white_outside(s, 0, s.len() as int));
    } else if is_white_space(s.first()) {
        let rest = s.drop_first();
        trimming_takes_white_space_off(rest);
        let (a, b) = choose|a: int, b: int| #[trigger]
            white_outside(rest, a, b) && trimmed(rest) == rest.subrange(a, b);
        lemma_white_before(s, a, b);
        assert(white_outside(s, a + 1, b + 1));
    } else {
        let rest = s.drop_last();
        trimming_takes_white_space_off(rest);
        let (a, b) = choose|a: int, b: int| #[trigger]
            white_outside(rest, a, b) && trimmed(rest) == rest.subrange(a, b);
        lemma_white_behind(s, a, b);
        assert(white_outside(s, a, b));
    }
}

proof fn lemma_white_before(s: Seq<char>, a: int, b: int)
    requires
        s.len() > 0,
        is_white_space(s.first()),
        white_outside(s.drop_first(), a, b),
    ensures
        white_outside(s, a + 1, b + 1),
        s.subrange(a + 1, b + 1) == s.drop_first().subrange(a, b),
{
    let rest = s.drop_first();
    assert(s.subrange(a + 1, b + 1) =~= rest.subrange(a, b));
    assert forall|i: int| 0 <= i < a + 1 implies is_white_space(#[trigger] s[i]) by {
        if i > 0 {
            assert(rest[i - 1] == s[i]);
        }
    }
    assert forall|i: int| b + 1 <= i < s.len() implies is_white_space(#[trigger] s[i]) by {
        assert(rest[i - 1] == s[i]);
    }
}

proof fn lemma_white_behind(s: Seq<char>, a: int, b: int)
    requires
        s.len() > 0,
        is_white_space(s.last()),
        white_outside(s.drop_last(), a, b),
    ensures
        white_outside(s, a, b),
        s.subrange(a, b) == s.drop_last().subrange(a, b),
{
    let rest = s.drop_last();
    assert(s.subrange(a, b) =~= rest.subrange(a, b));
    assert forall|i: int| 0 <= i < a implies is_white_space(#[trigger] s[i]) by {
        assert(rest[i] == s[i]);
    }
    assert forall|i: int| b <= i < s.len() implies is_white_space(#[trigger] s[i]) by {
        if i < rest.len() {
            assert(rest[i] == s[i]);
        }
    }
}

/// Printed ASCII is no white space but for the blank; the blank, the tabulator and the line break
/// are.
pub proof fn printed_characters_are_no_white_space(c: char)
    ensures
        0x20 < c as u32 <= 0x7e ==> !is_white_space(c),
        c == ' ' || c == '\t' || c == '\n' || c == '\r' ==> is_white_space(c),
{
}

/// A text is blank just where it holds no character but white space.
pub proof fn a_character_makes_a_text_not_blank(s: Seq<char>, i: int)
    requires
        0 <= i < s.len(),
    ensures
        !is_white_space(s[i]) ==> !is_blank_text(s),
        is_blank_text(s) <==> is_white_space(s[i]) && is_blank_text(s.remove(i)),
        is_blank_text(Seq::<char>::empty()),
{
    let rest = s.remove(i);
    if is_blank_text(s) {
        assert forall|j: int| 0 <= j < rest.len() implies is_white_space(#[trigger] rest[j]) by {
            if j < i {
                assert(rest[j] == s[j]);
            } else {
                assert(rest[j] == s[j + 1]);
            }
        }
    }
    if is_white_space(s[i]) && is_blank_text(rest) {
        assert forall|j: int| 0 <= j < s.len() implies is_white_space(#[trigger] s[j]) by {
            if j < i {
                assert(rest[j] == s[j]);
            } else if j > i {
                assert(rest[j - 1] == s[j]);
            }
        }
    }
}

/// Integers are written in places of ten: one more digit behind others makes ten times what they
/// write, and the digit.
pub proof fn integers_are_written_digit_by_digit(digits: Seq<char>, d: char)
    requires
        forall|i: int| 0 <= i < digits.len() ==> '0' <= #[trigger] digits[i] <= '9',
        '0' <= d <= '9',
    ensures
        written_integer(seq![d]) == Some(d as u32 - '0' as u32),
        digits.len() > 0 ==> {
            &&& written_integer(digits) is Some
            &&& written_integer(digits.push(d)) == Some(
                10 * written_integer(digits)->0 + (d as u32 - '0' as u32),
            )
        },
{
    let one = seq![d];
    assert(one.drop_last() =~= Seq::<char>::empty());
    reveal_with_fuel(digits_value, 2);
    assert(all_digits(one));
    let more = digits.push(d);
    assert(more.drop_last() =~= digits);
    assert(all_digits(digits));
    assert(all_digits(more));
    if digits.len() > 0 {
        assert('0' <= digits[0] <= '9');
        assert(more[0] == digits[0]);
    }
}

/// A minus sign before digits writes the negative of what they write, a plus sign the same; and a
/// text with any other character, or with no digit, writes no integer.
pub proof fn signs_stand_before_digits(digits: Seq<char>)
    ensures
        digits.len() > 0 && (forall|i: int|
            0 <= i < digits.len() ==> '0' <= #[trigger] digits[i] <= '9') ==> {
            &&& written_integer(seq!['-'] + digits) == Some(-(written_integer(digits)->0))
            &&& written_integer(seq!['+'] + digits) == Some(written_integer(digits)->0)
        },
        written_integer(digits) is Some ==> {
            &&& digits.len() > 0
            &&& '0' <= digits.last() <= '9'
            &&& '0' <= digits[0] <= '9' || digits[0] == '-' || digits[0] == '+'
            &&& forall|i: int| 1 <= i < digits.len() ==> '0' <= #[trigger] digits[i] <= '9'
        },
{
    let minus = seq!['-'] + digits;
    let plus = seq!['+'] + digits;
    assert(minus.drop_first() =~= digits);
    assert(plus.drop_first() =~= digits);
    if digits.len() > 0 && all_digits(digits) {
        assert(is_digit(digits[0]));
        assert(is_digit(digits.last()));
    }
    if written_integer(digits) is Some {
        let signed = digits[0] == '+' || digits[0] == '-';
        if signed {
            let behind = digits.drop_first();
            assert(all_digits(behind));
            assert forall|i: int| 1 <= i < digits.len() implies '0' <= #[trigger] digits[i]
                <= '9' by {
                assert(is_digit(behind[i - 1]));
            }
            assert(behind.last() == digits.last());
            assert(is_digit(behind.last()));
        } else {
            assert forall|i: int| 0 <= i < digits.len() implies '0' <= #[trigger] digits[i]
                <= '9' by {
                assert(is_digit(digits[i]));
            }
        }
    }
}

/// A text that writes an integer is read as it where the integer has 64 bits, and not at all where
/// it has more.
pub proof fn integers_of_64_bits_are_read(s: Seq<char>, n: i64)
    ensures
        written_i64(s) == Some(n) <==> written_integer(s) == Some(n as int),
        written_i64(s) is None <==> (written_integer(s) is None || written_integer(s)->0
            < -0x8000_0000_0000_0000 || written_integer(s)->0 > 0x7fff_ffff_ffff_ffff),
{
}

/// The text before a separator is the part of the text that holds none and ends at the first, or
/// the whole text where there is none.
pub proof fn segments_end_at_the_first_separator(s: Seq<char>, separator: char)
    ensures
        ({
            let segment = segment_before(s, separator);
            &&& segment.len() <= s.len()
            &&& segment == s.take(segment.len() as int)
            &&& !segment.contains(separator)
            &&& segment.len() < s.len() ==> s[segment.len() as int] == separator
        }),
    decreases s.len(),
{
    let segment = segment_before(s, separator);
    if s.len() == 0 || s.first() == separator {
        assert(segment =~= s.take(0));
    } else {
        let rest = s.drop_first();
        segments_end_at_the_first_separator(rest, separator);
        let inner = segment_before(rest, separator);
        assert(segment =~= s.take(segment.len() as int)) by {
            assert forall|i: int| 0 <= i < segment.len() implies segment[i] == s[i] by {
                if i > 0 {
                    assert(inner[i - 1] == rest[i - 1]);
                }
            }
        }
        if segment.contains(separator) {
            let i = choose|i: int| 0 <= i < segment.len() && segment[i] == separator;
            assert(inner[i - 1] == separator);
            assert(inner.contains(separator));
        }
        if segment.len() < s.len() {
            assert(rest[inner.len() as int] == s[segment.len() as int]);
        }
    }
}

/// What stands behind a prefix is what the prefix has to be put before to make the text.
pub proof fn a_prefix_and_the_rest_make_the_text(s: Seq<char>, prefix: Seq<char>, rest: Seq<char>)
    ensures
        text_behind(s, prefix) == Some(rest) <==> s == prefix + rest,
{
    if s == prefix + rest {
        assert(prefix.is_prefix_of(s));
        assert(s.skip(prefix.len() as int) =~= rest);
    }
    if text_behind(s, prefix) == Some(rest) {
        assert(s =~= prefix + rest);
    }
}

/// A text holds a special character just where one of its characters is neither a letter nor a
/// number.
pub proof fn one_special_character_is_enough(s: Seq<char>, c: char)
    ensures
        has_special_character(s.push(c)) <==> has_special_character(s) || !is_alphanumeric_char(c),
        !has_special_character(Seq::<char>::empty()),
{
    let more = s.push(c);
    if has_special_character(s) {
        let i = choose|i: int| 0 <= i < s.len() && !is_alphanumeric_char(#[trigger] s[i]);
        assert(!is_alphanumeric_char(more[i]));
    }
    if !is_alphanumeric_char(c) {
        assert(!is_alphanumeric_char(more[s.len() as int]));
    }
    if has_special_character(more) {
        let i = choose|i: int| 0 <= i < more.len() && !is_alphanumeric_char(#[trigger] more[i]);
        if i < s.len() {
            assert(!is_alphanumeric_char(s[i]));
        }
    }
}

/// A text that is there is taken as it is; one that is not is taken for the empty one.
pub proof fn absent_texts_are_empty(text: String)
    ensures
        text_of(Some(text)) == Some(text@),
        text_of(None) is None,
        text_or_empty(Some(text)) == text@,
        text_or_empty(None).len() == 0,
{
}

} // verus!
