//! Plain text: comparing, trimming, decimal numbers and the `%s` placeholder of a handler.

use vstd::prelude::*;
use vstd::string::{StrSliceExecFns, StringExecFns};

verus! {

/// The characters with the Unicode property `White_Space`.
pub open spec fn white_space(c: char) -> bool {
    ||| '\u{9}' <= c <= '\u{d}'
    ||| c == '\u{20}'
    ||| c == '\u{85}'
    ||| c == '\u{a0}'
    ||| c == '\u{1680}'
    ||| '\u{2000}' <= c <= '\u{200a}'
    ||| c == '\u{2028}'
    ||| c == '\u{2029}'
    ||| c == '\u{202f}'
    ||| c == '\u{205f}'
    ||| c == '\u{3000}'
}

/// `s` without the white space at its two ends.
pub open spec fn trimmed(s: Seq<char>) -> Seq<char>
    decreases s.len(),
{
    if s.len() > 0 && white_space(s.first()) {
        trimmed(s.drop_first())
    } else if s.len() > 0 && white_space(s.last()) {
        trimmed(s.drop_last())
    } else {
        s
    }
}

/// An ASCII decimal digit.
pub open spec fn is_digit(c: char) -> bool {
    '0' <= c <= '9'
}

/// The number that a digit stands for.
pub open spec fn digit_value(c: char) -> nat {
    (c as int - '0' as int) as nat
}

/// At least one character, and digits only.
pub open spec fn all_digits(s: Seq<char>) -> bool {
    s.len() > 0 && forall|i: int| 0 <= i < s.len() ==> is_digit(#[trigger] s[i])
}

/// The number that a run of digits stands for.
pub open spec fn digits_value(s: Seq<char>) -> nat
    decreases s.len(),
{
    if s.len() == 0 {
        0
    } else {
        digits_value(s.drop_last()) * 10 + digit_value(s.last())
    }
}

/// The `u32` that `s` spells: digits, after an optional `+`, of a number in range.
pub open spec fn u32_of(s: Seq<char>) -> Option<u32> {
    let digits = if s.len() > 0 && s[0] == '+' {
        s.skip(1)
    } else {
        s
    };
    if all_digits(digits) && digits_value(digits) <= u32::MAX {
        Some(digits_value(digits) as u32)
    } else {
        None
    }
}

/// The `i32` that `s` spells: digits, after an optional sign, of a number in range.
pub open spec fn i32_of(s: Seq<char>) -> Option<i32> {
    let signed = s.len() > 0 && (s[0] == '+' || s[0] == '-');
    let digits = if signed {
        s.skip(1)
    } else {
        s
    };
    let value = if signed && s[0] == '-' {
        -(digits_value(digits) as int)
    } else {
        digits_value(digits) as int
    };
    if all_digits(digits) && i32::MIN <= value <= i32::MAX {
        Some(value as i32)
    } else {
        None
    }
}

/// The digit that stands for a number below ten.
pub open spec fn digit_char(d: nat) -> char {
    ('0' as int + d) as char
}

/// A number in decimal, without leading zeros.
pub open spec fn decimal_text(n: nat) -> Seq<char>
    decreases n,
{
    if n < 10 {
        seq![digit_char(n)]
    } else {
        decimal_text(n / 10).push(digit_char(n % 10))
    }
}

/// A signed number in decimal.
pub open spec fn signed_text(n: int) -> Seq<char> {
    if n < 0 {
        seq!['-'] + decimal_text((-n) as nat)
    } else {
        decimal_text(n as nat)
    }
}

/// `template` with its first `%s` replaced by `value`; unchanged where it has none.
pub open spec fn filled(template: Seq<char>, value: Seq<char>) -> Seq<char>
    decreases template.len(),
{
    if template.len() < 2 {
        template
    } else if template[0] == '%' && template[1] == 's' {
        value + template.skip(2)
    } else {
        seq![template[0]] + filled(template.skip(1), value)
    }
}

/// What `String::from_utf8_lossy` makes of bytes.
pub uninterp spec fn utf8_lossy(bytes: Seq<u8>) -> Seq<char>;

/// `String::from_utf8_lossy`. What is claimed: the text is a function of the bytes, and where they
/// are valid UTF-8 it is what they encode. What takes the place of bytes that are not is left open.
#[verifier::external_body]
pub(crate) fn from_utf8_lossy(bytes: &[u8]) -> (r: String)
    ensures
        r@ == utf8_lossy(bytes@),
        vstd::utf8::valid_utf8(bytes@) ==> r@ == vstd::utf8::decode_utf8(bytes@),
{
    String::from_utf8_lossy(bytes).into_owned()
}

/// Whether two texts are the same.
pub fn same_text(a: &str, b: &str) -> (r: bool)
    ensures
        r == (a@ == b@),
{
    a.to_owned() == b.to_owned()
}

/// Whether `text` is one of `texts`.
pub fn contains_text(texts: &Vec<String>, text: &str) -> (r: bool)
    ensures
        r == texts.deep_view().contains(text@),
{
    let mut i: usize = 0;
    while i < texts.len()
        invariant
            i <= texts.len(),
            forall|j: int| 0 <= j < i ==> (#[trigger] texts.deep_view()[j]) != text@,
        decreases texts.len() - i,
    {
        assert(texts.deep_view()[i as int] == texts[i as int]@);
        if same_text(texts[i].as_str(), text) {
            return true;
        }
        i = i + 1;
    }
    false
}

/// Whether `c` has the Unicode property `White_Space`.
pub fn is_whitespace(c: char) -> (r: bool)
    ensures
        r == white_space(c),
{
    ('\u{9}' <= c && c <= '\u{d}') || c == '\u{20}' || c == '\u{85}' || c == '\u{a0}' || c
        == '\u{1680}' || ('\u{2000}' <= c && c <= '\u{200a}') || c == '\u{2028}' || c == '\u{2029}'
        || c == '\u{202f}' || c == '\u{205f}' || c == '\u{3000}'
}

/// The characters of a text.
pub fn chars_of(s: &str) -> (r: Vec<char>)
    ensures
        r@ == s@,
{
    let mut r: Vec<char> = Vec::new();
    for c in it: s.chars()
        invariant
            it.seq() == s@,
            r@ == s@.take(it.index()),
    {
        r.push(c);
    }
    assert(s@.take(s@.len() as int) =~= s@);
    r
}

/// White space to the left of `from` and to the right of `to` plays no part in what is left.
proof fn lemma_trimmed_range(s: Seq<char>, from: int, to: int)
    requires
        0 <= from <= to <= s.len(),
        forall|i: int| 0 <= i < from ==> white_space(#[trigger] s[i]),
        forall|i: int| to <= i < s.len() ==> white_space(#[trigger] s[i]),
        from < to ==> !white_space(s[from]) && !white_space(s[to - 1]),
    ensures
        trimmed(s) == s.subrange(from, to),
    decreases s.len(),
{
    if from > 0 {
        let t = s.drop_first();
        assert forall|i: int| 0 <= i < from - 1 implies white_space(#[trigger] t[i]) by {
            assert(t[i] == s[i + 1]);
        }
        assert forall|i: int| to - 1 <= i < t.len() implies white_space(#[trigger] t[i]) by {
            assert(t[i] == s[i + 1]);
        }
        lemma_trimmed_range(t, from - 1, to - 1);
        assert(t.subrange(from - 1, to - 1) =~= s.subrange(from, to));
    } else if to < s.len() {
        if white_space(s.first()) {
            // Nothing is left: every character is white space.
            assert(from == to);
            let t = s.drop_first();
            assert forall|i: int| 0 <= i < t.len() implies white_space(#[trigger] t[i]) by {
                assert(t[i] == s[i + 1]);
            }
            lemma_trimmed_range(t, 0, 0);
            assert(t.subrange(0, 0) =~= s.subrange(from, to));
        } else {
            let t = s.drop_last();
            assert(white_space(s.last()));
            lemma_trimmed_range(t, from, to);
            assert(t.subrange(from, to) =~= s.subrange(from, to));
        }
    } else {
        assert(s.subrange(from, to) =~= s);
    }
}

/// The text without the white space at its two ends.
pub fn trim(s: &str) -> (r: &str)
    ensures
        r@ == trimmed(s@),
{
    let chars = chars_of(s);
    let mut from: usize = 0;
    let mut to: usize = chars.len();
    while from < to && is_whitespace(chars[from])
        invariant
            from <= to == chars.len(),
            forall|i: int| 0 <= i < from ==> white_space(#[trigger] chars@[i]),
        decreases to - from,
    {
        from = from + 1;
    }
    let ghost start = from;
    while from < to && is_whitespace(chars[to - 1])
        invariant
            start == from <= to <= chars.len(),
            forall|i: int| to <= i < chars.len() ==> white_space(#[trigger] chars@[i]),
        decreases to - from,
    {
        to = to - 1;
    }
    proof {
        lemma_trimmed_range(s@, from as int, to as int);
    }
    s.substring_char(from, to)
}

/// A longer run of digits stands for no smaller a number.
proof fn lemma_digits_value_grows(s: Seq<char>, k: int)
    requires
        0 <= k <= s.len(),
    ensures
        digits_value(s.take(k)) <= digits_value(s),
    decreases s.len() - k,
{
    if k < s.len() {
        lemma_digits_value_grows(s, k + 1);
        assert(s.take(k + 1).drop_last() =~= s.take(k));
    } else {
        assert(s.take(k) =~= s);
    }
}

/// The number that the digits from `from` on stand for, where it is at most `limit`.
fn read_digits(chars: &Vec<char>, from: usize, limit: u32) -> (r: Option<u32>)
    requires
        from <= chars.len(),
    ensures
        r == (if all_digits(chars@.skip(from as int)) && digits_value(chars@.skip(from as int))
            <= limit {
            Some(digits_value(chars@.skip(from as int)) as u32)
        } else {
            None::<u32>
        }),
{
    let ghost digits = chars@.skip(from as int);
    if from == chars.len() {
        return None;
    }
    let mut value: u64 = 0;
    let mut i: usize = from;
    assert(digits.take(0).len() == 0);
    while i < chars.len()
        invariant
            from <= i <= chars.len(),
            digits == chars@.skip(from as int),
            value == digits_value(digits.take(i - from)),
            value <= limit,
            forall|j: int| 0 <= j < i - from ==> is_digit(#[trigger] digits[j]),
        decreases chars.len() - i,
    {
        let c = chars[i];
        assert(digits[i - from] == c);
        if !('0' <= c && c <= '9') {
            return None;
        }
        assert(digits.take(i - from + 1).drop_last() =~= digits.take(i - from));
        value = value * 10 + (c as u64 - 48);
        i = i + 1;
        if value > limit as u64 {
            proof {
                lemma_digits_value_grows(digits, i - from);
            }
            return None;
        }
    }
    assert(digits.take(i - from) =~= digits);
    Some(value as u32)
}

/// The `u32` that a text spells.
pub fn parse_u32(s: &str) -> (r: Option<u32>)
    ensures
        r == u32_of(s@),
{
    let chars = chars_of(s);
    assert(s@.skip(0) =~= s@);
    if chars.len() > 0 && chars[0] == '+' {
        read_digits(&chars, 1, u32::MAX)
    } else {
        read_digits(&chars, 0, u32::MAX)
    }
}

/// The `i32` that a text spells.
pub fn parse_i32(s: &str) -> (r: Option<i32>)
    ensures
        r == i32_of(s@),
{
    let chars = chars_of(s);
    assert(s@.skip(0) =~= s@);
    if chars.len() > 0 && chars[0] == '-' {
        match read_digits(&chars, 1, 0x8000_0000) {
            Some(value) => Some((-(value as i64)) as i32),
            None => None,
        }
    } else {
        let from: usize = if chars.len() > 0 && chars[0] == '+' {
            1
        } else {
            0
        };
        match read_digits(&chars, from, 0x7fff_ffff) {
            Some(value) => Some(value as i32),
            None => None,
        }
    }
}

/// The digit that stands for a number below ten, as a text.
fn digit_text(d: u32) -> (r: &'static str)
    requires
        d < 10,
    ensures
        r@ == seq![digit_char(d as nat)],
{
    proof {
        reveal_strlit("0");
        reveal_strlit("1");
        reveal_strlit("2");
        reveal_strlit("3");
        reveal_strlit("4");
        reveal_strlit("5");
        reveal_strlit("6");
        reveal_strlit("7");
        reveal_strlit("8");
        reveal_strlit("9");
    }
    let r = match d {
        0 => "0",
        1 => "1",
        2 => "2",
        3 => "3",
        4 => "4",
        5 => "5",
        6 => "6",
        7 => "7",
        8 => "8",
        _ => "9",
    };
    assert(r@ =~= seq![digit_char(d as nat)]);
    r
}

/// A number in decimal.
pub fn decimal(n: u32) -> (r: String)
    ensures
        r@ == decimal_text(n as nat),
    decreases n,
{
    if n < 10 {
        digit_text(n).to_owned()
    } else {
        let mut r = decimal(n / 10);
        let ghost head = r@;
        r.append(digit_text(n % 10));
        assert(r@ =~= head.push(digit_char((n % 10) as nat)));
        r
    }
}

/// A signed number in decimal.
pub fn signed_decimal(n: i32) -> (r: String)
    ensures
        r@ == signed_text(n as int),
{
    if n < 0 {
        let mut r = "-".to_owned();
        r.append(decimal((-(n as i64)) as u32).as_str());
        proof {
            reveal_strlit("-");
            assert("-"@ =~= seq!['-']);
        }
        r
    } else {
        decimal(n as u32)
    }
}

/// Up to its first `%s`, a template is kept as it is.
pub(crate) proof fn lemma_filled_at(template: Seq<char>, value: Seq<char>, at: int)
    requires
        0 <= at,
        at + 1 < template.len(),
        template[at] == '%' && template[at + 1] == 's',
        forall|j: int|
            0 <= j < at ==> !(#[trigger] template[j] == '%' && template[j + 1] == 's'),
    ensures
        filled(template, value) == template.take(at) + value + template.skip(at + 2),
    decreases at,
{
    if at > 0 {
        let rest = template.skip(1);
        assert(!(template[0] == '%' && template[1] == 's'));
        assert forall|j: int| 0 <= j < at - 1 implies !(#[trigger] rest[j] == '%' && rest[j + 1]
            == 's') by {
            assert(rest[j] == template[j + 1]);
        }
        lemma_filled_at(rest, value, at - 1);
        assert(seq![template[0]] + (rest.take(at - 1) + value + rest.skip(at + 1))
            =~= template.take(at) + value + template.skip(at + 2));
    } else {
        assert(value + template.skip(2) =~= template.take(0) + value + template.skip(2));
    }
}

/// A template without `%s` is kept whole.
pub(crate) proof fn lemma_filled_nowhere(template: Seq<char>, value: Seq<char>)
    requires
        forall|j: int|
            0 <= j < template.len() - 1 ==> !(#[trigger] template[j] == '%' && template[j + 1]
                == 's'),
    ensures
        filled(template, value) == template,
    decreases template.len(),
{
    if template.len() >= 2 {
        let rest = template.skip(1);
        assert(!(template[0] == '%' && template[1] == 's'));
        assert forall|j: int| 0 <= j < rest.len() - 1 implies !(#[trigger] rest[j] == '%' && rest[j
            + 1] == 's') by {
            assert(rest[j] == template[j + 1]);
        }
        lemma_filled_nowhere(rest, value);
        assert(seq![template[0]] + rest =~= template);
    }
}

/// The template with its first `%s` replaced by `value`.
pub fn fill(template: &str, value: &str) -> (r: String)
    ensures
        r@ == filled(template@, value@),
{
    let chars = chars_of(template);
    let mut i: usize = 0;
    while i < chars.len() && chars.len() - i >= 2
        invariant
            i <= chars.len(),
            chars@ == template@,
            forall|j: int|
                0 <= j < i ==> !(#[trigger] template@[j] == '%' && template@[j + 1] == 's'),
        decreases chars.len() - i,
    {
        if chars[i] == '%' && chars[i + 1] == 's' {
            proof {
                lemma_filled_at(template@, value@, i as int);
            }
            let mut r = template.substring_char(0, i).to_owned();
            r.append(value);
            r.append(template.substring_char(i + 2, chars.len()));
            assert(r@ =~= template@.take(i as int) + value@ + template@.skip(i + 2));
            return r;
        }
        i = i + 1;
    }
    proof {
        lemma_filled_nowhere(template@, value@);
    }
    template.to_owned()
}

/// A number in decimal is made of digits that stand for it.
pub(crate) proof fn lemma_decimal_text(n: nat)
    ensures
        all_digits(decimal_text(n)),
        digits_value(decimal_text(n)) == n,
    decreases n,
{
    reveal_with_fuel(digits_value, 2);
    if n >= 10 {
        lemma_decimal_text(n / 10);
        let head = decimal_text(n / 10);
        assert(head.push(digit_char(n % 10)).drop_last() =~= head);
    } else {
        assert(seq![digit_char(n)].drop_last() =~= Seq::<char>::empty());
    }
}

/// White space around a text that neither begins nor ends with white space is all that trimming
/// takes away.
pub proof fn law_trimming_takes_the_padding(before: Seq<char>, text: Seq<char>, after: Seq<char>)
    requires
        forall|i: int| 0 <= i < before.len() ==> white_space(#[trigger] before[i]),
        forall|i: int| 0 <= i < after.len() ==> white_space(#[trigger] after[i]),
        text.len() > 0 ==> !white_space(text.first()) && !white_space(text.last()),
    ensures
        trimmed(before + text + after) == text,
{
    let whole = before + text + after;
    let from = before.len() as int;
    let to = from + text.len();
    assert forall|i: int| to <= i < whole.len() implies white_space(#[trigger] whole[i]) by {
        assert(whole[i] == after[i - to]);
    }
    lemma_trimmed_range(whole, from, to);
    assert(whole.subrange(from, to) =~= text);
}

/// What is written in decimal is read back as the same number, by either reader, also where white
/// space stands around it.
pub proof fn law_decimal_round_trip(n: u32, before: Seq<char>, after: Seq<char>)
    requires
        forall|i: int| 0 <= i < before.len() ==> white_space(#[trigger] before[i]),
        forall|i: int| 0 <= i < after.len() ==> white_space(#[trigger] after[i]),
    ensures
        u32_of(trimmed(before + decimal_text(n as nat) + after)) == Some(n),
        n <= i32::MAX ==> i32_of(trimmed(before + decimal_text(n as nat) + after)) == Some(
            n as i32,
        ),
{
    let text = decimal_text(n as nat);
    lemma_decimal_text(n as nat);
    assert(is_digit(text[0]));
    assert(is_digit(text[text.len() - 1]));
    law_trimming_takes_the_padding(before, text, after);
}

} // verus!
