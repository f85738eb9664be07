//! What holds of texts: how numbers are read and written, how a placeholder is filled, and what a
//! scheme and an encoded text are.

use vstd::prelude::*;

use crate::link::{percent_encoded, scheme_of};
use crate::text::{
    all_digits, decimal_text, digits_value, filled, i32_of, is_digit, lemma_decimal_text,
    lemma_filled_at, lemma_filled_nowhere, signed_text, trimmed, u32_of, white_space,
};

verus! {

/// No number is spelled by nothing, or by a sign alone.
pub proof fn law_nothing_spells_no_number()
    ensures
        u32_of(Seq::<char>::empty()) is None,
        u32_of(seq!['+']) is None,
        i32_of(Seq::<char>::empty()) is None,
        i32_of(seq!['+']) is None,
        i32_of(seq!['-']) is None,
{
    assert(seq!['+'].skip(1) =~= Seq::<char>::empty());
    assert(seq!['-'].skip(1) =~= Seq::<char>::empty());
}

/// One character more. A digit behind a number makes it ten times as large and adds its own value,
/// as long as there is room; anything else behind it makes it no number, and what is no number stays
/// so, but for the empty text and a sole `+`, behind which a digit stands for itself.
pub proof fn law_a_further_character(s: Seq<char>, c: char)
    ensures
        !('0' <= c <= '9') ==> u32_of(s.push(c)) is None,
        '0' <= c <= '9' ==> ({
            let d = c as int - '0' as int;
            match u32_of(s) {
                Some(v) => if v * 10 + d <= u32::MAX {
                    u32_of(s.push(c)) matches Some(w) && w == v * 10 + d
                } else {
                    u32_of(s.push(c)) is None
                },
                None => if s.len() == 0 || s == seq!['+'] {
                    u32_of(s.push(c)) matches Some(w) && w == d
                } else {
                    u32_of(s.push(c)) is None
                },
            }
        }),
{
    let t = s.push(c);
    let plus = s.len() > 0 && s[0] == '+';
    let digits = if plus {
        s.skip(1)
    } else {
        s
    };
    let longer = if t[0] == '+' {
        t.skip(1)
    } else {
        t
    };
    if s.len() == 0 {
        if c == '+' {
            assert(longer =~= Seq::<char>::empty());
        } else {
            assert(longer =~= seq![c]);
            assert(longer.drop_last() =~= Seq::<char>::empty());
            assert(longer[0] == c);
            reveal_with_fuel(digits_value, 2);
        }
    } else {
        assert(longer =~= digits.push(c));
        assert(longer.drop_last() =~= digits);
        assert(longer[digits.len() as int] == c);
        if all_digits(longer) && digits.len() > 0 {
            assert forall|i: int| 0 <= i < digits.len() implies is_digit(#[trigger] digits[i]) by {
                assert(longer[i] == digits[i]);
            }
        }
        if all_digits(digits) && is_digit(c) {
            assert forall|i: int| 0 <= i < longer.len() implies is_digit(#[trigger] longer[i]) by {
                if i < digits.len() {
                    assert(longer[i] == digits[i]);
                }
            }
        }
        if digits.len() == 0 {
            assert(s =~= seq!['+']);
            assert(digits =~= Seq::<char>::empty());
            reveal_with_fuel(digits_value, 2);
        }
        assert(digits_value(longer) == digits_value(digits) * 10 + (c as int - '0' as int) as nat);
    }
}

/// Signs. Without a sign, or behind a `+`, the same numbers are read as without the sign's meaning,
/// up to the largest; behind a `-` their negatives, down to the smallest; two signs spell nothing.
pub proof fn law_signs(s: Seq<char>)
    requires
        s.len() > 0 ==> s[0] != '+' && s[0] != '-',
    ensures
        match u32_of(s) {
            Some(v) => {
                &&& if v <= i32::MAX {
                    i32_of(s) == Some(v as i32) && i32_of(seq!['+'] + s) == Some(v as i32)
                } else {
                    i32_of(s) is None && i32_of(seq!['+'] + s) is None
                }
                &&& if v <= 0x8000_0000 {
                    i32_of(seq!['-'] + s) matches Some(w) && w == -v
                } else {
                    i32_of(seq!['-'] + s) is None
                }
            },
            None => i32_of(s) is None && i32_of(seq!['+'] + s) is None && i32_of(seq!['-'] + s)
                is None,
        },
        u32_of(seq!['-'] + s) is None,
        u32_of(seq!['+'] + s) == u32_of(s),
{
    let plus = seq!['+'] + s;
    let minus = seq!['-'] + s;
    assert(plus.skip(1) =~= s);
    assert(minus.skip(1) =~= s);
    assert(plus[0] == '+' && minus[0] == '-');
    assert(!is_digit(minus[0]));
}

/// Two signs spell no number.
pub proof fn law_two_signs_spell_no_number(s: Seq<char>)
    requires
        s.len() > 1,
        s[0] == '+' || s[0] == '-',
        s[1] == '+' || s[1] == '-',
    ensures
        u32_of(s) is None,
        i32_of(s) is None,
{
    assert(s.skip(1)[0] == s[1]);
    assert(!is_digit(s[1]));
    assert(!is_digit('-'));
    if s[0] == '-' {
        assert(!is_digit(s[0]));
    }
}

/// A number is written with its last digit behind what stands for the rest, and a number below ten
/// as one digit; so never with a needless zero before it.
pub proof fn law_a_number_is_written_digit_by_digit(n: nat, d: nat)
    requires
        d < 10,
    ensures
        decimal_text(d) == seq![(48 + d) as char],
        n > 0 ==> decimal_text(n * 10 + d) == decimal_text(n).push((48 + d) as char),
        decimal_text(n).len() > 0,
        n > 0 ==> decimal_text(n)[0] != '0',
    decreases n,
{
    assert((n * 10 + d) / 10 == n && (n * 10 + d) % 10 == d);
    if n >= 10 {
        law_a_number_is_written_digit_by_digit(n / 10, 0);
    }
}

/// A negative number is written as the positive one behind a `-`; each is read back as itself.
pub proof fn law_a_signed_number_reads_back(n: i32)
    ensures
        n >= 0 ==> signed_text(n as int) == decimal_text(n as nat),
        n < 0 ==> signed_text(n as int) == seq!['-'] + decimal_text((-n) as nat),
        i32_of(signed_text(n as int)) == Some(n),
{
    let text = signed_text(n as int);
    if n < 0 {
        lemma_decimal_text((-n) as nat);
        assert(text.skip(1) =~= decimal_text((-n) as nat));
    } else {
        lemma_decimal_text(n as nat);
        assert(is_digit(text[0]));
    }
}

/// The first `%s` of a template gives way to the value, and everything around it stays.
pub proof fn law_the_first_placeholder_is_filled(
    before: Seq<char>,
    after: Seq<char>,
    value: Seq<char>,
)
    requires
        forall|i: int|
            0 <= i < before.len() - 1 ==> !(#[trigger] before[i] == '%' && before[i + 1] == 's'),
    ensures
        filled(before + seq!['%', 's'] + after, value) == before + value + after,
{
    let template = before + seq!['%', 's'] + after;
    let at = before.len() as int;
    assert forall|j: int| 0 <= j < at implies !(#[trigger] template[j] == '%' && template[j + 1]
        == 's') by {
        assert(template[j] == before[j]);
        if j < at - 1 {
            assert(template[j + 1] == before[j + 1]);
        } else {
            assert(template[j + 1] == '%');
        }
    }
    lemma_filled_at(template, value, at);
    assert(template.take(at) =~= before);
    assert(template.skip(at + 2) =~= after);
}

/// A template without a `%s` stays as it is.
pub proof fn law_without_a_placeholder_nothing_is_filled(template: Seq<char>, value: Seq<char>)
    requires
        forall|i: int|
            0 <= i < template.len() - 1 ==> !(#[trigger] template[i] == '%' && template[i + 1]
                == 's'),
    ensures
        filled(template, value) == template,
{
    lemma_filled_nowhere(template, value);
}

/// Trimming takes white space only, all of it at both ends, and from nowhere else.
pub proof fn law_a_trimmed_text_has_no_padding(s: Seq<char>)
    ensures
        ({
            let t = trimmed(s);
            t.len() > 0 ==> !white_space(t.first()) && !white_space(t.last())
        }),
        trimmed(trimmed(s)) == trimmed(s),
    decreases s.len(),
{
    if s.len() > 0 && white_space(s.first()) {
        law_a_trimmed_text_has_no_padding(s.drop_first());
    } else if s.len() > 0 && white_space(s.last()) {
        law_a_trimmed_text_has_no_padding(s.drop_last());
    }
}

/// The scheme is what stands before the first colon.
pub proof fn law_the_scheme_ends_at_the_first_colon(scheme: Seq<char>, rest: Seq<char>)
    requires
        !scheme.contains(':'),
    ensures
        scheme_of(scheme + seq![':'] + rest) == scheme,
        scheme_of(scheme) == scheme,
    decreases scheme.len(),
{
    let text = scheme + seq![':'] + rest;
    if scheme.len() == 0 {
        assert(scheme =~= Seq::<char>::empty());
        assert(text[0] == ':');
    } else {
        let shorter = scheme.skip(1);
        assert(scheme[0] != ':');
        assert(!shorter.contains(':')) by {
            if shorter.contains(':') {
                let i = choose|i: int| 0 <= i < shorter.len() && shorter[i] == ':';
                assert(scheme[i + 1] == ':');
            }
        }
        law_the_scheme_ends_at_the_first_colon(shorter, rest);
        assert(text.skip(1) =~= shorter + seq![':'] + rest);
        assert(seq![scheme[0]] + shorter =~= scheme);
    }
}

/// The number that a hexadecimal digit in upper case stands for.
pub open spec fn hex_value(c: char) -> int {
    if '0' <= c <= '9' {
        c as int - 48
    } else if 'A' <= c <= 'F' {
        c as int - 55
    } else {
        -1
    }
}

/// Texts are encoded byte by byte: a letter, a digit, and each of `-`, `.`, `_` and `~` stands for
/// itself, and every other byte is written as `%` and two hexadecimal digits of its value.
pub proof fn law_bytes_are_encoded_one_by_one(bytes: Seq<u8>, b: u8)
    ensures
        percent_encoded(Seq::<u8>::empty()) == Seq::<char>::empty(),
        if 0x30 <= b <= 0x39 || 0x41 <= b <= 0x5a || 0x61 <= b <= 0x7a || b == 0x2d || b == 0x2e
            || b == 0x5f || b == 0x7e {
            percent_encoded(bytes.push(b)) == percent_encoded(bytes).push(b as char)
        } else {
            exists|high: char, low: char|
                hex_value(high) * 16 + #[trigger] hex_value(low) == b && 0 <= hex_value(low) < 16
                    && 0 <= #[trigger] hex_value(high) < 16 && percent_encoded(bytes.push(b))
                    == percent_encoded(bytes) + seq!['%', high, low]
        },
{
    assert(bytes.push(b).drop_last() =~= bytes);
    let high = crate::link::hex_digit(b as int / 16);
    let low = crate::link::hex_digit(b as int % 16);
    assert(hex_value(high) == b as int / 16);
    assert(hex_value(low) == b as int % 16);
    assert(percent_encoded(bytes) + seq![b as char] =~= percent_encoded(bytes).push(b as char));
}

} // verus!
