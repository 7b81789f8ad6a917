use vstd::prelude::*;

verus! {

/// The value of a hexadecimal digit (`0-9`, `a-f`, `A-F`), or `None` for any
/// other character.
pub open spec fn hex_digit(c: char) -> Option<nat> {
    let n = c as u32;
    if 48 <= n <= 57 {
        Some((n - 48) as nat)
    } else if 97 <= n <= 102 {
        Some((n - 87) as nat)
    } else if 65 <= n <= 70 {
        Some((n - 55) as nat)
    } else {
        None
    }
}

/// Every character of the text is a hexadecimal digit.
pub open spec fn all_hex(digits: Seq<char>) -> bool {
    forall|i: int| 0 <= i < digits.len() ==> (#[trigger] hex_digit(digits[i])) is Some
}

/// The number that a text of hexadecimal digits spells, most significant
/// digit first.
pub open spec fn hex_number(digits: Seq<char>) -> nat
    decreases digits.len(),
{
    if digits.len() == 0 {
        0
    } else {
        hex_number(digits.drop_last()) * 16 + match hex_digit(digits.last()) {
            Some(v) => v,
            None => 0,
        }
    }
}

/// The 32 digits of a hyphenated UUID text `8-4-4-4-12`, hyphens left out.
pub open spec fn hyphenated_digits(text: Seq<char>) -> Seq<char> {
    text.subrange(0, 8) + text.subrange(9, 13) + text.subrange(14, 18) + text.subrange(19, 23)
        + text.subrange(24, 36)
}

/// A hyphenated UUID text: 36 characters, hyphens at 8, 13, 18 and 23 and
/// hexadecimal digits everywhere else.
pub open spec fn is_hyphenated_uuid(text: Seq<char>) -> bool {
    &&& text.len() == 36
    &&& text[8] == '-'
    &&& text[13] == '-'
    &&& text[18] == '-'
    &&& text[23] == '-'
    &&& all_hex(hyphenated_digits(text))
}

/// The 32 digits written as a hyphenated UUID text.
pub open spec fn hyphenate(digits: Seq<char>) -> Seq<char> {
    digits.subrange(0, 8) + seq!['-'] + digits.subrange(8, 12) + seq!['-'] + digits.subrange(12, 16)
        + seq!['-'] + digits.subrange(16, 20) + seq!['-'] + digits.subrange(20, 32)
}

/// A character equals an ASCII letter given in lower case, in either case.
pub open spec fn letter_either_case(c: char, lower: char) -> bool {
    c == lower || c as u32 == (lower as u32) - 32
}

/// The prefix `urn:uuid:`, the letters in either case.
pub open spec fn is_urn_prefix(p: Seq<char>) -> bool {
    &&& p.len() == 9
    &&& letter_either_case(p[0], 'u')
    &&& letter_either_case(p[1], 'r')
    &&& letter_either_case(p[2], 'n')
    &&& p[3] == ':'
    &&& letter_either_case(p[4], 'u')
    &&& letter_either_case(p[5], 'u')
    &&& letter_either_case(p[6], 'i')
    &&& letter_either_case(p[7], 'd')
    &&& p[8] == ':'
}

/// The 32 hexadecimal digits of a UUID text, in the forms `Uuid::parse_str`
/// documents (simple, hyphenated, braced `{..}`, URN `urn:uuid:..`), or
/// `None` for any other text.
pub open spec fn uuid_text_digits(text: Seq<char>) -> Option<Seq<char>> {
    if text.len() == 32 {
        if all_hex(text) {
            Some(text)
        } else {
            None
        }
    } else if text.len() == 36 {
        if is_hyphenated_uuid(text) {
            Some(hyphenated_digits(text))
        } else {
            None
        }
    } else if text.len() == 38 {
        if text[0] == '{' && text[37] == '}' && is_hyphenated_uuid(text.subrange(1, 37)) {
            Some(hyphenated_digits(text.subrange(1, 37)))
        } else {
            None
        }
    } else if text.len() == 45 {
        if is_urn_prefix(text.subrange(0, 9)) && is_hyphenated_uuid(text.subrange(9, 45)) {
            Some(hyphenated_digits(text.subrange(9, 45)))
        } else {
            None
        }
    } else {
        None
    }
}

/// The 128-bit value of a UUID text: the number its 32 digits spell, most
/// significant first.
pub open spec fn uuid_text_value(text: Seq<char>) -> Option<u128> {
    match uuid_text_digits(text) {
        Some(digits) => Some(hex_number(digits) as u128),
        None => None,
    }
}

/// A text of hexadecimal digits spells a number below 16 to the power of its
/// length.
pub proof fn lemma_hex_number_bound(digits: Seq<char>)
    requires
        all_hex(digits),
    ensures
        hex_number(digits) < vstd::arithmetic::power::pow(16, digits.len()),
    decreases digits.len(),
{
    vstd::arithmetic::power::lemma_pow_positive(16, digits.len());
    if digits.len() > 0 {
        let init = digits.drop_last();
        assert forall|i: int| 0 <= i < init.len() implies (#[trigger] hex_digit(init[i])) is Some by {
            assert(init[i] == digits[i]);
        }
        lemma_hex_number_bound(init);
        assert(hex_digit(digits[digits.len() - 1]) is Some);
        let p = vstd::arithmetic::power::pow(16, init.len());
        vstd::arithmetic::power::lemma_pow_adds(16, init.len(), 1);
        vstd::arithmetic::power::lemma_pow1(16);
        let d = hex_digit(digits.last())->0;
        assert(d < 16);
        assert(hex_number(init) * 16 + d < p * 16) by (nonlinear_arith)
            requires
                hex_number(init) < p,
                d < 16,
        ;
    }
}

/// Thirty-two hexadecimal digits spell a number that fits in 128 bits, so a
/// UUID's value is exactly the number its digits spell.
pub proof fn lemma_uuid_value_exact(digits: Seq<char>)
    requires
        digits.len() == 32,
        all_hex(digits),
    ensures
        hex_number(digits) < 0x1_0000_0000_0000_0000_0000_0000_0000_0000,
        (hex_number(digits) as u128) as nat == hex_number(digits),
{
    lemma_hex_number_bound(digits);
    vstd::arithmetic::power::lemma_pow_adds(16, 16, 16);
    assert(vstd::arithmetic::power::pow(16, 16) == 0x1_0000_0000_0000_0000) by {
        vstd::arithmetic::power::lemma_pow1(16);
        vstd::arithmetic::power::lemma_pow_adds(16, 1, 1);
        assert(vstd::arithmetic::power::pow(16, 2) == 0x100);
        vstd::arithmetic::power::lemma_pow_adds(16, 2, 2);
        assert(vstd::arithmetic::power::pow(16, 4) == 0x1_0000);
        vstd::arithmetic::power::lemma_pow_adds(16, 4, 4);
        assert(vstd::arithmetic::power::pow(16, 8) == 0x1_0000_0000);
        vstd::arithmetic::power::lemma_pow_adds(16, 8, 8);
    }
}

/// The simple, hyphenated, braced and URN forms of the same 32 digits name
/// the same UUID, whose value is the number the digits spell.
pub proof fn lemma_uuid_forms_agree(digits: Seq<char>)
    requires
        digits.len() == 32,
        all_hex(digits),
    ensures
        uuid_text_value(digits) == Some(hex_number(digits) as u128),
        uuid_text_value(hyphenate(digits)) == Some(hex_number(digits) as u128),
        uuid_text_value(seq!['{'] + hyphenate(digits) + seq!['}']) == Some(
            hex_number(digits) as u128,
        ),
        uuid_text_value(seq!['u', 'r', 'n', ':', 'u', 'u', 'i', 'd', ':'] + hyphenate(digits))
            == Some(hex_number(digits) as u128),
{
    let h = hyphenate(digits);
    assert(h.len() == 36);
    assert(hyphenated_digits(h) =~= digits);
    assert(h[8] == '-' && h[13] == '-' && h[18] == '-' && h[23] == '-');
    assert(is_hyphenated_uuid(h));
    let b = seq!['{'] + h + seq!['}'];
    assert(b.subrange(1, 37) =~= h);
    assert(b[0] == '{' && b[37] == '}');
    let prefix = seq!['u', 'r', 'n', ':', 'u', 'u', 'i', 'd', ':'];
    let u = prefix + h;
    assert(u.subrange(0, 9) =~= prefix);
    assert(u.subrange(9, 45) =~= h);
    assert(is_urn_prefix(prefix));
}

} // verus!
