//! Character classes, decimal rendering and decimal parsing shared by the
//! Meta value types and the Graph error classification.
use vstd::prelude::*;
use vstd::utf8::encode_utf8;
use vstd::utf8::has_width_1_encoding;

verus! {

/// `c` is one of the ASCII decimal digits `0`..=`9`.
pub open spec fn is_ascii_digit(c: char) -> bool {
    '0' <= c && c <= '9'
}

/// `c` has the Unicode `White_Space` property (the set `char::is_whitespace` accepts).
pub open spec fn is_unicode_whitespace(c: char) -> bool {
    ||| ('\u{9}' <= c && c <= '\u{d}')
    ||| c == ' '
    ||| c == '\u{85}'
    ||| c == '\u{a0}'
    ||| c == '\u{1680}'
    ||| ('\u{2000}' <= c && c <= '\u{200a}')
    ||| c == '\u{2028}'
    ||| c == '\u{2029}'
    ||| c == '\u{202f}'
    ||| c == '\u{205f}'
    ||| c == '\u{3000}'
}

/// `c` is in the Unicode general category `Cc` (the set `char::is_control` accepts).
pub open spec fn is_unicode_control(c: char) -> bool {
    c <= '\u{1f}' || ('\u{7f}' <= c && c <= '\u{9f}')
}

/// Every character of `s` is an ASCII digit.
pub open spec fn all_ascii_digits(s: Seq<char>) -> bool {
    forall|i: int| 0 <= i < s.len() ==> is_ascii_digit(#[trigger] s[i])
}

/// Number of bytes of the UTF-8 encoding of `s` (what `str::len` returns).
pub open spec fn utf8_len(s: Seq<char>) -> nat {
    encode_utf8(s).len()
}

/// `s` holds at least one character that is not white space, i.e. `s.trim()` is non-empty.
pub open spec fn has_visible_text(s: Seq<char>) -> bool {
    exists|i: int| 0 <= i < s.len() && !is_unicode_whitespace(#[trigger] s[i])
}

/// The ASCII digit character for `d < 10`.
pub open spec fn digit_char(d: nat) -> char {
    if d == 0 {
        '0'
    } else if d == 1 {
        '1'
    } else if d == 2 {
        '2'
    } else if d == 3 {
        '3'
    } else if d == 4 {
        '4'
    } else if d == 5 {
        '5'
    } else if d == 6 {
        '6'
    } else if d == 7 {
        '7'
    } else if d == 8 {
        '8'
    } else {
        '9'
    }
}

/// The numeric value of an ASCII digit character.
pub open spec fn digit_value(c: char) -> nat {
    (c as int - '0' as int) as nat
}

/// Decimal representation of `n` without leading zeros.
pub open spec fn decimal_digits(n: nat) -> Seq<char>
    decreases n,
{
    if n < 10 {
        seq![digit_char(n)]
    } else {
        decimal_digits(n / 10).push(digit_char(n % 10))
    }
}

/// Decimal representation of `n`, with a leading `-` for negative values
/// (what `Display` prints for the integer types).
pub open spec fn decimal(n: int) -> Seq<char> {
    if n < 0 {
        seq!['-'] + decimal_digits((-n) as nat)
    } else {
        decimal_digits(n as nat)
    }
}

/// Value of a string of ASCII digits read as a decimal number.
pub open spec fn digits_value(s: Seq<char>) -> nat
    decreases s.len(),
{
    if s.len() == 0 {
        0
    } else {
        digits_value(s.drop_last()) * 10 + digit_value(s.last())
    }
}

/// The digits that follow an optional leading `+`.
pub open spec fn unsigned_digits(s: Seq<char>) -> Seq<char> {
    if s.len() > 0 && s[0] == '+' {
        s.drop_first()
    } else {
        s
    }
}

/// What `str::parse::<u64>` yields: an optional `+` followed by one or more
/// ASCII digits whose value fits in `u64`.
pub open spec fn parsed_u64(s: Seq<char>) -> Option<u64> {
    let digits = unsigned_digits(s);
    if digits.len() > 0 && all_ascii_digits(digits) && digits_value(digits) <= u64::MAX {
        Some(digits_value(digits) as u64)
    } else {
        None
    }
}

/// Every character of `s` is ASCII.
pub open spec fn all_ascii(s: Seq<char>) -> bool {
    forall|i: int| 0 <= i < s.len() ==> (#[trigger] s[i] as u32) < 0x80
}

/// An ASCII string is as long in UTF-8 bytes as in characters.
pub proof fn lemma_ascii_utf8_len(s: Seq<char>)
    requires
        all_ascii(s),
    ensures
        utf8_len(s) == s.len(),
    decreases s.len(),
{
    if s.len() > 0 {
        let c = s[0];
        assert(has_width_1_encoding(c as u32));
        assert(all_ascii(s.drop_first())) by {
            assert forall|i: int| 0 <= i < s.drop_first().len() implies (
            #[trigger] s.drop_first()[i] as u32) < 0x80 by {
                assert(s.drop_first()[i] == s[i + 1]);
            }
        }
        lemma_ascii_utf8_len(s.drop_first());
    }
}

/// A string of ASCII digits is as long in UTF-8 bytes as in characters.
pub proof fn lemma_ascii_digits_utf8_len(s: Seq<char>)
    requires
        all_ascii_digits(s),
    ensures
        utf8_len(s) == s.len(),
{
    assert(all_ascii(s)) by {
        assert forall|i: int| 0 <= i < s.len() implies (#[trigger] s[i] as u32) < 0x80 by {
            assert(is_ascii_digit(s[i]));
        }
    }
    lemma_ascii_utf8_len(s);
}

/// A non-empty string has a non-empty UTF-8 encoding.
pub proof fn lemma_utf8_len_at_least_len(s: Seq<char>)
    ensures
        utf8_len(s) >= s.len(),
    decreases s.len(),
{
    if s.len() > 0 {
        lemma_utf8_len_at_least_len(s.drop_first());
    }
}

/// Appending digits never makes the decimal value smaller.
pub proof fn lemma_digits_value_prefix(s: Seq<char>, k: int)
    requires
        0 <= k <= s.len(),
    ensures
        digits_value(s.take(k)) <= digits_value(s),
    decreases s.len() - k,
{
    if k < s.len() {
        lemma_digits_value_prefix(s, k + 1);
        assert(s.take(k + 1).drop_last() =~= s.take(k));
        assert(digits_value(s.take(k + 1)) == digits_value(s.take(k)) * 10 + digit_value(
            s.take(k + 1).last(),
        ));
    } else {
        assert(s.take(k) =~= s);
    }
}

/// `char::is_whitespace`.
pub fn char_is_whitespace(c: char) -> (r: bool)
    ensures
        r == is_unicode_whitespace(c),
{
    ('\u{9}' <= c && c <= '\u{d}') || c == ' ' || c == '\u{85}' || c == '\u{a0}' || c == '\u{1680}'
        || ('\u{2000}' <= c && c <= '\u{200a}') || c == '\u{2028}' || c == '\u{2029}' || c
        == '\u{202f}' || c == '\u{205f}' || c == '\u{3000}'
}

/// `char::is_control`.
pub fn char_is_control(c: char) -> (r: bool)
    ensures
        r == is_unicode_control(c),
{
    c <= '\u{1f}' || ('\u{7f}' <= c && c <= '\u{9f}')
}

/// Whether every character of `s` is an ASCII digit.
pub fn str_all_ascii_digits(s: &str) -> (r: bool)
    ensures
        r == all_ascii_digits(s@),
{
    let mut ok = true;
    for c in it: s.chars()
        invariant
            it.seq() == s@,
            ok == (forall|i: int| 0 <= i < it.index() ==> is_ascii_digit(#[trigger] s@[i])),
    {
        if !('0' <= c && c <= '9') {
            ok = false;
        }
    }
    ok
}

/// Whether some character of `s` is white space.
pub fn str_has_whitespace(s: &str) -> (r: bool)
    ensures
        r == (exists|i: int| 0 <= i < s@.len() && is_unicode_whitespace(#[trigger] s@[i])),
{
    let mut found = false;
    for c in it: s.chars()
        invariant
            it.seq() == s@,
            found == (exists|i: int|
                0 <= i < it.index() && is_unicode_whitespace(#[trigger] s@[i])),
    {
        if char_is_whitespace(c) {
            found = true;
        }
    }
    found
}

/// Whether some character of `s` is a control or white-space character.
pub fn str_has_control_or_whitespace(s: &str) -> (r: bool)
    ensures
        r == (exists|i: int|
            0 <= i < s@.len() && (is_unicode_control(#[trigger] s@[i]) || is_unicode_whitespace(
                s@[i],
            ))),
{
    let mut found = false;
    for c in it: s.chars()
        invariant
            it.seq() == s@,
            found == (exists|i: int|
                0 <= i < it.index() && (is_unicode_control(#[trigger] s@[i])
                    || is_unicode_whitespace(s@[i]))),
    {
        if char_is_control(c) || char_is_whitespace(c) {
            found = true;
        }
    }
    found
}

/// Whether `s.trim()` is non-empty.
pub fn str_has_visible_text(s: &str) -> (r: bool)
    ensures
        r == has_visible_text(s@),
{
    let mut found = false;
    for c in it: s.chars()
        invariant
            it.seq() == s@,
            found == (exists|i: int|
                0 <= i < it.index() && !is_unicode_whitespace(#[trigger] s@[i])),
    {
        if !char_is_whitespace(c) {
            found = true;
        }
    }
    found
}

fn digit_str(d: u64) -> (r: &'static str)
    requires
        d < 10,
    ensures
        r@ == seq![digit_char(d as nat)],
{
    if d == 0 {
        proof {
            reveal_strlit("0");
        }
        "0"
    } else if d == 1 {
        proof {
            reveal_strlit("1");
        }
        "1"
    } else if d == 2 {
        proof {
            reveal_strlit("2");
        }
        "2"
    } else if d == 3 {
        proof {
            reveal_strlit("3");
        }
        "3"
    } else if d == 4 {
        proof {
            reveal_strlit("4");
        }
        "4"
    } else if d == 5 {
        proof {
            reveal_strlit("5");
        }
        "5"
    } else if d == 6 {
        proof {
            reveal_strlit("6");
        }
        "6"
    } else if d == 7 {
        proof {
            reveal_strlit("7");
        }
        "7"
    } else if d == 8 {
        proof {
            reveal_strlit("8");
        }
        "8"
    } else {
        proof {
            reveal_strlit("9");
        }
        "9"
    }
}

/// Appends the decimal representation of `n`.
pub fn append_decimal_u64(out: &mut String, n: u64)
    ensures
        final(out)@ == old(out)@ + decimal_digits(n as nat),
    decreases n,
{
    if n >= 10 {
        append_decimal_u64(out, n / 10);
    }
    out.append(digit_str(n % 10));
    proof {
        if n >= 10 {
            assert(decimal_digits(n as nat) == decimal_digits((n / 10) as nat).push(
                digit_char((n % 10) as nat),
            ));
        }
    }
}

/// Appends the decimal representation of `n`, signed as `Display` prints it.
pub fn append_decimal_i64(out: &mut String, n: i64)
    ensures
        final(out)@ == old(out)@ + decimal(n as int),
{
    if n < 0 {
        out.append("-");
        proof {
            reveal_strlit("-");
        }
        let magnitude: u64 = if n == i64::MIN {
            9223372036854775808u64
        } else {
            (-n) as u64
        };
        append_decimal_u64(out, magnitude);
    } else {
        append_decimal_u64(out, n as u64);
    }
}

/// `str::parse::<u64>`: an optional `+` followed by ASCII digits, rejected on overflow.
pub fn parse_u64(s: &str) -> (r: Option<u64>)
    ensures
        r == parsed_u64(s@),
{
    let mut acc: u64 = 0;
    let mut first = true;
    let mut plus = false;
    let mut any_digit = false;
    let ghost mut digits: Seq<char> = Seq::empty();
    for c in it: s.chars()
        invariant
            it.seq() == s@,
            first == (it.index() == 0),
            first ==> !plus,
            plus ==> s@.len() > 0 && s@[0] == '+',
            !first ==> (plus <==> s@[0] == '+'),
            digits == (if plus {
                s@.subrange(1, it.index() as int)
            } else {
                s@.take(it.index() as int)
            }),
            all_ascii_digits(digits),
            acc as nat == digits_value(digits),
            any_digit == (digits.len() > 0),
    {
        if first && c == '+' {
            plus = true;
            first = false;
            proof {
                digits = s@.subrange(1, 1);
                assert(digits =~= Seq::<char>::empty());
            }
        } else {
            first = false;
            if !('0' <= c && c <= '9') {
                proof {
                    let d = unsigned_digits(s@);
                    let k = digits.len() as int;
                    assert(d[k] == c);
                }
                return None;
            }
            let ghost next = digits.push(c);
            let d: u64 = (c as u32 - '0' as u32) as u64;
            assert(next.drop_last() =~= digits);
            match acc.checked_mul(10) {
                Some(m) => match m.checked_add(d) {
                    Some(v) => {
                        acc = v;
                    },
                    None => {
                        proof {
                            lemma_overflow_is_final(s@, next);
                        }
                        return None;
                    },
                },
                None => {
                    proof {
                        lemma_overflow_is_final(s@, next);
                    }
                    return None;
                },
            }
            any_digit = true;
            proof {
                assert(digit_value(c) == d);
                assert(digits_value(next) == digits_value(digits) * 10 + digit_value(c));
                digits = next;
                assert(all_ascii_digits(digits)) by {
                    assert forall|i: int| 0 <= i < digits.len() implies is_ascii_digit(
                        #[trigger] digits[i],
                    ) by {
                        if i < digits.len() - 1 {
                            assert(digits[i] == digits.drop_last()[i]);
                        }
                    }
                }
                if plus {
                    assert(digits =~= s@.subrange(1, it.index() + 1));
                } else {
                    assert(digits =~= s@.take(it.index() + 1));
                }
            }
        }
    }
    proof {
        if plus {
            assert(digits =~= unsigned_digits(s@));
        } else {
            assert(digits =~= s@);
            if s@.len() > 0 {
                assert(s@[0] != '+');
            }
        }
    }
    if !any_digit {
        None
    } else {
        Some(acc)
    }
}

/// Once a prefix of the digits overflows, the whole string does.
proof fn lemma_overflow_is_final(s: Seq<char>, prefix: Seq<char>)
    requires
        prefix.len() <= unsigned_digits(s).len(),
        prefix =~= unsigned_digits(s).take(prefix.len() as int),
        digits_value(prefix) > u64::MAX,
    ensures
        parsed_u64(s) is None,
{
    lemma_digits_value_prefix(unsigned_digits(s), prefix.len() as int);
}

/// Law: text is blank exactly when every character is white space; any
/// single character that is not white space (letters of any script, emoji,
/// digits, punctuation) makes the text non-blank wherever it stands.
pub proof fn lemma_visible_text_is_any_non_whitespace(s: Seq<char>, i: int, c: char)
    ensures
        0 <= i < s.len() && !is_unicode_whitespace(s[i]) ==> has_visible_text(s),
        (forall|j: int| 0 <= j < s.len() ==> is_unicode_whitespace(#[trigger] s[j]))
            ==> !has_visible_text(s),
        !is_unicode_whitespace(c) ==> has_visible_text(seq![c]),
        is_unicode_whitespace(c) ==> !has_visible_text(seq![c]),
        !has_visible_text(Seq::<char>::empty()),
{
    if !is_unicode_whitespace(c) {
        assert(seq![c][0] == c);
    }
}

} // verus!
