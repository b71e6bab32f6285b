//! Character and string predicates shared by the settings editor and the presence runner.
use vstd::prelude::*;

verus! {

/// Whether `c` has one of the Unicode general categories for numbers (Nd, Nl, No).
pub uninterp spec fn unicode_numeric(c: char) -> bool;

/// Calls `char::is_numeric`.
///
/// Claims that the result is the Unicode "numeric" property of `c`, a function of `c`
/// alone; and, among ASCII characters, that exactly the digits `'0'..='9'` have it (no other
/// ASCII character is in a number category).
#[verifier::external_body]
fn char_is_numeric(c: char) -> (r: bool)
    ensures
        r == unicode_numeric(c),
        is_ascii_char(c) ==> (r == is_digit(c)),
{
    c.is_numeric()
}

/// An ASCII character.
pub open spec fn is_ascii_char(c: char) -> bool {
    (c as u32) < 128
}

/// Every character of `s` is numeric; vacuously true of the empty text.
pub open spec fn all_numeric(s: Seq<char>) -> bool {
    forall|i: int| 0 <= i < s.len() ==> unicode_numeric(#[trigger] s[i])
}

/// Every character of `s` is an ASCII digit; vacuously true of the empty text.
pub open spec fn only_digits(s: Seq<char>) -> bool {
    forall|i: int| 0 <= i < s.len() ==> is_digit(#[trigger] s[i])
}

/// Every character of `s` is ASCII.
pub open spec fn all_ascii(s: Seq<char>) -> bool {
    forall|i: int| 0 <= i < s.len() ==> is_ascii_char(#[trigger] s[i])
}

/// Whether every character of `text` is numeric in the Unicode sense. On ASCII text, that
/// is: whether every character is a decimal digit.
pub fn is_numeric(text: &str) -> (r: bool)
    ensures
        r == all_numeric(text@),
        all_ascii(text@) ==> (r == only_digits(text@)),
{
    let mut all: bool = true;
    for c in it: text.chars()
        invariant
            it.seq() == text@,
            all == (forall|j: int| 0 <= j < it.index() ==> unicode_numeric(#[trigger] text@[j])),
            forall|j: int|
                0 <= j < it.index() && is_ascii_char(#[trigger] text@[j]) ==> (unicode_numeric(
                    text@[j],
                ) == is_digit(text@[j])),
    {
        if !char_is_numeric(c) {
            all = false;
        }
    }
    all
}

/// The Unicode `White_Space` property, which `char::is_whitespace` decides: the characters
/// U+0009 to U+000D, U+0020, U+0085, U+00A0, U+1680, U+2000 to U+200A, U+2028, U+2029,
/// U+202F, U+205F and U+3000.
pub open spec fn is_white_space(c: char) -> bool {
    let u = c as u32;
    ||| 0x9 <= u <= 0xd
    ||| u == 0x20
    ||| u == 0x85
    ||| u == 0xa0
    ||| u == 0x1680
    ||| 0x2000 <= u <= 0x200a
    ||| u == 0x2028
    ||| u == 0x2029
    ||| u == 0x202f
    ||| u == 0x205f
    ||| u == 0x3000
}

/// `s` without its leading white space.
pub open spec fn trim_start_view(s: Seq<char>) -> Seq<char>
    decreases s.len(),
{
    if s.len() > 0 && is_white_space(s[0]) {
        trim_start_view(s.drop_first())
    } else {
        s
    }
}

/// `s` without its trailing white space.
pub open spec fn trim_end_view(s: Seq<char>) -> Seq<char>
    decreases s.len(),
{
    if s.len() > 0 && is_white_space(s.last()) {
        trim_end_view(s.drop_last())
    } else {
        s
    }
}

/// `s` without leading and trailing white space.
pub open spec fn trim_view(s: Seq<char>) -> Seq<char> {
    trim_end_view(trim_start_view(s))
}

/// Only white space, or nothing: what trims to the empty text.
pub open spec fn is_blank(s: Seq<char>) -> bool {
    forall|i: int| 0 <= i < s.len() ==> is_white_space(#[trigger] s[i])
}

/// Calls `str::trim`, which removes leading and trailing characters that have the Unicode
/// `White_Space` property. Claims exactly that of the result's characters.
#[verifier::external_body]
fn trim<'a>(s: &'a str) -> (r: &'a str)
    ensures
        r@ == trim_view(s@),
{
    s.trim()
}

/// Trimming the start leaves nothing exactly when everything is white space.
proof fn lemma_trim_start_empty(s: Seq<char>)
    ensures
        (trim_start_view(s).len() == 0) == is_blank(s),
    decreases s.len(),
{
    if s.len() > 0 {
        lemma_trim_start_empty(s.drop_first());
        if is_white_space(s[0]) {
            assert forall|i: int| 0 <= i < s.len() && is_blank(s.drop_first()) implies is_white_space(
                #[trigger] s[i],
            ) by {
                if i > 0 {
                    assert(s[i] == s.drop_first()[i - 1]);
                }
            }
            assert(is_blank(s) ==> is_blank(s.drop_first())) by {
                assert forall|i: int| 0 <= i < s.drop_first().len() && is_blank(s) implies is_white_space(
                    #[trigger] s.drop_first()[i],
                ) by {
                    assert(s.drop_first()[i] == s[i + 1]);
                }
            }
        } else {
            assert(!is_white_space(s[0]));
        }
    }
}

/// Trimming the end of a text that does not start with white space leaves something.
proof fn lemma_trim_end_nonempty(s: Seq<char>)
    requires
        s.len() > 0,
        !is_white_space(s[0]),
    ensures
        trim_end_view(s).len() > 0,
    decreases s.len(),
{
    if is_white_space(s.last()) {
        assert(s.len() > 1);
        assert(s.drop_last()[0] == s[0]);
        lemma_trim_end_nonempty(s.drop_last());
    }
}

/// A text trims to nothing exactly when it is blank.
pub proof fn lemma_trim_empty_iff_blank(s: Seq<char>)
    ensures
        (trim_view(s).len() == 0) == is_blank(s),
{
    lemma_trim_start_empty(s);
    let t = trim_start_view(s);
    if t.len() > 0 {
        lemma_trim_start_shape(s);
        lemma_trim_end_nonempty(t);
    }
}

/// After trimming the start, the text is empty or starts with something other than white space.
proof fn lemma_trim_start_shape(s: Seq<char>)
    ensures
        trim_start_view(s).len() == 0 || !is_white_space(trim_start_view(s)[0]),
    decreases s.len(),
{
    if s.len() > 0 && is_white_space(s[0]) {
        lemma_trim_start_shape(s.drop_first());
    }
}

/// Whether `s` is empty or only white space, as `s.trim() == ""` decides it.
pub fn text_is_blank(s: &str) -> (r: bool)
    ensures
        r == (trim_view(s@).len() == 0),
        r == is_blank(s@),
{
    proof {
        lemma_trim_empty_iff_blank(s@);
    }
    trim(s).is_empty()
}

/// Length in UTF-8 bytes of `s` without leading and trailing white space, as
/// `s.trim().len()` counts it.
pub fn trimmed_byte_len(s: &str) -> (r: usize)
    ensures
        r == vstd::utf8::encode_utf8(trim_view(s@)).len() as usize,
{
    trim(s).len()
}

/// An ASCII decimal digit.
pub open spec fn is_digit(c: char) -> bool {
    '0' <= c && c <= '9'
}

/// One or more ASCII decimal digits.
pub open spec fn all_digits(s: Seq<char>) -> bool {
    s.len() > 0 && forall|i: int| 0 <= i < s.len() ==> is_digit(#[trigger] s[i])
}

/// The number that the decimal digits `s` write.
pub open spec fn decimal_value(s: Seq<char>) -> int
    decreases s.len(),
{
    if s.len() == 0 {
        0
    } else {
        decimal_value(s.drop_last()) * 10 + (s.last() as int - '0' as int)
    }
}

/// What `str::parse::<i32>` accepts: an optional `+` or `-`, then decimal digits whose value,
/// with the sign, lies in `i32`.
pub open spec fn parse_i32_view(s: Seq<char>) -> Option<i32> {
    if s.len() > 0 && s[0] == '-' && all_digits(s.drop_first()) {
        if -decimal_value(s.drop_first()) >= i32::MIN {
            Some((-decimal_value(s.drop_first())) as i32)
        } else {
            None
        }
    } else if s.len() > 0 && s[0] == '+' && all_digits(s.drop_first()) {
        if decimal_value(s.drop_first()) <= i32::MAX {
            Some(decimal_value(s.drop_first()) as i32)
        } else {
            None
        }
    } else if all_digits(s) && decimal_value(s) <= i32::MAX {
        Some(decimal_value(s) as i32)
    } else {
        None
    }
}

/// What `str::parse::<u64>` accepts: an optional `+`, then decimal digits whose value lies
/// in `u64`.
pub open spec fn parse_u64_view(s: Seq<char>) -> Option<u64> {
    if s.len() > 0 && s[0] == '+' && all_digits(s.drop_first()) {
        if decimal_value(s.drop_first()) <= u64::MAX {
            Some(decimal_value(s.drop_first()) as u64)
        } else {
            None
        }
    } else if all_digits(s) && decimal_value(s) <= u64::MAX {
        Some(decimal_value(s) as u64)
    } else {
        None
    }
}

/// Calls `str::parse::<i32>` (`i32::from_str`, radix 10). Claims the documented grammar:
/// an optional sign and at least one ASCII digit, in range; anything else is an error.
#[verifier::external_body]
fn parse_i32(s: &str) -> (r: Option<i32>)
    ensures
        r == parse_i32_view(s@),
{
    s.parse::<i32>().ok()
}

/// Calls `str::parse::<u64>` (`u64::from_str`, radix 10). Claims the documented grammar:
/// an optional `+` and at least one ASCII digit, in range; anything else is an error.
#[verifier::external_body]
fn parse_u64(s: &str) -> (r: Option<u64>)
    ensures
        r == parse_u64_view(s@),
{
    s.parse::<u64>().ok()
}

/// The `i32` that `s` writes, or 0 when it writes none.
pub open spec fn i32_or_zero(s: Seq<char>) -> i32 {
    match parse_i32_view(s) {
        Some(v) => v,
        None => 0,
    }
}

/// The `u64` that `s` writes, or 0 when it writes none.
pub open spec fn u64_or_zero(s: Seq<char>) -> u64 {
    match parse_u64_view(s) {
        Some(v) => v,
        None => 0,
    }
}

/// The `i32` that `s` writes, or 0 when it writes none.
pub fn parse_i32_or_zero(s: &str) -> (r: i32)
    ensures
        r == i32_or_zero(s@),
{
    match parse_i32(s) {
        Some(v) => v,
        None => 0,
    }
}

/// The `u64` that `s` writes, or 0 when it writes none.
pub fn parse_u64_or_zero(s: &str) -> (r: u64)
    ensures
        r == u64_or_zero(s@),
{
    match parse_u64(s) {
        Some(v) => v,
        None => 0,
    }
}

/// The ASCII digit for `d`, for `d` from 0 to 9.
pub open spec fn digit_char(d: int) -> char {
    if d == 0 {
        '0'
    } else if d == 1 {
        '1'
    } else if d == 2 {
        '2'
    } else if d == 3 {
        '3'
    } else if d == 4 {
        '4'
    } else if d == 5 {
        '5'
    } else if d == 6 {
        '6'
    } else if d == 7 {
        '7'
    } else if d == 8 {
        '8'
    } else {
        '9'
    }
}

/// The decimal digits of `n`, without leading zeros, as `to_string` writes them.
pub open spec fn decimal_digits(n: nat) -> Seq<char>
    decreases n,
{
    if n < 10 {
        seq![digit_char(n as int)]
    } else {
        decimal_digits(n / 10).push(digit_char((n % 10) as int))
    }
}

/// The decimal text of `v`: a `-` before the digits of a negative number.
pub open spec fn signed_decimal(v: int) -> Seq<char> {
    if v < 0 {
        seq!['-'] + decimal_digits((-v) as nat)
    } else {
        decimal_digits(v as nat)
    }
}

/// The one-character text of the digit `d`.
fn digit_str(d: u64) -> (r: &'static str)
    requires
        d < 10,
    ensures
        r@ == seq![digit_char(d as int)],
{
    proof {
        reveal_strlit("0");
        reveal_strlit("1");
        reveal_strlit("2");
        reveal_strlit("3");
        reveal_strlit("4");
        reveal_strlit("5");
        reveal_strlit("6");
        reveal_strlit("7");
        reveal_strlit("8");
        reveal_strlit("9");
    }
    if d == 0 {
        "0"
    } else if d == 1 {
        "1"
    } else if d == 2 {
        "2"
    } else if d == 3 {
        "3"
    } else if d == 4 {
        "4"
    } else if d == 5 {
        "5"
    } else if d == 6 {
        "6"
    } else if d == 7 {
        "7"
    } else if d == 8 {
        "8"
    } else {
        "9"
    }
}

/// Appends the decimal digits of `n` to `r`.
fn push_decimal(r: &mut String, n: u64)
    ensures
        final(r)@ == old(r)@ + decimal_digits(n as nat),
    decreases n,
{
    if n >= 10 {
        push_decimal(r, n / 10);
    }
    r.append(digit_str(n % 10));
    proof {
        if n >= 10 {
            assert(old(r)@ + decimal_digits((n / 10) as nat) + seq![digit_char((n % 10) as int)]
                =~= old(r)@ + decimal_digits(n as nat));
        } else {
            assert(n % 10 == n);
        }
    }
}

/// The decimal text of `n`, as `n.to_string()` writes it.
pub fn u64_to_decimal(n: u64) -> (r: String)
    ensures
        r@ == decimal_digits(n as nat),
{
    let mut r = String::new();
    push_decimal(&mut r, n);
    assert(r@ =~= decimal_digits(n as nat));
    r
}

/// The decimal text of `v`, as `v.to_string()` writes it.
pub fn i32_to_decimal(v: i32) -> (r: String)
    ensures
        r@ == signed_decimal(v as int),
{
    proof {
        reveal_strlit("-");
    }
    if v < 0 {
        let mut r = "-".to_owned();
        let m: i64 = v as i64;
        let a: u64 = (0 - m) as u64;
        push_decimal(&mut r, a);
        r
    } else {
        let mut r = String::new();
        push_decimal(&mut r, v as u64);
        assert(r@ =~= signed_decimal(v as int));
        r
    }
}

/// The digits of a number are digits and write that number.
pub proof fn lemma_decimal_digits(n: nat)
    ensures
        all_digits(decimal_digits(n)),
        decimal_value(decimal_digits(n)) == n,
    decreases n,
{
    let s = decimal_digits(n);
    if n < 10 {
        assert(s.drop_last() =~= Seq::<char>::empty());
        assert(decimal_value(s.drop_last()) == 0);
    } else {
        lemma_decimal_digits(n / 10);
        let t = decimal_digits(n / 10);
        assert(s.drop_last() =~= t);
        assert(s.last() == digit_char((n % 10) as int));
        assert forall|i: int| 0 <= i < s.len() implies is_digit(#[trigger] s[i]) by {
            if i < t.len() {
                assert(s[i] == t[i]);
            }
        }
        assert((n / 10) * 10 + n % 10 == n) by (nonlinear_arith);
    }
}

/// A `u64` written in decimal reads back as the same `u64`.
pub proof fn law_u64_decimal_roundtrip(n: u64)
    ensures
        parse_u64_view(decimal_digits(n as nat)) == Some(n),
{
    lemma_decimal_digits(n as nat);
    let s = decimal_digits(n as nat);
    assert(is_digit(s[0]));
}

/// An `i32` written in decimal reads back as the same `i32`.
pub proof fn law_i32_decimal_roundtrip(v: i32)
    ensures
        parse_i32_view(signed_decimal(v as int)) == Some(v),
{
    if v < 0 {
        let d = decimal_digits((-v) as nat);
        lemma_decimal_digits((-v) as nat);
        let s = signed_decimal(v as int);
        assert(s.drop_first() =~= d);
        assert(s[0] == '-');
    } else {
        lemma_decimal_digits(v as nat);
        let s = decimal_digits(v as nat);
        assert(is_digit(s[0]));
    }
}

} // verus!
