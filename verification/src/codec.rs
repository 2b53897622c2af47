//! Text payloads with a fixed meaning: the sentinel that triggers the canned
//! greeting instead of an echo, and the JSON framing of a generated integer.

use vstd::prelude::*;

verus! {

/// The inbound text that is answered with the canned greeting rather than
/// echoed back.
pub open spec fn spec_sentinel() -> Seq<char> {
    "Hello"@
}

/// The fixed reply to the sentinel.
pub open spec fn spec_greeting() -> Seq<char> {
    "Hello World! from Actix Web"@
}

/// The decimal digit character for `d` (meaningful for `0 <= d <= 9`).
pub open spec fn spec_digit(d: int) -> char {
    if d == 0 {
        '0'
    } else if d == 1 {
        '1'
    } else if d == 2 {
        '2'
    } else if d == 3 {
        '3'
    } else if d == 4 {
        '4'
    } else if d == 5 {
        '5'
    } else if d == 6 {
        '6'
    } else if d == 7 {
        '7'
    } else if d == 8 {
        '8'
    } else {
        '9'
    }
}

/// The usual decimal rendering of a `u8`: no leading zeros, one to three
/// digits.
pub open spec fn spec_decimal_u8(v: u8) -> Seq<char> {
    if v < 10 {
        seq![spec_digit(v as int)]
    } else if v < 100 {
        seq![spec_digit(v as int / 10), spec_digit(v as int % 10)]
    } else {
        seq![
            spec_digit(v as int / 100),
            spec_digit((v as int / 10) % 10),
            spec_digit(v as int % 10),
        ]
    }
}

/// The JSON text that carries one generated integer over the wire: an object
/// with the single field `integer`.
pub open spec fn spec_random_integer_message(v: u8) -> Seq<char> {
    "{\"integer\":"@ + spec_decimal_u8(v) + "}"@
}

/// The one-character string for the decimal digit `d`.
fn digit_str(d: u8) -> (r: &'static str)
    requires
        d < 10,
    ensures
        r@ == seq![spec_digit(d as int)],
{
    proof {
        reveal_strlit("0");
        reveal_strlit("1");
        reveal_strlit("2");
        reveal_strlit("3");
        reveal_strlit("4");
        reveal_strlit("5");
        reveal_strlit("6");
        reveal_strlit("7");
        reveal_strlit("8");
        reveal_strlit("9");
    }
    let r: &'static str = if d == 0 {
        "0"
    } else if d == 1 {
        "1"
    } else if d == 2 {
        "2"
    } else if d == 3 {
        "3"
    } else if d == 4 {
        "4"
    } else if d == 5 {
        "5"
    } else if d == 6 {
        "6"
    } else if d == 7 {
        "7"
    } else if d == 8 {
        "8"
    } else {
        "9"
    };
    proof {
        assert(r@ =~= seq![spec_digit(d as int)]);
    }
    r
}

/// Serialize one generated integer as its wire message, e.g. `{"integer":7}`.
pub fn encode_random_integer(v: u8) -> (s: String)
    ensures
        s@ == spec_random_integer_message(v),
{
    let mut s = String::from_str("{\"integer\":");
    if v >= 100 {
        s.append(digit_str(v / 100));
        s.append(digit_str((v / 10) % 10));
        s.append(digit_str(v % 10));
    } else if v >= 10 {
        s.append(digit_str(v / 10));
        s.append(digit_str(v % 10));
    } else {
        s.append(digit_str(v));
    }
    s.append("}");
    proof {
        assert(s@ =~= spec_random_integer_message(v));
    }
    s
}

/// Whether an inbound text payload is exactly the sentinel.
pub fn text_is_sentinel(text: &String) -> (r: bool)
    ensures
        r == (text@ == spec_sentinel()),
{
    let sentinel = String::from_str("Hello");
    text.eq(&sentinel)
}

/// The canned greeting as an owned payload.
pub fn greeting_text() -> (s: String)
    ensures
        s@ == spec_greeting(),
{
    String::from_str("Hello World! from Actix Web")
}

} // verus!
