use vstd::prelude::*;
use vstd::string::*;

verus! {

/// The lower-case hexadecimal digit of `n`, for `n` from 0 to 15.
pub open spec fn hex_digit(n: int) -> char {
    if n < 10 {
        crate::utils::text::digit_char(n)
    } else if n == 10 {
        'a'
    } else if n == 11 {
        'b'
    } else if n == 12 {
        'c'
    } else if n == 13 {
        'd'
    } else if n == 14 {
        'e'
    } else {
        'f'
    }
}

/// How one character stands inside a JSON string: the quote and the backslash behind a
/// backslash, the five control characters that have a short escape under their letter,
/// every other character below the space as `\u00` and two hexadecimal digits, and any
/// other character as itself.
pub open spec fn escaped_char(c: char) -> Seq<char> {
    if c == '"' {
        seq!['\\', '"']
    } else if c == '\\' {
        seq!['\\', '\\']
    } else if c == '\u{8}' {
        seq!['\\', 'b']
    } else if c == '\t' {
        seq!['\\', 't']
    } else if c == '\n' {
        seq!['\\', 'n']
    } else if c == '\u{c}' {
        seq!['\\', 'f']
    } else if c == '\r' {
        seq!['\\', 'r']
    } else if (c as u32) < 0x20 {
        seq!['\\', 'u', '0', '0', hex_digit((c as u32) as int / 16), hex_digit((c as u32) as int % 16)]
    } else {
        seq![c]
    }
}

/// The characters of `s`, each as it stands inside a JSON string.
pub open spec fn escaped(s: Seq<char>) -> Seq<char>
    decreases s.len(),
{
    if s.len() == 0 {
        Seq::empty()
    } else {
        escaped(s.drop_last()) + escaped_char(s.last())
    }
}

/// The JSON string that holds `s`: its escaped characters between double quotes.
pub open spec fn quoted(s: Seq<char>) -> Seq<char> {
    seq!['"'] + escaped(s) + seq!['"']
}

/// The JSON text of an optional string: `null` where there is none.
pub open spec fn quoted_or_null(s: Option<Seq<char>>) -> Seq<char> {
    match s {
        Some(t) => quoted(t),
        None => "null"@,
    }
}

/// The JSON string that holds `s`, as `serde_json` writes it. The call is the `Display`
/// impl of `serde_json::Value`, on a `Value::String`. In its compact form that impl writes
/// a string through `format_escaped_str`: a quote, the characters with those listed in
/// `serde_json`'s `ESCAPE` table replaced by their escapes, and a quote.
#[verifier::external_body]
pub(crate) fn quote(s: &str) -> (r: String)
    ensures
        r@ == quoted(s@),
{
    serde_json::Value::String(s.to_owned()).to_string()
}

/// How far the reading of a number has come.
#[derive(Clone, Copy, Debug, PartialEq, Eq, Structural)]
pub enum NumberState {
    /// Nothing is read yet.
    Start,
    /// The minus sign is read.
    Sign,
    /// The whole part is read, and it is `0`.
    Zero,
    /// One digit or more of a whole part that does not start with `0` are read.
    Whole,
    /// The point behind the whole part is read.
    Point,
    /// One digit or more behind the point are read.
    Fraction,
    /// The `e` or `E` of the exponent is read.
    Mark,
    /// The sign of the exponent is read.
    ExponentSign,
    /// One digit or more of the exponent are read.
    Exponent,
    /// What is read is the start of no number.
    Wrong,
}

/// Whether `c` is one of the digits `0` to `9`.
pub open spec fn is_digit(c: char) -> bool {
    '0' <= c <= '9'
}

/// Whether `c` is the letter that starts an exponent.
pub open spec fn is_exponent_mark(c: char) -> bool {
    c == 'e' || c == 'E'
}

/// Where the reading stands after `c`, when it stood at `state` before.
pub open spec fn number_step(state: NumberState, c: char) -> NumberState {
    match state {
        NumberState::Start => if c == '-' {
            NumberState::Sign
        } else if c == '0' {
            NumberState::Zero
        } else if is_digit(c) {
            NumberState::Whole
        } else {
            NumberState::Wrong
        },
        NumberState::Sign => if c == '0' {
            NumberState::Zero
        } else if is_digit(c) {
            NumberState::Whole
        } else {
            NumberState::Wrong
        },
        NumberState::Zero => if c == '.' {
            NumberState::Point
        } else if is_exponent_mark(c) {
            NumberState::Mark
        } else {
            NumberState::Wrong
        },
        NumberState::Whole => if is_digit(c) {
            NumberState::Whole
        } else if c == '.' {
            NumberState::Point
        } else if is_exponent_mark(c) {
            NumberState::Mark
        } else {
            NumberState::Wrong
        },
        NumberState::Point => if is_digit(c) {
            NumberState::Fraction
        } else {
            NumberState::Wrong
        },
        NumberState::Fraction => if is_digit(c) {
            NumberState::Fraction
        } else if is_exponent_mark(c) {
            NumberState::Mark
        } else {
            NumberState::Wrong
        },
        NumberState::Mark => if c == '+' || c == '-' {
            NumberState::ExponentSign
        } else if is_digit(c) {
            NumberState::Exponent
        } else {
            NumberState::Wrong
        },
        NumberState::ExponentSign => if is_digit(c) {
            NumberState::Exponent
        } else {
            NumberState::Wrong
        },
        NumberState::Exponent => if is_digit(c) {
            NumberState::Exponent
        } else {
            NumberState::Wrong
        },
        NumberState::Wrong => NumberState::Wrong,
    }
}

/// Where the reading stands after all of `s`.
pub open spec fn number_state(s: Seq<char>) -> NumberState
    decreases s.len(),
{
    if s.len() == 0 {
        NumberState::Start
    } else {
        number_step(number_state(s.drop_last()), s.last())
    }
}

/// Whether the reading may end at `state` with a whole number read.
pub open spec fn is_complete(state: NumberState) -> bool {
    state == NumberState::Zero || state == NumberState::Whole || state == NumberState::Fraction
        || state == NumberState::Exponent
}

/// Whether `s` is a number in the notation of JSON: an optional minus sign; a whole part,
/// which is `0` or digits that do not start with `0`; optionally a point and one digit or
/// more; optionally `e` or `E`, an optional sign and one digit or more; and nothing else.
pub open spec fn is_number(s: Seq<char>) -> bool {
    is_complete(number_state(s))
}

fn step(state: NumberState, c: char) -> (r: NumberState)
    ensures
        r == number_step(state, c),
{
    let digit = '0' <= c && c <= '9';
    let mark = c == 'e' || c == 'E';
    match state {
        NumberState::Start => if c == '-' {
            NumberState::Sign
        } else if c == '0' {
            NumberState::Zero
        } else if digit {
            NumberState::Whole
        } else {
            NumberState::Wrong
        },
        NumberState::Sign => if c == '0' {
            NumberState::Zero
        } else if digit {
            NumberState::Whole
        } else {
            NumberState::Wrong
        },
        NumberState::Zero => if c == '.' {
            NumberState::Point
        } else if mark {
            NumberState::Mark
        } else {
            NumberState::Wrong
        },
        NumberState::Whole => if digit {
            NumberState::Whole
        } else if c == '.' {
            NumberState::Point
        } else if mark {
            NumberState::Mark
        } else {
            NumberState::Wrong
        },
        NumberState::Point => if digit {
            NumberState::Fraction
        } else {
            NumberState::Wrong
        },
        NumberState::Fraction => if digit {
            NumberState::Fraction
        } else if mark {
            NumberState::Mark
        } else {
            NumberState::Wrong
        },
        NumberState::Mark => if c == '+' || c == '-' {
            NumberState::ExponentSign
        } else if digit {
            NumberState::Exponent
        } else {
            NumberState::Wrong
        },
        NumberState::ExponentSign => if digit {
            NumberState::Exponent
        } else {
            NumberState::Wrong
        },
        NumberState::Exponent => if digit {
            NumberState::Exponent
        } else {
            NumberState::Wrong
        },
        NumberState::Wrong => NumberState::Wrong,
    }
}

/// Tells whether `text` is a number in the notation of JSON.
pub fn is_number_text(text: &str) -> (r: bool)
    ensures
        r == is_number(text@),
{
    let length = text.unicode_len();
    let mut state = NumberState::Start;
    let mut i: usize = 0;
    while i < length
        invariant
            length == text@.len(),
            i <= length,
            state == number_state(text@.take(i as int)),
        decreases length - i,
    {
        assert(text@.take(i + 1).drop_last() =~= text@.take(i as int));
        state = step(state, text.get_char(i));
        i = i + 1;
    }
    assert(text@.take(i as int) =~= text@);
    state == NumberState::Zero || state == NumberState::Whole || state == NumberState::Fraction
        || state == NumberState::Exponent
}

/// A number, held in the notation of JSON, digit for digit as it was written.
#[derive(Debug, PartialEq, Eq)]
pub struct JsonNumber {
    text: String,
}

impl View for JsonNumber {
    type V = Seq<char>;

    closed spec fn view(&self) -> Seq<char> {
        self.text@
    }
}

impl Clone for JsonNumber {
    fn clone(&self) -> (r: Self)
        ensures
            r == *self,
    {
        proof {
            use_type_invariant(self);
        }
        JsonNumber { text: self.text.clone() }
    }
}

impl JsonNumber {
    #[verifier::type_invariant]
    spec fn holds_a_number(self) -> bool {
        is_number(self.text@)
    }

    /// The number that `text` writes, where it writes one.
    pub fn parse(text: &str) -> (r: Option<JsonNumber>)
        ensures
            r.is_some() <==> is_number(text@),
            r matches Some(number) ==> number@ == text@,
    {
        if is_number_text(text) {
            Some(JsonNumber { text: text.to_owned() })
        } else {
            None
        }
    }

    /// The number as it is written.
    pub fn as_str(&self) -> (r: &str)
        ensures
            r@ == self@,
            is_number(r@),
    {
        proof {
            use_type_invariant(self);
        }
        self.text.as_str()
    }
}

} // verus!
