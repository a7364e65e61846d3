//! The four-digit PIN that protects the key inside the QR code.
use vstd::prelude::*;

verus! {

/// An ASCII decimal digit, `'0'` to `'9'`.
pub open spec fn is_digit(c: char) -> bool {
    '0' as u32 <= c as u32 && c as u32 <= '9' as u32
}

/// The value of the ASCII decimal digit `c`.
pub open spec fn digit_value(c: char) -> u8 {
    (c as u32 - '0' as u32) as u8
}

/// A PIN is written as exactly four ASCII decimal digits.
pub open spec fn is_pin_text(s: Seq<char>) -> bool {
    &&& s.len() == 4
    &&& forall|i: int| 0 <= i < 4 ==> is_digit(#[trigger] s[i])
}

/// The PIN that the text `s` of four digits stands for, digits in order.
pub open spec fn pin_of(s: Seq<char>) -> QRPin {
    QRPin {
        password: (digit_value(s[0]), digit_value(s[1]), digit_value(s[2]), digit_value(s[3])),
    }
}

/// What parsing `s` gives: the PIN of `s` when it is four digits, else the error.
pub open spec fn parse_outcome(s: Seq<char>, r: Result<QRPin, BadPinError>) -> bool {
    match r {
        Ok(p) => is_pin_text(s) && p == pin_of(s),
        Err(_) => !is_pin_text(s),
    }
}

/// A four-digit PIN, each field the value of one digit, in the order written.
#[derive(Debug, PartialEq, Eq)]
pub struct QRPin {
    pub password: (u8, u8, u8, u8),
}

/// The PIN text was not four ASCII decimal digits.
#[derive(Debug, PartialEq, Eq, Structural)]
pub struct BadPinError {}

impl BadPinError {
    /// The message shown to the user.
    pub fn message(&self) -> (r: String)
        ensures
            r@ == "The PIN must consist of 4 digits."@,
    {
        String::from_str("The PIN must consist of 4 digits.")
    }
}

/// The digit value of `c`, or `None` where `c` is no ASCII decimal digit.
fn digit(c: char) -> (r: Option<u8>)
    ensures
        match r {
            Some(d) => is_digit(c) && d == digit_value(c) && d < 10,
            None => !is_digit(c),
        },
{
    let code: u32 = c as u32;
    if '0' as u32 <= code && code <= '9' as u32 {
        Some((code - '0' as u32) as u8)
    } else {
        None
    }
}

impl QRPin {
    /// Each field is a single decimal digit.
    pub open spec fn wf(&self) -> bool {
        &&& self.password.0 < 10
        &&& self.password.1 < 10
        &&& self.password.2 < 10
        &&& self.password.3 < 10
    }

    /// The digits in order, as handed to the QR payload.
    pub open spec fn digits(&self) -> Seq<u8> {
        seq![self.password.0, self.password.1, self.password.2, self.password.3]
    }

    /// Parses a PIN: exactly four characters, each an ASCII decimal digit,
    /// checked left to right; anything else is a `BadPinError`.
    pub fn from_str(s: &str) -> (r: Result<QRPin, BadPinError>)
        ensures
            parse_outcome(s@, r),
            is_pin_text(s@) ==> r == Ok::<QRPin, BadPinError>(pin_of(s@)),
            s@.len() != 4 ==> r is Err,
            (exists|i: int| 0 <= i < s@.len() && !is_digit(#[trigger] s@[i])) ==> r is Err,
            r matches Ok(p) ==> p.wf(),
    {
        let n = s.unicode_len();
        if n != 4 {
            return Err(BadPinError {});
        }
        let d0 = match digit(s.get_char(0)) {
            Some(d) => d,
            None => return Err(BadPinError {}),
        };
        let d1 = match digit(s.get_char(1)) {
            Some(d) => d,
            None => return Err(BadPinError {}),
        };
        let d2 = match digit(s.get_char(2)) {
            Some(d) => d,
            None => return Err(BadPinError {}),
        };
        let d3 = match digit(s.get_char(3)) {
            Some(d) => d,
            None => return Err(BadPinError {}),
        };
        Ok(QRPin { password: (d0, d1, d2, d3) })
    }

    /// The four digits in order, as the QR payload takes them.
    pub fn password_bytes(&self) -> (r: [u8; 4])
        ensures
            r@ == self.digits(),
    {
        [self.password.0, self.password.1, self.password.2, self.password.3]
    }
}

impl core::str::FromStr for QRPin {
    type Err = BadPinError;

    fn from_str(s: &str) -> Result<QRPin, BadPinError> {
        QRPin::from_str(s)
    }
}

/// The digits of a parsed PIN, each written back as the code of its ASCII
/// character, give the text it was parsed from.
pub proof fn lemma_digits_spell_text(s: Seq<char>)
    requires
        is_pin_text(s),
    ensures
        forall|i: int| 0 <= i < 4 ==> #[trigger] pin_of(s).digits()[i] as u32 + '0' as u32 == s[i] as u32,
{
    assert forall|i: int| 0 <= i < 4 implies #[trigger] pin_of(s).digits()[i] as u32 + '0' as u32 == s[i] as u32 by {
        assert(is_digit(s[i]));
    }
}

/// Parsing the same text twice gives equal results.
pub proof fn lemma_parse_deterministic(
    s: Seq<char>,
    a: Result<QRPin, BadPinError>,
    b: Result<QRPin, BadPinError>,
)
    requires
        parse_outcome(s, a),
        parse_outcome(s, b),
    ensures
        a == b,
{
    if let (Err(x), Err(y)) = (a, b) {
        let BadPinError {  } = x;
        let BadPinError {  } = y;
        assert(x == y);
    }
}

} // verus!
