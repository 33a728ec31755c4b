use vstd::prelude::*;

verus! {

/// The error for a numeral that is not a valid HTTP status code.
#[derive(Clone, Copy, Debug, PartialEq, Eq, Structural)]
pub struct InvalidStatusCode {
    /// The numeral that was refused.
    pub code: u16,
}

/// An HTTP status code: a number from 100 to 999.
#[derive(Clone, Copy, Debug, PartialEq, Eq, Structural)]
pub struct StatusCode {
    code: u16,
}

/// Whether `n` is a valid HTTP status code.
pub open spec fn valid_status(n: int) -> bool {
    100 <= n < 1000
}

/// Relies on http::StatusCode::from_u16: it accepts exactly the numerals
/// from 100 to 999.
#[verifier::external_body]
fn http_accepts(code: u16) -> (r: bool)
    ensures
        r == valid_status(code as int),
{
    http::StatusCode::from_u16(code).is_ok()
}

/// The reason phrase that `http::StatusCode::canonical_reason` gives a code,
/// if it knows one.
pub uninterp spec fn reason_phrase(code: u16) -> Option<Seq<char>>;

/// Relies on http::StatusCode::canonical_reason.
#[verifier::external_body]
fn http_reason(code: u16) -> (r: Option<String>)
    requires
        valid_status(code as int),
    ensures
        r is Some <==> reason_phrase(code) is Some,
        r matches Some(s) ==> reason_phrase(code) == Some(s@),
{
    match http::StatusCode::from_u16(code) {
        Ok(s) => s.canonical_reason().map(String::from),
        Err(_) => None,
    }
}

/// The text that stands for a code without a known reason phrase.
pub const UNKNOWN_STATUS_TEXT: &'static str = "<unknown status code>";

/// The decimal digit for `d`, which is below ten.
pub open spec fn digit_char(d: int) -> char {
    if d == 0 {
        '0'
    } else if d == 1 {
        '1'
    } else if d == 2 {
        '2'
    } else if d == 3 {
        '3'
    } else if d == 4 {
        '4'
    } else if d == 5 {
        '5'
    } else if d == 6 {
        '6'
    } else if d == 7 {
        '7'
    } else if d == 8 {
        '8'
    } else {
        '9'
    }
}

/// The three decimal digits of a status code.
pub open spec fn status_digits(c: u16) -> Seq<char> {
    seq![digit_char(c as int / 100), digit_char((c as int / 10) % 10), digit_char(c as int % 10)]
}

/// The reason phrase of a code, or the placeholder where none is known.
pub open spec fn reason_or_unknown(c: u16) -> Seq<char> {
    match reason_phrase(c) {
        Some(r) => r,
        None => UNKNOWN_STATUS_TEXT@,
    }
}

/// A status code as text: its digits, a space and its reason phrase.
pub open spec fn status_display(c: u16) -> Seq<char> {
    status_digits(c) + " "@ + reason_or_unknown(c)
}

fn digit_str(d: u16) -> (r: &'static str)
    requires
        d < 10,
    ensures
        r@ == seq![digit_char(d as int)],
{
    proof {
        reveal_strlit("0");
        reveal_strlit("1");
        reveal_strlit("2");
        reveal_strlit("3");
        reveal_strlit("4");
        reveal_strlit("5");
        reveal_strlit("6");
        reveal_strlit("7");
        reveal_strlit("8");
        reveal_strlit("9");
    }
    let r = if d == 0 {
        "0"
    } else if d == 1 {
        "1"
    } else if d == 2 {
        "2"
    } else if d == 3 {
        "3"
    } else if d == 4 {
        "4"
    } else if d == 5 {
        "5"
    } else if d == 6 {
        "6"
    } else if d == 7 {
        "7"
    } else if d == 8 {
        "8"
    } else {
        "9"
    };
    assert(r@ =~= seq![digit_char(d as int)]);
    r
}

impl View for StatusCode {
    type V = u16;

    closed spec fn view(&self) -> u16 {
        self.code
    }
}

impl StatusCode {
    #[verifier::type_invariant]
    pub(crate) open spec fn inv(self) -> bool {
        valid_status(self@ as int)
    }

    /// The status code for `code`, or `InvalidStatusCode` when `code` is
    /// below 100 or above 999.
    pub fn from_u16(code: u16) -> (r: Result<StatusCode, InvalidStatusCode>)
        ensures
            r is Ok <==> valid_status(code as int),
            r matches Ok(s) ==> s@ == code,
            r matches Err(e) ==> e.code == code,
    {
        if http_accepts(code) {
            Ok(StatusCode { code })
        } else {
            Err(InvalidStatusCode { code })
        }
    }

    /// The numeric value.
    pub fn as_u16(&self) -> (r: u16)
        ensures
            r == self@,
            valid_status(r as int),
    {
        proof {
            use_type_invariant(self);
        }
        self.code
    }

    /// `500 Internal Server Error`.
    pub fn internal_server_error() -> (r: StatusCode)
        ensures
            r@ == 500,
    {
        StatusCode { code: 500 }
    }

    /// The canonical reason phrase, if one is known for this code.
    pub fn canonical_reason(&self) -> (r: Option<String>)
        ensures
            r is Some <==> reason_phrase(self@) is Some,
            r matches Some(s) ==> reason_phrase(self@) == Some(s@),
    {
        proof {
            use_type_invariant(self);
        }
        http_reason(self.code)
    }

    /// The canonical reason phrase, or `<unknown status code>`.
    pub fn reason_or_unknown(&self) -> (r: String)
        ensures
            r@ == reason_or_unknown(self@),
    {
        match self.canonical_reason() {
            Some(s) => s,
            None => String::from_str(UNKNOWN_STATUS_TEXT),
        }
    }

    /// The code in three decimal digits.
    pub fn digits(&self) -> (r: String)
        ensures
            r@ == status_digits(self@),
    {
        proof {
            use_type_invariant(self);
        }
        let c = self.code;
        let mut r = String::from_str(digit_str(c / 100));
        r.append(digit_str((c / 10) % 10));
        r.append(digit_str(c % 10));
        assert(r@ =~= status_digits(self@));
        r
    }

    /// The code followed by its reason phrase, as in `404 Not Found`.
    pub fn to_string(&self) -> (r: String)
        ensures
            r@ == status_display(self@),
    {
        let mut r = self.digits();
        r.append(" ");
        let reason = self.reason_or_unknown();
        r.append(reason.as_str());
        r
    }}

} // verus!
