//! The minimal, body-less responses the server sends.
use vstd::prelude::*;

verus! {

/// The outcomes a connection can end with.
#[derive(Clone, Copy, Debug, PartialEq, Eq, Structural)]
pub enum Status {
    Success,
    NoContent,
    BadRequest,
    InternalServerError,
}

pub open spec fn status_code(s: Status) -> u16 {
    match s {
        Status::Success => 200,
        Status::NoContent => 204,
        Status::BadRequest => 400,
        Status::InternalServerError => 500,
    }
}

impl Status {
    /// The numeric HTTP status code.
    pub fn code(&self) -> (r: u16)
        ensures
            r == status_code(*self),
    {
        match self {
            Status::Success => 200,
            Status::NoContent => 204,
            Status::BadRequest => 400,
            Status::InternalServerError => 500,
        }
    }
}

/// The reason phrase of each status code the server sends.
pub open spec fn reason_phrase(code: u16) -> Option<Seq<char>> {
    if code == 200 {
        Some("OK"@)
    } else if code == 204 {
        Some("No Content"@)
    } else if code == 400 {
        Some("Bad Request"@)
    } else if code == 500 {
        Some("Internal Server Error"@)
    } else {
        None
    }
}

pub open spec fn digit_char(d: nat) -> char {
    seq!['0', '1', '2', '3', '4', '5', '6', '7', '8', '9'][d as int]
}

/// The decimal numeral of `n`, without leading zeros.
pub open spec fn decimal_text(n: nat) -> Seq<char>
    decreases n,
{
    if n < 10 {
        seq![digit_char(n)]
    } else {
        decimal_text(n / 10).push(digit_char(n % 10))
    }
}

/// What follows the status line: headers announcing an empty body, then the
/// blank line that ends the head.
pub open spec fn framing_headers() -> Seq<char> {
    "\r\nServer: mayo\r\nVary: Accept-Language\r\nContent-Type: text/html; charset=UTF-8\r\nContent-Length: 0\r\nCache-Control: no-store, no-cache, must-revalidate\r\nPragma: no-cache\r\n\r\n"@
}

/// The whole response for a status code and its reason phrase.
pub open spec fn response_of(code: u16, reason: Seq<char>) -> Seq<char> {
    "HTTP/1.1 "@ + decimal_text(code as nat) + " "@ + reason + framing_headers()
}

/// Relies on assoc's `AssocExt::get` on a vector of pairs: the value of the
/// first pair whose key equals `key`, or `None` when no key does.
#[verifier::external_body]
fn lookup(table: &Vec<(u16, &'static str)>, key: u16) -> (r: Option<&'static str>)
    ensures
        match r {
            Some(v) => exists|i: int|
                0 <= i < table@.len() && #[trigger] table@[i].0 == key && table@[i].1 == v
                    && forall|j: int| 0 <= j < i ==> table@[j].0 != key,
            None => forall|i: int| 0 <= i < table@.len() ==> #[trigger] table@[i].0 != key,
        },
{
    assoc::AssocExt::get(table, &key).copied()
}

fn digit_text(d: u16) -> (r: &'static str)
    requires
        d < 10,
    ensures
        r@ == seq![digit_char(d as nat)],
{
    proof {
        reveal_strlit("0");
        reveal_strlit("1");
        reveal_strlit("2");
        reveal_strlit("3");
        reveal_strlit("4");
        reveal_strlit("5");
        reveal_strlit("6");
        reveal_strlit("7");
        reveal_strlit("8");
        reveal_strlit("9");
    }
    if d == 0 {
        "0"
    } else if d == 1 {
        "1"
    } else if d == 2 {
        "2"
    } else if d == 3 {
        "3"
    } else if d == 4 {
        "4"
    } else if d == 5 {
        "5"
    } else if d == 6 {
        "6"
    } else if d == 7 {
        "7"
    } else if d == 8 {
        "8"
    } else {
        "9"
    }
}

fn append_decimal(s: &mut String, n: u16)
    ensures
        final(s)@ == old(s)@ + decimal_text(n as nat),
    decreases n,
{
    if n >= 10 {
        append_decimal(s, n / 10);
    }
    s.append(digit_text(n % 10));
    assert(final(s)@ =~= old(s)@ + decimal_text(n as nat));
}

/// The response text for `code`: `HTTP/1.1 <code> <reason>`, then the
/// framing headers (`Content-Length: 0` among them) and a blank line. `None`
/// for a code the server never sends.
pub fn response_text(code: u16) -> (r: Option<String>)
    ensures
        match r {
            Some(t) => reason_phrase(code) matches Some(rp) && t@ == response_of(code, rp),
            None => reason_phrase(code) is None,
        },
{
    let status_codes: Vec<(u16, &'static str)> = vec![
        (200, "OK"),
        (204, "No Content"),
        (400, "Bad Request"),
        (500, "Internal Server Error"),
    ];
    match lookup(&status_codes, code) {
        Some(reason) => {
            let mut text = String::from_str("HTTP/1.1 ");
            append_decimal(&mut text, code);
            text.append(" ");
            text.append(reason);
            text.append(
                "\r\nServer: mayo\r\nVary: Accept-Language\r\nContent-Type: text/html; charset=UTF-8\r\nContent-Length: 0\r\nCache-Control: no-store, no-cache, must-revalidate\r\nPragma: no-cache\r\n\r\n",
            );
            assert(text@ =~= response_of(code, reason@));
            Some(text)
        },
        None => {
            assert(status_codes@[0].0 != code);
            assert(status_codes@[1].0 != code);
            assert(status_codes@[2].0 != code);
            assert(status_codes@[3].0 != code);
            None
        },
    }
}

} // verus!
