//! Reduction of HTTP outcomes into the gateway's uniform result: a raw
//! success body, or a failure message that embeds either the status code
//! and response text or a transport-level description.

use vstd::prelude::*;
use vstd::string::StringExecFns;

verus! {

/// The single outcome of one gateway call: the raw response body on a 2xx
/// status, or a descriptive message for everything else.
#[derive(Clone, Debug, PartialEq, Eq)]
pub enum GatewayResult {
    Success(String),
    Failure(String),
}

/// The character for one decimal digit.
pub open spec fn digit_char(d: nat) -> char {
    if d == 0 {
        '0'
    } else if d == 1 {
        '1'
    } else if d == 2 {
        '2'
    } else if d == 3 {
        '3'
    } else if d == 4 {
        '4'
    } else if d == 5 {
        '5'
    } else if d == 6 {
        '6'
    } else if d == 7 {
        '7'
    } else if d == 8 {
        '8'
    } else {
        '9'
    }
}

/// The decimal representation of a number: no leading zeroes, except that
/// zero itself is the single character `0`.
pub open spec fn dec_rep(n: nat) -> Seq<char>
    decreases n,
{
    if n < 10 {
        seq![digit_char(n)]
    } else {
        dec_rep(n / 10) + seq![digit_char(n % 10)]
    }
}

/// A status in the 2xx range counts as success.
pub open spec fn is_success_status(status: int) -> bool {
    200 <= status < 300
}

/// The failure message for a response the server did answer:
/// `HTTP <status>: <body>`.
pub open spec fn http_failure_message(status: nat, body: Seq<char>) -> Seq<char> {
    "HTTP "@ + dec_rep(status) + ": "@ + body
}

/// The failure message when no response was received:
/// `Request failed: <cause>`.
pub open spec fn transport_failure_message(cause: Seq<char>) -> Seq<char> {
    "Request failed: "@ + cause
}

/// What `reduce_response` returns for a given status and body: the body
/// itself on a 2xx status, the formatted failure message otherwise.
pub open spec fn reduces(status: int, body: Seq<char>, r: GatewayResult) -> bool {
    if is_success_status(status) {
        r matches GatewayResult::Success(b) && b@ == body
    } else {
        r matches GatewayResult::Failure(m) && m@ == http_failure_message(status as nat, body)
    }
}

/// The one-character string for one decimal digit.
fn digit_str(d: u16) -> (r: &'static str)
    requires
        d < 10,
    ensures
        r@ == seq![digit_char(d as nat)],
{
    if d == 0 {
        proof {
            reveal_strlit("0");
            assert("0"@ =~= seq![digit_char(0)]);
        }
        "0"
    } else if d == 1 {
        proof {
            reveal_strlit("1");
            assert("1"@ =~= seq![digit_char(1)]);
        }
        "1"
    } else if d == 2 {
        proof {
            reveal_strlit("2");
            assert("2"@ =~= seq![digit_char(2)]);
        }
        "2"
    } else if d == 3 {
        proof {
            reveal_strlit("3");
            assert("3"@ =~= seq![digit_char(3)]);
        }
        "3"
    } else if d == 4 {
        proof {
            reveal_strlit("4");
            assert("4"@ =~= seq![digit_char(4)]);
        }
        "4"
    } else if d == 5 {
        proof {
            reveal_strlit("5");
            assert("5"@ =~= seq![digit_char(5)]);
        }
        "5"
    } else if d == 6 {
        proof {
            reveal_strlit("6");
            assert("6"@ =~= seq![digit_char(6)]);
        }
        "6"
    } else if d == 7 {
        proof {
            reveal_strlit("7");
            assert("7"@ =~= seq![digit_char(7)]);
        }
        "7"
    } else if d == 8 {
        proof {
            reveal_strlit("8");
            assert("8"@ =~= seq![digit_char(8)]);
        }
        "8"
    } else {
        proof {
            reveal_strlit("9");
            assert("9"@ =~= seq![digit_char(9)]);
        }
        "9"
    }
}

/// The decimal text of a status code (or any other small number).
pub fn u16_to_decimal(n: u16) -> (s: String)
    ensures
        s@ == dec_rep(n as nat),
    decreases n,
{
    if n < 10 {
        let mut s = String::new();
        s.append(digit_str(n));
        proof {
            assert(Seq::<char>::empty() + seq![digit_char(n as nat)] =~= seq![
                digit_char(n as nat),
            ]);
        }
        s
    } else {
        let mut s = u16_to_decimal(n / 10);
        s.append(digit_str(n % 10));
        s
    }
}

/// Reduce a received response to the gateway result: the raw body on a 2xx
/// status, `Failure("HTTP <status>: <body>")` on any other status.
pub fn reduce_response(status: u16, body: String) -> (r: GatewayResult)
    ensures
        reduces(status as int, body@, r),
{
    if 200 <= status && status < 300 {
        GatewayResult::Success(body)
    } else {
        let mut m = String::from_str("HTTP ");
        let code = u16_to_decimal(status);
        m.append(code.as_str());
        m.append(": ");
        m.append(body.as_str());
        GatewayResult::Failure(m)
    }
}

/// The result when the request never completed (connection, name
/// resolution, TLS or I/O failure before a response arrived):
/// `Failure("Request failed: <cause>")`.
pub fn transport_failure(cause: String) -> (r: GatewayResult)
    ensures
        r matches GatewayResult::Failure(m) && m@ == transport_failure_message(cause@),
{
    let mut m = String::from_str("Request failed: ");
    m.append(cause.as_str());
    GatewayResult::Failure(m)
}

/// Every transport-failure message begins with `Request failed:`,
/// whatever the cause text is.
pub proof fn law_transport_failure_prefixed(cause: Seq<char>)
    ensures
        transport_failure_message(cause).len() >= "Request failed:"@.len(),
        transport_failure_message(cause).subrange(0, "Request failed:"@.len() as int)
            == "Request failed:"@,
{
    reveal_strlit("Request failed: ");
    reveal_strlit("Request failed:");
    assert(transport_failure_message(cause).subrange(0, 15) =~= "Request failed:"@);
}

/// Reading the same resource twice is idempotent: two reductions of equal
/// responses under a success status yield equal success bodies.
pub proof fn law_get_idempotent(
    status: int,
    body1: Seq<char>,
    body2: Seq<char>,
    r1: GatewayResult,
    r2: GatewayResult,
)
    requires
        body1 == body2,
        is_success_status(status),
        reduces(status, body1, r1),
        reduces(status, body2, r2),
    ensures
        r1 matches GatewayResult::Success(b1) && r2 matches GatewayResult::Success(b2) && b1@
            == b2@,
{
}

} // verus!
