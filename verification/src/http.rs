//! The texts of the service's HTTP answers, framed as the hand-rolled
//! HTTP layer sends them.

use vstd::prelude::*;
use vstd::string::*;

verus! {

/// The full text of an HTTP 200 answer carrying `msg`.
pub open spec fn http_ok_spec(msg: Seq<char>) -> Seq<char> {
    "HTTP/1.1 200 OK \r\n\r\n"@ + msg + "\r\n"@
}

/// The full text of an HTTP 400 answer carrying `msg`.
pub open spec fn http_bad_request_spec(msg: Seq<char>) -> Seq<char> {
    "HTTP/1.1 400 BAD REQUEST \r\n\r\n"@ + msg + "\r\n"@
}

/// Frames `msg` as a success answer.
pub fn http_ok(msg: &String) -> (r: String)
    ensures
        r@ == http_ok_spec(msg@),
{
    let mut r = String::from_str("HTTP/1.1 200 OK \r\n\r\n");
    r.append(msg.as_str());
    r.append("\r\n");
    r
}

/// Frames `msg` as a client-error answer.
pub fn http_bad_request(msg: &String) -> (r: String)
    ensures
        r@ == http_bad_request_spec(msg@),
{
    let mut r = String::from_str("HTTP/1.1 400 BAD REQUEST \r\n\r\n");
    r.append(msg.as_str());
    r.append("\r\n");
    r
}

/// The welcome answer of the service root.
pub fn hello() -> (r: String)
    ensures
        r@ == http_ok_spec("Welcome to KloverTech SmartGarden"@),
{
    let msg = String::from_str("Welcome to KloverTech SmartGarden");
    http_ok(&msg)
}

} // verus!
