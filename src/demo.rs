//! An example: a container for `i64` and text requests, and a service that
//! answers an `i64` request with a line naming the request's type and value.
use vstd::prelude::*;
use vstd::string::StringExecFns;

use crate::service::{AnyRequest, PinService, Request};

verus! {

/// The key of `i64` among the example's request types.
pub const I64_KEY: u64 = 1;

/// The key of `String` among the example's request types.
pub const TEXT_KEY: u64 = 2;

/// Holds one request of the example: an `i64` or a text.
pub enum DemoRequest {
    I64(i64),
    Text(String),
}

impl AnyRequest for DemoRequest {
    open spec fn type_key(&self) -> u64 {
        match self {
            DemoRequest::I64(_) => I64_KEY,
            DemoRequest::Text(_) => TEXT_KEY,
        }
    }

    fn key(&self) -> (k: u64) {
        match self {
            DemoRequest::I64(_) => I64_KEY,
            DemoRequest::Text(_) => TEXT_KEY,
        }
    }
}

impl Request<DemoRequest> for i64 {
    open spec fn key_of() -> u64 {
        I64_KEY
    }

    open spec fn erased(self) -> DemoRequest {
        DemoRequest::I64(self)
    }

    open spec fn recovered(a: DemoRequest) -> i64 {
        match a {
            DemoRequest::I64(v) => v,
            DemoRequest::Text(_) => arbitrary(),
        }
    }

    fn type_key() -> (k: u64) {
        I64_KEY
    }

    fn erase(self) -> (a: DemoRequest) {
        DemoRequest::I64(self)
    }

    fn downcast(a: DemoRequest) -> (r: Option<i64>) {
        match a {
            DemoRequest::I64(v) => Some(v),
            DemoRequest::Text(_) => None,
        }
    }
}

impl Request<DemoRequest> for String {
    open spec fn key_of() -> u64 {
        TEXT_KEY
    }

    open spec fn erased(self) -> DemoRequest {
        DemoRequest::Text(self)
    }

    open spec fn recovered(a: DemoRequest) -> String {
        match a {
            DemoRequest::Text(s) => s,
            DemoRequest::I64(_) => arbitrary(),
        }
    }

    fn type_key() -> (k: u64) {
        TEXT_KEY
    }

    fn erase(self) -> (a: DemoRequest) {
        DemoRequest::Text(self)
    }

    fn downcast(a: DemoRequest) -> (r: Option<String>) {
        match a {
            DemoRequest::Text(s) => Some(s),
            DemoRequest::I64(_) => None,
        }
    }
}

/// The character of the decimal digit `d`.
pub open spec fn digit_char(d: nat) -> char
    recommends
        d < 10,
{
    seq!['0', '1', '2', '3', '4', '5', '6', '7', '8', '9'][d as int]
}

/// The decimal digits of `n`, most significant first, with no leading zero.
pub open spec fn decimal_digits(n: nat) -> Seq<char>
    decreases n,
{
    if n < 10 {
        seq![digit_char(n)]
    } else {
        decimal_digits(n / 10).push(digit_char(n % 10))
    }
}

/// The decimal text of `v`, with a leading '-' when it is negative.
pub open spec fn decimal_text(v: int) -> Seq<char> {
    if v < 0 {
        seq!['-'] + decimal_digits((-v) as nat)
    } else {
        decimal_digits(v as nat)
    }
}

/// Relies on std's `ToString::to_string` for `i64`, which writes the value
/// in decimal with a leading '-' when it is negative.
#[verifier::external_body]
fn i64_to_text(v: i64) -> (r: String)
    ensures
        r@ == decimal_text(v as int),
{
    v.to_string()
}

/// The text `Foo` answers `v` with.
pub open spec fn foo_text(v: int) -> Seq<char> {
    "got i64: "@ + decimal_text(v)
}

/// Answers every `i64` request with `got i64: ` and the value in decimal.
#[derive(Debug)]
pub struct Foo {}

impl PinService<i64> for Foo {
    type Response = String;

    open spec fn answers(&self, req: i64, resp: Seq<char>) -> bool {
        resp == foo_text(req as int)
    }

    fn call(&mut self, req: i64) -> (r: String) {
        proof {
            reveal_strlit("got i64: ");
        }
        let mut s = String::from_str("got i64: ");
        let digits = i64_to_text(req);
        s.append(digits.as_str());
        s
    }
}

} // verus!
