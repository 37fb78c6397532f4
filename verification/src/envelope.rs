//! The uniform success/error wire wrapper, and the exact text it carries.
//!
//! Every response body a business endpoint produces is one envelope:
//! either `{"Ok":<payload>}` or `{"Err":"<kind>"}`.  The two shapes are
//! provably distinct, so a reader of the wire always sees exactly one of
//! the two tags.

use vstd::prelude::*;
use vstd::string::*;

use crate::errors::ErrorKind;
use crate::errors::error_kind_label;
use crate::errors::spec_error_kind_label;

verus! {

/// What a finished request carries to the wire: exactly one of a success
/// payload (already rendered as JSON text) or an error kind.
pub enum Envelope {
    Success(String),
    Failure(ErrorKind),
}

/// The exact text of an error envelope.
pub open spec fn spec_err_envelope(k: ErrorKind) -> Seq<char> {
    "{\"Err\":\""@ + spec_error_kind_label(k) + "\"}"@
}

/// The exact text of a success envelope around a rendered payload.
pub open spec fn spec_ok_envelope(payload: Seq<char>) -> Seq<char> {
    "{\"Ok\":"@ + payload + "}"@
}

/// The exact text of an envelope.
pub open spec fn spec_envelope_text(e: Envelope) -> Seq<char> {
    match e {
        Envelope::Success(p) => spec_ok_envelope(p@),
        Envelope::Failure(k) => spec_err_envelope(k),
    }
}

pub fn encode_err_envelope(k: &ErrorKind) -> (r: String)
    ensures
        r@ == spec_err_envelope(*k),
{
    let mut s = "{\"Err\":\"".to_owned();
    s.append(error_kind_label(k).as_str());
    s.append("\"}");
    s
}

pub fn encode_ok_envelope(payload: &str) -> (r: String)
    ensures
        r@ == spec_ok_envelope(payload@),
{
    let mut s = "{\"Ok\":".to_owned();
    s.append(payload);
    s.append("}");
    s
}

pub fn encode_envelope(e: &Envelope) -> (r: String)
    ensures
        r@ == spec_envelope_text(*e),
{
    match e {
        Envelope::Success(p) => encode_ok_envelope(p.as_str()),
        Envelope::Failure(k) => encode_err_envelope(k),
    }
}

/// The character of one decimal digit.
pub open spec fn spec_digit_char(d: int) -> char {
    if d == 0 {
        '0'
    } else if d == 1 {
        '1'
    } else if d == 2 {
        '2'
    } else if d == 3 {
        '3'
    } else if d == 4 {
        '4'
    } else if d == 5 {
        '5'
    } else if d == 6 {
        '6'
    } else if d == 7 {
        '7'
    } else if d == 8 {
        '8'
    } else {
        '9'
    }
}

/// The decimal text of a non-negative number, without sign and without
/// leading zeros (except for zero itself).
pub open spec fn spec_dec_digits(n: int) -> Seq<char>
    decreases n,
{
    if n < 10 {
        seq![spec_digit_char(n)]
    } else {
        spec_dec_digits(n / 10) + seq![spec_digit_char(n % 10)]
    }
}

/// The decimal text of a signed number: a minus sign before the digits of
/// the magnitude when the number is negative.
pub open spec fn spec_dec_i64(n: int) -> Seq<char> {
    if n < 0 {
        seq!['-'] + spec_dec_digits(-n)
    } else {
        spec_dec_digits(n)
    }
}

fn digit_str(d: u64) -> (r: &'static str)
    requires
        d < 10,
    ensures
        r@ =~= seq![spec_digit_char(d as int)],
{
    proof {
        reveal_strlit("0");
        reveal_strlit("1");
        reveal_strlit("2");
        reveal_strlit("3");
        reveal_strlit("4");
        reveal_strlit("5");
        reveal_strlit("6");
        reveal_strlit("7");
        reveal_strlit("8");
        reveal_strlit("9");
    }
    if d == 0 {
        "0"
    } else if d == 1 {
        "1"
    } else if d == 2 {
        "2"
    } else if d == 3 {
        "3"
    } else if d == 4 {
        "4"
    } else if d == 5 {
        "5"
    } else if d == 6 {
        "6"
    } else if d == 7 {
        "7"
    } else if d == 8 {
        "8"
    } else {
        "9"
    }
}

pub fn u64_to_dec(n: u64) -> (r: String)
    ensures
        r@ == spec_dec_digits(n as int),
    decreases n,
{
    if n < 10 {
        digit_str(n).to_owned()
    } else {
        let mut s = u64_to_dec(n / 10);
        s.append(digit_str(n % 10));
        s
    }
}

pub fn i64_to_dec(n: i64) -> (r: String)
    ensures
        r@ == spec_dec_i64(n as int),
{
    if n < 0 {
        let wide: i128 = n as i128;
        let mag: u64 = (-wide) as u64;
        let mut s = "-".to_owned();
        s.append(u64_to_dec(mag).as_str());
        proof {
            reveal_strlit("-");
            assert(s@ =~= spec_dec_i64(n as int));
        }
        s
    } else {
        u64_to_dec(n as u64)
    }
}

/// The two wire shapes never coincide: whatever the payload and whatever
/// the kind, a success envelope and an error envelope are distinct texts,
/// so a response is always exactly one of the two.
pub proof fn lemma_envelope_unambiguous(payload: Seq<char>, k: ErrorKind)
    ensures
        spec_ok_envelope(payload) != spec_err_envelope(k),
{
    reveal_strlit("{\"Ok\":");
    reveal_strlit("{\"Err\":\"");
    assert(spec_ok_envelope(payload)[2] == 'O');
    assert(spec_err_envelope(k)[2] == 'E');
}

/// An error envelope pins its kind: two kinds that render to the same
/// text are the same kind, so the kind a client reads back is exactly the
/// kind that was sent.
pub proof fn lemma_err_envelope_injective(k1: ErrorKind, k2: ErrorKind)
    ensures
        spec_err_envelope(k1) == spec_err_envelope(k2) ==> k1 == k2,
{
    reveal_strlit("NotFound");
    reveal_strlit("DecodeError");
    reveal_strlit("MethodNotAllowed");
    reveal_strlit("ApiKeyUnauthorized");
    reveal_strlit("ApiKeyNonexistent");
    reveal_strlit("AuthInternalServerError");
    reveal_strlit("AuthBadRequest");
    reveal_strlit("AuthOther");
    reveal_strlit("InternalServerError");
    reveal_strlit("Unknown");
    if spec_err_envelope(k1) == spec_err_envelope(k2) {
        assert(spec_err_envelope(k1).len() == spec_err_envelope(k2).len());
        assert(spec_error_kind_label(k1).len() == spec_error_kind_label(k2).len());
        assert(k1 == k2);
    }
}

} // verus!
