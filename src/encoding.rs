//! Text encodings used in reply bodies: decimal numbers and the JSON error envelope.
use vstd::prelude::*;
use vstd::string::*;

verus! {

/// What serde_json writes for a string: the quoted and escaped JSON literal.
pub uninterp spec fn json_string_of(s: Seq<char>) -> Seq<char>;

/// Relies on `serde_json::to_string` applied to a `str`: it writes the JSON
/// string literal for `s` into an in-memory buffer, which cannot fail, so the
/// result is always `Ok` and opens and closes with a quote.
#[verifier::external_body]
fn json_quote(s: &str) -> (r: Option<String>)
    ensures
        r is Some,
        r->Some_0@ == json_string_of(s@),
        r->Some_0@.len() >= 2,
        r->Some_0@[0] == '"',
        r->Some_0@.last() == '"',
{
    serde_json::to_string(s).ok()
}

/// The decimal digit for `d < 10`.
pub open spec fn digit_char(d: nat) -> char {
    if d == 0 { '0' }
    else if d == 1 { '1' }
    else if d == 2 { '2' }
    else if d == 3 { '3' }
    else if d == 4 { '4' }
    else if d == 5 { '5' }
    else if d == 6 { '6' }
    else if d == 7 { '7' }
    else if d == 8 { '8' }
    else { '9' }
}

/// The decimal representation of `n`, most significant digit first, without
/// leading zeros.
pub open spec fn decimal(n: nat) -> Seq<char>
    decreases n,
{
    if n < 10 {
        seq![digit_char(n)]
    } else {
        decimal(n / 10).push(digit_char(n % 10))
    }
}

fn digit_text(d: u64) -> (r: &'static str)
    requires
        d < 10,
    ensures
        r@ == seq![digit_char(d as nat)],
{
    proof {
        reveal_strlit("0");
        reveal_strlit("1");
        reveal_strlit("2");
        reveal_strlit("3");
        reveal_strlit("4");
        reveal_strlit("5");
        reveal_strlit("6");
        reveal_strlit("7");
        reveal_strlit("8");
        reveal_strlit("9");
    }
    match d {
        0 => "0",
        1 => "1",
        2 => "2",
        3 => "3",
        4 => "4",
        5 => "5",
        6 => "6",
        7 => "7",
        8 => "8",
        _ => "9",
    }
}

/// Writes `n` in decimal, as `to_string` does for an unsigned integer.
pub fn to_decimal(n: u64) -> (r: String)
    ensures
        r@ == decimal(n as nat),
    decreases n,
{
    if n < 10 {
        String::from_str(digit_text(n))
    } else {
        let mut s = to_decimal(n / 10);
        s.append(digit_text(n % 10));
        s
    }
}

/// The error envelope `{"status":"<status>","reason":"<reason>"}`, each value
/// written as a JSON string.
pub open spec fn envelope(status: Seq<char>, reason: Seq<char>) -> Seq<char> {
    "{\"status\":"@ + json_string_of(status) + ",\"reason\":"@ + json_string_of(reason) + "}"@
}

/// Builds the error envelope for a status text and a reason.
pub fn envelope_body(status: &str, reason: &str) -> (r: String)
    ensures
        r@ == envelope(status@, reason@),
{
    let quoted_status = json_quote(status).unwrap();
    let quoted_reason = json_quote(reason).unwrap();
    let mut out = String::from_str("{\"status\":");
    out.append(quoted_status.as_str());
    out.append(",\"reason\":");
    out.append(quoted_reason.as_str());
    out.append("}");
    out
}

} // verus!
