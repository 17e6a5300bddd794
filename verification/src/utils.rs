//! Text helpers shared by the clients: comparing and building request text,
//! and picking the newest version out of the CDN's version list.
use vstd::prelude::*;
use vstd::string::StringExecFns;
use vstd::utf8::{encode_utf8, encode_utf8_decode_utf8};
use crate::error::ClientError;
use crate::fetch::{lossy_text, read_body};
use crate::types::TransportOutcome;

verus! {

/// Whether two strings hold the same text.
pub fn same_text(a: &str, b: &str) -> (r: bool)
    ensures
        r == (a@ == b@),
{
    let x = a.as_bytes();
    let y = b.as_bytes();
    if x.len() != y.len() {
        return false;
    }
    let mut i: usize = 0;
    while i < x.len()
        invariant
            x@.len() == y@.len(),
            i <= x@.len(),
            x@ == encode_utf8(a@),
            y@ == encode_utf8(b@),
            forall|j: int| 0 <= j < i ==> x@[j] == y@[j],
        decreases x@.len() - i,
    {
        if x[i] != y[i] {
            return false;
        }
        i += 1;
    }
    proof {
        assert(x@ =~= y@);
        encode_utf8_decode_utf8(a@);
        encode_utf8_decode_utf8(b@);
    }
    true
}

/// The decimal digit for a number below ten.
pub open spec fn digit_char(d: int) -> char {
    if d == 0 {
        '0'
    } else if d == 1 {
        '1'
    } else if d == 2 {
        '2'
    } else if d == 3 {
        '3'
    } else if d == 4 {
        '4'
    } else if d == 5 {
        '5'
    } else if d == 6 {
        '6'
    } else if d == 7 {
        '7'
    } else if d == 8 {
        '8'
    } else {
        '9'
    }
}

/// A natural number in decimal, without leading zeros.
pub open spec fn decimal_text(n: nat) -> Seq<char>
    decreases n,
{
    if n < 10 {
        seq![digit_char(n as int)]
    } else {
        decimal_text(n / 10).push(digit_char((n % 10) as int))
    }
}

/// An integer in decimal, with a minus sign before a negative one.
pub open spec fn signed_decimal_text(n: int) -> Seq<char> {
    if n < 0 {
        seq!['-'] + decimal_text((-n) as nat)
    } else {
        decimal_text(n as nat)
    }
}

fn digit_str(d: u64) -> (s: &'static str)
    requires
        d < 10,
    ensures
        s@ == seq![digit_char(d as int)],
{
    proof {
        reveal_strlit("0");
        reveal_strlit("1");
        reveal_strlit("2");
        reveal_strlit("3");
        reveal_strlit("4");
        reveal_strlit("5");
        reveal_strlit("6");
        reveal_strlit("7");
        reveal_strlit("8");
        reveal_strlit("9");
    }
    let s = match d {
        0 => "0",
        1 => "1",
        2 => "2",
        3 => "3",
        4 => "4",
        5 => "5",
        6 => "6",
        7 => "7",
        8 => "8",
        _ => "9",
    };
    assert(s@ =~= seq![digit_char(d as int)]);
    s
}

/// Appends `n` in decimal to `out`.
pub fn push_decimal(out: &mut String, n: u64)
    ensures
        final(out)@ == old(out)@ + decimal_text(n as nat),
    decreases n,
{
    if n >= 10 {
        push_decimal(out, n / 10);
    }
    out.append(digit_str(n % 10));
    assert(out@ =~= old(out)@ + decimal_text(n as nat));
}

/// Appends `n` in decimal to `out`, with a minus sign if it is negative.
pub fn push_signed_decimal(out: &mut String, n: i32)
    ensures
        final(out)@ == old(out)@ + signed_decimal_text(n as int),
{
    if n < 0 {
        proof {
            reveal_strlit("-");
        }
        out.append("-");
        let m: i64 = -(n as i64);
        push_decimal(out, m as u64);
        assert(out@ =~= old(out)@ + signed_decimal_text(n as int));
    } else {
        push_decimal(out, n as u64);
    }
}

/// What `serde_json::from_str` makes of a text when a list of strings is
/// asked for: the list, or nothing where the text is not the JSON of one.
pub uninterp spec fn json_string_list(text: Seq<char>) -> Option<Seq<Seq<char>>>;

/// The errors of `serde_json`.
#[verifier::external_type_specification]
#[verifier::external_body]
pub struct ExJsonError(serde_json::Error);

/// Parses a JSON list of strings with `serde_json::from_str`. The result is
/// a function of the text alone.
#[verifier::external_body]
fn parse_string_list(text: &str) -> (r: Result<Vec<String>, serde_json::Error>)
    ensures
        match r {
            Ok(list) => json_string_list(text@) == Some(list.deep_view()),
            Err(_) => json_string_list(text@) is None,
        },
{
    serde_json::from_str::<Vec<String>>(text)
}

/// The newest version in a version list: the CDN lists the newest first.
pub open spec fn newest(versions: Option<Seq<Seq<char>>>) -> Result<Seq<char>, ClientError> {
    match versions {
        Some(list) => if list.len() > 0 {
            Ok(list[0])
        } else {
            Err(ClientError::DeserializationError)
        },
        None => Err(ClientError::DeserializationError),
    }
}

/// The latest version that an answer to the version request names.
pub open spec fn latest_version(outcome: TransportOutcome) -> Result<Seq<char>, ClientError> {
    match outcome {
        TransportOutcome::Failed { fault } => Err(ClientError::TransportError { fault }),
        TransportOutcome::Response { status, body } => newest(json_string_list(lossy_text(body@))),
    }
}

/// Picks the newest version out of a parsed version list. A text that was
/// no list of strings, and an empty list, are a `DeserializationError`.
pub fn newest_version(parsed: Result<Vec<String>, serde_json::Error>) -> (r: Result<
    String,
    ClientError,
>)
    ensures
        match parsed {
            Ok(list) => match r {
                Ok(version) => list@.len() > 0 && version@ == list@[0]@,
                Err(e) => list@.len() == 0 && e == ClientError::DeserializationError,
            },
            Err(_) => r == Err::<String, ClientError>(ClientError::DeserializationError),
        },
{
    match parsed {
        Ok(list) => {
            if list.len() > 0 {
                Ok(list[0].clone())
            } else {
                Err(ClientError::DeserializationError)
            }
        },
        Err(_) => Err(ClientError::DeserializationError),
    }
}

/// Reads the latest DDragon version out of what the transport made of the
/// version request.
///
/// A transport failure is passed on. The status code is not looked at: the
/// body decides, and one that is not a non-empty JSON list of strings is a
/// `DeserializationError`.
pub fn get_latest_ddragon_version(outcome: TransportOutcome) -> (r: Result<String, ClientError>)
    ensures
        match r {
            Ok(version) => latest_version(outcome) == Ok::<Seq<char>, ClientError>(version@),
            Err(e) => latest_version(outcome) == Err::<Seq<char>, ClientError>(e),
        },
{
    match outcome {
        TransportOutcome::Failed { fault } => Err(ClientError::TransportError { fault }),
        TransportOutcome::Response { status, body } => {
            let text = read_body(body.as_slice());
            let parsed = parse_string_list(text.as_str());
            assert(parsed matches Ok(list) ==> list.deep_view().len() == list@.len() && (list@.len()
                > 0 ==> list.deep_view()[0] == list@[0]@));
            newest_version(parsed)
        },
    }
}

} // verus!
