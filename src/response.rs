//! The envelope around every response header: `{"Ok": value}` on success,
//! `{"Err": message}` on failure. A response that carries a command's output
//! has the value `null`; the output follows in the body.
use vstd::prelude::*;
use crate::error::Error;
use crate::json::{JsonValue, same_text, lemma_differ_at};

verus! {

/// The envelope of a successful response.
pub fn ok_envelope(value: JsonValue) -> (r: JsonValue)
    ensures
        r matches JsonValue::Object(f) && f@.len() == 1 && f@[0].0@ == "Ok"@ && f@[0].1 == value,
{
    JsonValue::single("Ok", value)
}

/// The envelope of a failed response, carrying the failure's message.
pub fn err_envelope(message: String) -> (r: JsonValue)
    ensures
        r matches JsonValue::Object(f) && f@.len() == 1 && f@[0].0@ == "Err"@ && f@[0].1
            == JsonValue::Str(message),
{
    JsonValue::single("Err", JsonValue::Str(message))
}

/// What an envelope holds: the value of `{"Ok": value}`, the message of
/// `{"Err": message}`, or `None` for anything else.
pub open spec fn envelope_of(j: JsonValue) -> Option<Result<JsonValue, Seq<char>>> {
    match j {
        JsonValue::Object(f) => if f@.len() == 1 && f@[0].0@ == "Ok"@ {
            Some(Ok(f@[0].1))
        } else if f@.len() == 1 && f@[0].0@ == "Err"@ {
            match f@[0].1 {
                JsonValue::Str(m) => Some(Err(m@)),
                _ => None,
            }
        } else {
            None
        },
        _ => None,
    }
}

/// Open a response envelope: its value on success; the remote error that
/// carries the agent's message; or an error when the header is no envelope.
pub fn open_envelope(j: JsonValue) -> (r: Result<JsonValue, Error>)
    ensures
        match envelope_of(j) {
            Some(Ok(v)) => r == Ok::<JsonValue, Error>(v),
            Some(Err(m)) => r matches Err(Error::Remote(e)) && e@ == m,
            None => r matches Err(Error::Msg(e)) && e@ == "Could not decode response from host"@,
        },
{
    let bad = Err(Error::Msg("Could not decode response from host".to_owned()));
    match j {
        JsonValue::Object(mut f) => {
            if f.len() != 1 {
                return bad;
            }
            let ghost g = f@;
            let (k, v) = match f.pop() {
                Some(e) => e,
                None => {
                    return bad;
                },
            };
            assert((k, v) == g[0]);
            if same_text(k.as_str(), "Ok") {
                Ok(v)
            } else if same_text(k.as_str(), "Err") {
                match v {
                    JsonValue::Str(m) => Err(Error::Remote(m)),
                    _ => bad,
                }
            } else {
                bad
            }
        },
        _ => bad,
    }
}

/// The answer of a yes-or-no response.
pub fn bool_from_json(j: &JsonValue) -> (r: Result<bool, Error>)
    ensures
        match j {
            JsonValue::Bool(b) => r == Ok::<bool, Error>(*b),
            _ => r matches Err(Error::Msg(e)) && e@ == "Non-boolean message received"@,
        },
{
    match j {
        JsonValue::Bool(b) => Ok(*b),
        _ => Err(Error::Msg("Non-boolean message received".to_owned())),
    }
}

/// Round trip of the envelope: a success envelope opens to its value, a
/// failure envelope to its message.
pub proof fn lemma_envelope_round_trip(j: JsonValue, v: JsonValue, m: String)
    ensures
        (j matches JsonValue::Object(f) && f@.len() == 1 && f@[0].0@ == "Ok"@ && f@[0].1 == v)
            ==> envelope_of(j) == Some(Ok::<JsonValue, Seq<char>>(v)),
        (j matches JsonValue::Object(f) && f@.len() == 1 && f@[0].0@ == "Err"@ && f@[0].1
            == JsonValue::Str(m)) ==> envelope_of(j) == Some(Err::<JsonValue, Seq<char>>(m@)),
{
    reveal_strlit("Ok");
    reveal_strlit("Err");
    lemma_differ_at("Err"@, "Ok"@, 0);
}

} // verus!
