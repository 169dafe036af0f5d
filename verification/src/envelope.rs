//! The envelope that carries a relayed frame or a notice to the client, and
//! its JSON text.
//!
//! An envelope is written as one JSON object whose members stand in the
//! order `sequence`, `serviceUrl`, `data`, `notice`. All four are always
//! there: an absent `data` or `notice` is written as `null`.

use crate::decimal::{decimal_numeral, push_decimal_numeral};
use vstd::prelude::*;

verus! {

/// One message to the client.
#[derive(Debug, PartialEq, Eq)]
pub struct ClientEnvelope {
    /// The number of this message on its connection.
    pub sequence: u64,
    /// The address under which the bridge can be reached.
    pub service_url: String,
    /// The text of a relayed frame.
    pub data: Option<String>,
    /// A status or error message.
    pub notice: Option<String>,
}

/// What a [`ClientEnvelope`] holds.
pub struct EnvelopeView {
    pub sequence: u64,
    pub service_url: Seq<char>,
    pub data: Option<Seq<char>>,
    pub notice: Option<Seq<char>>,
}

/// The characters of an optional text.
pub open spec fn optional_text(value: Option<String>) -> Option<Seq<char>> {
    match value {
        Some(text) => Some(text@),
        None => None,
    }
}

impl View for ClientEnvelope {
    type V = EnvelopeView;

    open spec fn view(&self) -> EnvelopeView {
        EnvelopeView {
            sequence: self.sequence,
            service_url: self.service_url@,
            data: optional_text(self.data),
            notice: optional_text(self.notice),
        }
    }
}

impl Clone for ClientEnvelope {
    fn clone(&self) -> (copy: Self)
        ensures
            copy@ == self@,
    {
        let data = match &self.data {
            Some(text) => Some(text.clone()),
            None => None,
        };
        let notice = match &self.notice {
            Some(text) => Some(text.clone()),
            None => None,
        };
        ClientEnvelope { sequence: self.sequence, service_url: self.service_url.clone(), data, notice }
    }
}

/// The envelope could not be written as JSON.
#[derive(Clone, Copy, Debug, PartialEq, Eq, Structural)]
pub struct EncodeError;

/// What `serde_json` makes of `text` as a JSON string literal, quotes
/// included; `None` where it refuses the text.
pub uninterp spec fn json_string(text: Seq<char>) -> Option<Seq<char>>;

/// The outside type of a failed `serde_json::to_string`.
#[verifier::external_type_specification]
#[verifier::external_body]
pub struct ExJsonError(serde_json::Error);

/// Calls `serde_json::to_string` on a string slice. Whether it succeeds and
/// what it then returns depend on the characters of the slice alone: that
/// is the result named [`json_string`]. Nothing is claimed of which texts
/// it accepts.
#[verifier::external_body]
pub(crate) fn json_quote(text: &str) -> (quoted: Result<String, serde_json::Error>)
    ensures
        match quoted {
            Ok(literal) => json_string(text@) == Some(literal@),
            Err(_) => json_string(text@) is None,
        },
{
    serde_json::to_string(text)
}

/// A JSON value that is there, or `null`.
pub open spec fn json_or_null(value: Option<Seq<char>>) -> Seq<char> {
    match value {
        Some(json) => json,
        None => "null"@,
    }
}

/// The JSON object of an envelope, given the JSON values of its three texts.
pub open spec fn envelope_layout(
    sequence: u64,
    service_url: Seq<char>,
    data: Option<Seq<char>>,
    notice: Option<Seq<char>>,
) -> Seq<char> {
    "{\"sequence\":"@ + decimal_numeral(sequence as nat) + ",\"serviceUrl\":"@ + service_url
        + ",\"data\":"@ + json_or_null(data) + ",\"notice\":"@ + json_or_null(notice) + "}"@
}

/// Whether an optional text can be written as JSON: it is absent, or
/// `serde_json` accepts it.
pub open spec fn json_accepts(value: Option<Seq<char>>) -> bool {
    match value {
        Some(text) => json_string(text) is Some,
        None => true,
    }
}

/// The JSON string literal of a text that is there and accepted.
pub open spec fn optional_json_string(value: Option<Seq<char>>) -> Option<Seq<char>> {
    match value {
        Some(text) => json_string(text),
        None => None,
    }
}

/// The JSON text of an envelope: its layout over the string literals of its
/// three texts, or `None` where `serde_json` refuses one of them.
pub open spec fn envelope_json(envelope: EnvelopeView) -> Option<Seq<char>> {
    if json_string(envelope.service_url) is Some && json_accepts(envelope.data) && json_accepts(
        envelope.notice,
    ) {
        Some(
            envelope_layout(
                envelope.sequence,
                json_string(envelope.service_url)->Some_0,
                optional_json_string(envelope.data),
                optional_json_string(envelope.notice),
            ),
        )
    } else {
        None
    }
}

/// The JSON value of an optional text that was written.
pub open spec fn written_text(quoted: Option<Result<String, serde_json::Error>>) -> Option<
    Seq<char>,
> {
    match quoted {
        Some(Ok(literal)) => Some(literal@),
        _ => None,
    }
}

/// Puts the JSON object of an envelope together from what became of its
/// three texts when they were written as JSON. If one of them could not be
/// written, neither can the envelope.
pub fn assemble_envelope(
    sequence: u64,
    service_url: Result<String, serde_json::Error>,
    data: Option<Result<String, serde_json::Error>>,
    notice: Option<Result<String, serde_json::Error>>,
) -> (assembled: Result<String, EncodeError>)
    ensures
        assembled is Ok <==> service_url is Ok && was_written(data) && was_written(notice),
        assembled matches Ok(text) ==> text@ == envelope_layout(
            sequence,
            service_url->Ok_0@,
            written_text(data),
            written_text(notice),
        ),
{
    let service_url = match service_url {
        Ok(literal) => literal,
        Err(_) => {
            return Err(EncodeError);
        },
    };
    let data = match data {
        None => None,
        Some(Ok(literal)) => Some(literal),
        Some(Err(_)) => {
            return Err(EncodeError);
        },
    };
    let notice = match notice {
        None => None,
        Some(Ok(literal)) => Some(literal),
        Some(Err(_)) => {
            return Err(EncodeError);
        },
    };
    let mut text = String::new();
    text.append("{\"sequence\":");
    push_decimal_numeral(&mut text, sequence);
    text.append(",\"serviceUrl\":");
    text.append(service_url.as_str());
    text.append(",\"data\":");
    match &data {
        Some(json) => text.append(json.as_str()),
        None => text.append("null"),
    }
    text.append(",\"notice\":");
    match &notice {
        Some(json) => text.append(json.as_str()),
        None => text.append("null"),
    }
    text.append("}");
    Ok(text)
}

/// Writes an envelope as JSON. It succeeds exactly when `serde_json` accepts
/// the address and those of the other two texts that are there. The text is
/// then the layout of the envelope over the string literals that
/// `serde_json` made of them.
pub fn encode_envelope(envelope: &ClientEnvelope) -> (encoded: Result<String, EncodeError>)
    ensures
        match encoded {
            Ok(text) => envelope_json(envelope@) == Some(text@),
            Err(_) => envelope_json(envelope@) is None,
        },
{
    assemble_envelope(
        envelope.sequence,
        json_quote(envelope.service_url.as_str()),
        quote_optional(&envelope.data),
        quote_optional(&envelope.notice),
    )
}

/// Whether writing an optional text as JSON did not fail: the text was
/// absent, or it was written.
pub open spec fn was_written(quoted: Option<Result<String, serde_json::Error>>) -> bool {
    match quoted {
        Some(literal) => literal is Ok,
        None => true,
    }
}

/// Writes an optional text as a JSON string literal.
fn quote_optional(value: &Option<String>) -> (quoted: Option<Result<String, serde_json::Error>>)
    ensures
        quoted is Some <==> value is Some,
        was_written(quoted) <==> json_accepts(optional_text(*value)),
        was_written(quoted) ==> written_text(quoted) == optional_json_string(
            optional_text(*value),
        ),
{
    match value {
        Some(text) => Some(json_quote(text.as_str())),
        None => None,
    }
}

} // verus!
