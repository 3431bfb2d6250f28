//! The response relay.
//!
//! Takes what came back from the one outbound call — either a transport-level
//! failure description or a status code with a body — classifies it, and
//! produces the single answer string returned to the caller. Every outcome
//! maps to exactly one answer; nothing is retried and nothing escapes as an
//! error. Decoding the body is the one step done by an outside crate; its
//! result is named by `decoded_content_of` and everything around it is
//! verified against that name.

use vstd::prelude::*;
use crate::decimal::{dec_digits, fmt_u64};

verus! {

/// The placeholder answer used when a nominally successful upstream payload
/// has no extractable answer text.
pub open spec fn sentinel_chars() -> Seq<char> {
    "Could not extract answer from response"@
}

/// What the transport handed back from the one outbound call.
pub enum UpstreamOutcome {
    /// The call never produced a response: connection, name resolution,
    /// negotiation or timeout trouble, described by the transport.
    TransportError { description: String },
    /// The upstream answered with a status code and a (best-effort decoded)
    /// body.
    Response { status: u16, body: String },
}

/// The mathematical content of an [`UpstreamOutcome`].
pub enum OutcomeModel {
    TransportError { description: Seq<char> },
    Response { status: int, body: Seq<char> },
}

impl View for UpstreamOutcome {
    type V = OutcomeModel;

    open spec fn view(&self) -> OutcomeModel {
        match self {
            UpstreamOutcome::TransportError { description } => OutcomeModel::TransportError {
                description: description@,
            },
            UpstreamOutcome::Response { status, body } => OutcomeModel::Response {
                status: *status as int,
                body: body@,
            },
        }
    }
}

/// The classified outcome of one upstream call: exactly one of the four is
/// produced per request, and it is consumed once to build the answer.
pub enum UpstreamResult {
    /// A success status whose body decoded as structured data; holds the raw
    /// payload text.
    Success { payload: String },
    /// The upstream was never reached.
    TransportFailure { description: String },
    /// The upstream answered with a non-success status.
    StatusFailure { code: u16, body: String },
    /// The upstream answered with a success status but the body is not valid
    /// structured data.
    ParseFailure { description: String },
}

/// The mathematical content of an [`UpstreamResult`].
pub enum ResultModel {
    Success { payload: Seq<char> },
    TransportFailure { description: Seq<char> },
    StatusFailure { code: int, body: Seq<char> },
    ParseFailure { description: Seq<char> },
}

impl View for UpstreamResult {
    type V = ResultModel;

    open spec fn view(&self) -> ResultModel {
        match self {
            UpstreamResult::Success { payload } => ResultModel::Success { payload: payload@ },
            UpstreamResult::TransportFailure { description } => ResultModel::TransportFailure {
                description: description@,
            },
            UpstreamResult::StatusFailure { code, body } => ResultModel::StatusFailure {
                code: *code as int,
                body: body@,
            },
            UpstreamResult::ParseFailure { description } => ResultModel::ParseFailure {
                description: description@,
            },
        }
    }
}

/// The answer returned to the caller; failure is a human-readable message in
/// the same field.
pub struct OutgoingAnswer {
    pub answer_text: String,
}

impl View for OutgoingAnswer {
    type V = Seq<char>;

    open spec fn view(&self) -> Seq<char> {
        self.answer_text@
    }
}

/// What decoding a body yields, as a function of the body text alone:
/// `Err(d)` with the decode-error description when the body is not valid
/// JSON; otherwise `Ok(Some(c))` with the text at the first completion
/// choice's message content, or `Ok(None)` when that path is absent or not
/// a string.
pub uninterp spec fn decoded_content_of(body: Seq<char>) -> Result<Option<Seq<char>>, Seq<char>>;

/// The view of a decode result, for stating that an executable result equals
/// `decoded_content_of` of the body.
pub open spec fn decode_view(r: Result<Option<String>, String>) -> Result<
    Option<Seq<char>>,
    Seq<char>,
> {
    match r {
        Ok(Some(content)) => Ok(Some(content@)),
        Ok(None) => Ok(None),
        Err(description) => Err(description@),
    }
}

/// Relies on serde_json: `from_str::<Value>` decides, from the body text
/// alone, whether the body is valid JSON, and its error's text describes the
/// failure; `Value`'s square-bracket indexing walks the path
/// `choices[0].message.content`, yielding `Null` wherever a step is absent;
/// `Value::as_str` gives the text exactly when that spot holds a string.
#[verifier::external_body]
fn decode_content(body: &str) -> (r: Result<Option<String>, String>)
    ensures
        decode_view(r) == decoded_content_of(body@),
{
    match serde_json::from_str::<serde_json::Value>(body) {
        Ok(v) => Ok(v["choices"][0]["message"]["content"].as_str().map(|s| s.to_string())),
        Err(e) => Err(e.to_string()),
    }
}

/// How one outcome is classified: a transport error is a transport failure; a
/// non-success status (outside 200..=299) is a status failure; a success
/// status whose body does not decode is a parse failure; the rest is success,
/// keeping the raw payload.
pub open spec fn classify_model(o: OutcomeModel) -> ResultModel {
    match o {
        OutcomeModel::TransportError { description } => ResultModel::TransportFailure {
            description,
        },
        OutcomeModel::Response { status, body } => {
            if status < 200 || status >= 300 {
                ResultModel::StatusFailure { code: status, body }
            } else {
                match decoded_content_of(body) {
                    Err(description) => ResultModel::ParseFailure { description },
                    Ok(_) => ResultModel::Success { payload: body },
                }
            }
        },
    }
}

/// The answer text built from a classified result: each failure becomes its
/// indicator text followed by the detail, and a success yields the extracted
/// content, or the sentinel when the payload has no extractable answer.
pub open spec fn render_model(r: ResultModel) -> Seq<char> {
    match r {
        ResultModel::TransportFailure { description } => "Request error: "@ + description,
        ResultModel::StatusFailure { code, body } => "API error "@ + dec_digits(code) + ": "@
            + body,
        ResultModel::ParseFailure { description } => "Parse error: "@ + description,
        ResultModel::Success { payload } => match decoded_content_of(payload) {
            Ok(Some(content)) => content,
            Ok(None) => sentinel_chars(),
            Err(description) => "Parse error: "@ + description,
        },
    }
}

/// The whole relay, as a function of the outcome.
pub open spec fn relay_model(o: OutcomeModel) -> Seq<char> {
    render_model(classify_model(o))
}

/// Classify the outcome of the upstream call.
pub fn classify(outcome: UpstreamOutcome) -> (r: UpstreamResult)
    ensures
        r@ == classify_model(outcome@),
{
    match outcome {
        UpstreamOutcome::TransportError { description } => UpstreamResult::TransportFailure {
            description,
        },
        UpstreamOutcome::Response { status, body } => {
            if status < 200 || status >= 300 {
                UpstreamResult::StatusFailure { code: status, body }
            } else {
                match decode_content(body.as_str()) {
                    Ok(_) => UpstreamResult::Success { payload: body },
                    Err(description) => UpstreamResult::ParseFailure { description },
                }
            }
        },
    }
}

fn failure_text(indicator: &str, detail: String) -> (s: String)
    ensures
        s@ == indicator@ + detail@,
{
    let mut s = indicator.to_owned();
    s.append(detail.as_str());
    s
}

/// Build the answer for a classified result.
pub fn render_answer(result: UpstreamResult) -> (a: OutgoingAnswer)
    ensures
        a@ == render_model(result@),
{
    match result {
        UpstreamResult::TransportFailure { description } => OutgoingAnswer {
            answer_text: failure_text("Request error: ", description),
        },
        UpstreamResult::StatusFailure { code, body } => {
            let mut s = "API error ".to_owned();
            s.append(fmt_u64(code as u64).as_str());
            s.append(": ");
            s.append(body.as_str());
            proof {
                assert(s@ =~= render_model(ResultModel::StatusFailure {
                    code: code as int,
                    body: body@,
                }));
            }
            OutgoingAnswer { answer_text: s }
        },
        UpstreamResult::ParseFailure { description } => OutgoingAnswer {
            answer_text: failure_text("Parse error: ", description),
        },
        UpstreamResult::Success { payload } => match decode_content(payload.as_str()) {
            Ok(Some(content)) => OutgoingAnswer { answer_text: content },
            Ok(None) => OutgoingAnswer {
                answer_text: "Could not extract answer from response".to_owned(),
            },
            Err(description) => OutgoingAnswer {
                answer_text: failure_text("Parse error: ", description),
            },
        },
    }
}

/// The response relay: classify the outcome of the upstream call and build
/// the one answer returned to the caller. Every outcome yields exactly one
/// answer; no failure escapes.
pub fn relay(outcome: UpstreamOutcome) -> (a: OutgoingAnswer)
    ensures
        a@ == relay_model(outcome@),
{
    let result = classify(outcome);
    render_answer(result)
}

} // verus!
