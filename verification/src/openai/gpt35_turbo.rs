//! The single-answer backend variant: the reply payload is one JSON object
//! with a `description` string and a `command` string.

use vstd::prelude::*;

use crate::converter::ConversionError;
use crate::converter::Detail;
use crate::openai::build_request;
use crate::openai::choice_contents;
use crate::openai::contents_of_body;
use crate::openai::detail_from_single;
use crate::openai::json_model;
use crate::openai::json_of;
use crate::openai::parse_json;
use crate::openai::sole_candidate;
use crate::openai::string_at;
use crate::openai::string_field;
use crate::openai::string_views;
use crate::openai::well_formed_request;
use crate::openai::JsonModel;
use crate::openai::Request;

verus! {

/// The model identifier this variant targets.
pub const MODEL: &'static str = "gpt-3.5-turbo";

/// The system instruction describing the required reply shape.
pub const PROMPT: &'static str =
    "Now, you are an assistant to help users to convert their text to shell commands\\
    (NOTE: The command may consist of multiple commands.).\\
    Your answer MUST be a json string (including other descriptions is DISALLOWED) and MUST contain the following fields:
    1. description: What is each part of this command doing? It should be as short as possible.
    2. command: The command(s) meet the requirements.";

/// The decoded payload of this variant: a JSON object with string fields
/// `description` and `command`.
pub open spec fn payload_of(m: JsonModel) -> Option<(Seq<char>, Seq<char>)> {
    match string_at(m, "description"@) {
        Some(description) => match string_at(m, "command"@) {
            Some(command) => Some((description, command)),
            None => None,
        },
        None => None,
    }
}

/// The decoded payload of a candidate content text, if it is valid JSON of
/// this variant's shape.
pub open spec fn payload_of_content(content: Seq<char>) -> Option<(Seq<char>, Seq<char>)> {
    match json_of(content) {
        Some(m) => payload_of(m),
        None => None,
    }
}

/// The request to send for one question.
pub fn request_for(question: &str) -> (r: Request)
    ensures
        well_formed_request(r, MODEL@, PROMPT@, question@),
{
    build_request(MODEL, PROMPT, question)
}

/// Decode the inner payload of one candidate against this variant's
/// schema: exactly when the content carries a `description` string and a
/// non-empty `command` string, they become the detail; anything else is a
/// malformed payload.
pub fn parse_payload(content: &str) -> (r: Result<Detail, ConversionError>)
    ensures
        r matches Ok(d) ==> d.valid(),
        r matches Err(e) ==> e is MalformedPayload,
        ({
            match payload_of_content(content@) {
                Some((description, command)) => {
                    &&& command.len() > 0 ==> (r matches Ok(d) && d.descriptions@.len() == 1
                        && d.descriptions@[0]@ == description && d.command@ == command)
                    &&& command.len() == 0 ==> r is Err
                },
                None => r is Err,
            }
        }),
{
    let parsed = match parse_json(content) {
        Some(v) => v,
        None => {
            return Err(ConversionError::MalformedPayload);
        },
    };
    let ghost m = json_model(parsed);
    let description = match string_field(&parsed, "description") {
        Some(s) => s,
        None => {
            return Err(ConversionError::MalformedPayload);
        },
    };
    let command = match string_field(&parsed, "command") {
        Some(s) => s,
        None => {
            return Err(ConversionError::MalformedPayload);
        },
    };
    detail_from_single(description, command)
}

/// Normalize one whole reply body: exactly one candidate answer, whose
/// content decodes against this variant's payload schema. The error says
/// what went wrong — the candidate count when it is not one, a malformed
/// payload anywhere else.
pub fn detail_from_reply(body: &str) -> (r: Result<Detail, ConversionError>)
    ensures
        r matches Ok(d) ==> d.valid(),
        r matches Err(e) ==> (e is MalformedPayload || e is CandidateCount),
        ({
            match contents_of_body(body@) {
                Some(contents) => {
                    if contents.len() != 1 {
                        r matches Err(e) && e matches ConversionError::CandidateCount(n) && n
                            as nat == contents.len()
                    } else {
                        match payload_of_content(contents[0]) {
                            Some((description, command)) => {
                                &&& command.len() > 0 ==> (r matches Ok(d)
                                    && d.descriptions@.len() == 1 && d.descriptions@[0]@
                                    == description && d.command@ == command)
                                &&& command.len() == 0 ==> (r matches Err(e)
                                    && e is MalformedPayload)
                            },
                            None => r matches Err(e) && e is MalformedPayload,
                        }
                    }
                },
                None => r matches Err(e) && e is MalformedPayload,
            }
        }),
{
    let contents = match choice_contents(body) {
        Ok(c) => c,
        Err(e) => {
            return Err(e);
        },
    };
    let ghost cv = contents@;
    let content = match sole_candidate(contents) {
        Ok(c) => c,
        Err(e) => {
            return Err(e);
        },
    };
    proof {
        assert(string_views(cv)[0] == cv[0]@);
    }
    parse_payload(content.as_str())
}

} // verus!
