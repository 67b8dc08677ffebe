//! The multi-command backend variant: the reply payload is one JSON object
//! with a `descriptions` array and a `commands` array, the commands joined
//! with " && " into one command string.

use vstd::prelude::*;

use crate::converter::ConversionError;
use crate::converter::Detail;
use crate::openai::build_request;
use crate::openai::choice_contents;
use crate::openai::contents_of_body;
use crate::openai::detail_from_parts;
use crate::openai::join_with;
use crate::openai::json_model;
use crate::openai::json_of;
use crate::openai::parse_json;
use crate::openai::sole_candidate;
use crate::openai::string_array_field;
use crate::openai::string_views;
use crate::openai::strings_at;
use crate::openai::well_formed_request;
use crate::openai::JsonModel;
use crate::openai::Request;

verus! {

/// The model identifier this variant targets.
pub const MODEL: &'static str = "gpt-4-32k";

/// The system instruction describing the required reply shape.
pub const PROMPT: &'static str =
    "Now, you are an assistant to help users to convert their text to shell commands\\
    (NOTE: The command may consist of multiple commands.).\\
    Your answer MUST be a json string (including other fields are DISALLOWED) and MUST ONLY contain the following two fields:
    1. descriptions: The array of string, each element interpreting a part of the command you generated. \\
    (For example, if you give the command [\"cd a\", \"ls -lh\"], the descriptions could be [\"`cd a`: navigate to a directory \", \"`ls -lh`: display the information about each item and its size\"]. \\
    NOTE: The description ALWAYS starts with the command you generated, and the command is wrapped by backticks.)
    2. commands: The array of command(s) meet the requirements.";

/// The decoded payload of this variant: a JSON object with string-array
/// fields `descriptions` and `commands`.
pub open spec fn payload_of(m: JsonModel) -> Option<(Seq<Seq<char>>, Seq<Seq<char>>)> {
    match strings_at(m, "descriptions"@) {
        Some(descriptions) => match strings_at(m, "commands"@) {
            Some(commands) => Some((descriptions, commands)),
            None => None,
        },
        None => None,
    }
}

/// The decoded payload of a candidate content text, if it is valid JSON of
/// this variant's shape.
pub open spec fn payload_of_content(content: Seq<char>) -> Option<
    (Seq<Seq<char>>, Seq<Seq<char>>),
> {
    match json_of(content) {
        Some(m) => payload_of(m),
        None => None,
    }
}

/// The request to send for one question.
pub fn request_for(question: &str) -> (r: Request)
    ensures
        well_formed_request(r, MODEL@, PROMPT@, question@),
{
    build_request(MODEL, PROMPT, question)
}

/// Decode the inner payload of one candidate against this variant's
/// schema: exactly when the content carries string arrays `descriptions`
/// and `commands`, and the detail invariants hold of them, they become the
/// detail — the commands joined with " && "; anything else is a malformed
/// payload.
pub fn parse_payload(content: &str) -> (r: Result<Detail, ConversionError>)
    ensures
        r matches Ok(d) ==> d.valid(),
        r matches Err(e) ==> e is MalformedPayload,
        ({
            match payload_of_content(content@) {
                Some((descriptions, commands)) => {
                    let joined = join_with(commands, " && "@);
                    &&& (descriptions.len() >= 1 && joined.len() > 0) ==> (r matches Ok(d)
                        && string_views(d.descriptions@) == descriptions && d.command@ == joined)
                    &&& !(descriptions.len() >= 1 && joined.len() > 0) ==> r is Err
                },
                None => r is Err,
            }
        }),
{
    let parsed = match parse_json(content) {
        Some(v) => v,
        None => {
            return Err(ConversionError::MalformedPayload);
        },
    };
    let ghost m = json_model(parsed);
    let descriptions = match string_array_field(&parsed, "descriptions") {
        Some(d) => d,
        None => {
            return Err(ConversionError::MalformedPayload);
        },
    };
    let commands = match string_array_field(&parsed, "commands") {
        Some(c) => c,
        None => {
            return Err(ConversionError::MalformedPayload);
        },
    };
    detail_from_parts(descriptions, commands)
}

/// Normalize one whole reply body: exactly one candidate answer, whose
/// content decodes against this variant's payload schema. The error says
/// what went wrong — the candidate count when it is not one, a malformed
/// payload anywhere else.
pub fn detail_from_reply(body: &str) -> (r: Result<Detail, ConversionError>)
    ensures
        r matches Ok(d) ==> d.valid(),
        r matches Err(e) ==> (e is MalformedPayload || e is CandidateCount),
        ({
            match contents_of_body(body@) {
                Some(contents) => {
                    if contents.len() != 1 {
                        r matches Err(e) && e matches ConversionError::CandidateCount(n) && n
                            as nat == contents.len()
                    } else {
                        match payload_of_content(contents[0]) {
                            Some((descriptions, commands)) => {
                                let joined = join_with(commands, " && "@);
                                &&& (descriptions.len() >= 1 && joined.len() > 0) ==> (r matches Ok(
                                    d,
                                ) && string_views(d.descriptions@) == descriptions && d.command@
                                    == joined)
                                &&& !(descriptions.len() >= 1 && joined.len() > 0) ==> (r matches
                                    Err(e) && e is MalformedPayload)
                            },
                            None => r matches Err(e) && e is MalformedPayload,
                        }
                    }
                },
                None => r matches Err(e) && e is MalformedPayload,
            }
        }),
{
    let contents = match choice_contents(body) {
        Ok(c) => c,
        Err(e) => {
            return Err(e);
        },
    };
    let ghost cv = contents@;
    let content = match sole_candidate(contents) {
        Ok(c) => c,
        Err(e) => {
            return Err(e);
        },
    };
    proof {
        assert(string_views(cv)[0] == cv[0]@);
    }
    parse_payload(content.as_str())
}

} // verus!
