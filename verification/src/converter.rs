//! The conversion port: the normalized result of one conversion and the
//! capability interface that backends implement.

use vstd::prelude::*;

verus! {

/// The normalized result of one conversion: explanatory fragments plus one
/// executable command string.
#[derive(Clone, Debug)]
pub struct Detail {
    pub descriptions: Vec<String>,
    pub command: String,
}

impl Detail {
    /// A well-formed `Detail` explains at least one fragment and carries a
    /// non-empty command.
    pub open spec fn valid(self) -> bool {
        &&& self.descriptions@.len() >= 1
        &&& self.command@.len() > 0
    }

    /// Runtime check for `valid`.
    pub fn is_valid(&self) -> (b: bool)
        ensures
            b == self.valid(),
    {
        self.descriptions.len() >= 1 && !self.command.as_str().is_empty()
    }
}

/// Why a conversion failed: the backend call could not be completed, the
/// reply did not fit the expected structured schema, or the backend offered
/// a number of candidate answers other than exactly one.
#[derive(Clone, Copy, Debug)]
pub enum ConversionError {
    Transport,
    MalformedPayload,
    CandidateCount(usize),
}

/// A capability that turns free-form text into a `Detail`.
///
/// Backends differ in prompt text, reply schema and target model, but every
/// successful conversion they hand out satisfies the `Detail` invariants.
pub trait Converter {
    fn convert(&self, question: &str) -> (r: Result<Detail, ConversionError>)
        ensures
            r matches Ok(d) ==> d.valid(),
    ;
}

} // verus!
