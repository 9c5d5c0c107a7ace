//! Reading the translation endpoint's response.
//!
//! The endpoint answers with an ordered sequence of candidate completions.
//! Only the first candidate is used; a response without any candidate yields a
//! fixed placeholder string and counts as a success, not as an error.

use vstd::prelude::*;

verus! {

/// The content of one candidate's message.
#[derive(Debug, PartialEq)]
pub struct CandidateMessage {
    pub content: String,
}

/// One alternative completion returned by the endpoint.
#[derive(Debug, PartialEq)]
pub struct Candidate {
    pub message: CandidateMessage,
}

/// The response shape of the translation endpoint.
#[derive(Debug, PartialEq)]
pub struct TranslationResponse {
    pub choices: Vec<Candidate>,
}

/// The fixed fallback string used when the endpoint returns no candidates.
pub open spec fn spec_placeholder_translation() -> Seq<char> {
    "No translation received"@
}

/// Picks the translated text out of a response: the first candidate's content,
/// or the fixed placeholder when the response holds no candidate at all. The
/// candidate-free case is deliberately a successful outcome.
pub fn first_choice_text(response: &TranslationResponse) -> (t: String)
    ensures
        response.choices@.len() == 0 ==> t@ == spec_placeholder_translation(),
        response.choices@.len() > 0 ==> t@ == response.choices@[0].message.content@,
{
    if response.choices.len() > 0 {
        response.choices[0].message.content.clone()
    } else {
        String::from_str("No translation received")
    }
}

} // verus!
