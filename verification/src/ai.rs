//! The AI generation command. No provider is called yet: the response is a
//! fixed echo of the prompt, and the optional structured context is
//! accepted and ignored.

use vstd::prelude::*;

verus! {

/// serde_json's `Value`, the structured context a caller may attach to a
/// prompt. It is carried through opaquely; nothing reads into it.
#[verifier::external_type_specification]
#[verifier::external_body]
pub struct ExValue(serde_json::Value);

/// The mock response text for a prompt.
pub open spec fn ai_response_text(prompt: Seq<char>) -> Seq<char> {
    "Mock AI response for: "@ + prompt
}

/// Produces the AI response for a prompt. No provider exists yet, so the
/// result is always the mock echo of the prompt; the context plays no part.
pub fn ai_generate(prompt: String, _context: Option<serde_json::Value>) -> (r: String)
    ensures
        r@ == ai_response_text(prompt@),
{
    let mut r = String::from_str("Mock AI response for: ");
    r.append(prompt.as_str());
    r
}

} // verus!
