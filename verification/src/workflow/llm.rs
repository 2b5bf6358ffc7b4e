//! What answers the prompts of a workflow.

use vstd::prelude::*;

verus! {

/// What answers the prompts of a workflow.
pub trait LlmStrategy {
    /// The completion of a prompt, or why there is none.
    fn complete(&self, prompt: &str) -> Result<String, String>;

    /// The completion of a prompt under a system prompt, or why there is
    /// none.
    fn complete_with_system(&self, system: &str, prompt: &str) -> Result<String, String>;
}

/// No language model, for workflows that need none.
pub struct NoLlm;

impl LlmStrategy for NoLlm {
    /// Always fails: no model is configured.
    fn complete(&self, prompt: &str) -> (r: Result<String, String>)
        ensures
            r is Err,
            r->Err_0@ == "LLM not configured for this workflow"@,
    {
        Err("LLM not configured for this workflow".to_owned())
    }

    /// Always fails: no model is configured.
    fn complete_with_system(&self, system: &str, prompt: &str) -> (r: Result<String, String>)
        ensures
            r is Err,
            r->Err_0@ == "LLM not configured for this workflow"@,
    {
        Err("LLM not configured for this workflow".to_owned())
    }
}

/// The strategy for a workflow that names `provider` and `model`. This
/// library links no model provider, so whatever is named, the strategy that
/// refuses every prompt is returned.
pub fn build_llm_strategy(provider: Option<&str>, model: Option<&str>) -> (r: NoLlm)
    ensures
        r == NoLlm,
{
    NoLlm
}

} // verus!
