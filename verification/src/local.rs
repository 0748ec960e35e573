//! The local language-model handler's logic: filling the fixed few-shot
//! prompt template with the trimmed query text. Launching the model-runner
//! process and piping the prompt into it happen outside the library.

use vstd::prelude::*;
use vstd::string::StringExecFns;
use crate::text::{trim, trimmed};

verus! {

/// The fixed few-shot template, up to where the query text is spliced in.
pub open spec fn local_prompt_prefix() -> Seq<char> {
    "\nYou are a fast and accurate assistant. Answer each question with the final result only. No explanations. Keep answers as short and factual as possible.\n\nQ: 5x = 2 + 3\nA: x = 1\n\nQ: Timezone Amsterdam\nA: CET (UTC+1)\n\nQ: 3 * (2 + 4) - 1\nA: 17\n\nQ: What\u{2019}s the capital of Japan?\nA: Tokyo\n\nQ: Define inertia\nA: Resistance to change in motion\n\nQ: "@
}

/// The filled prompt: the template with the trimmed query text in place of
/// its placeholder, ending right after the answer marker.
pub open spec fn spec_local_prompt(q: Seq<char>) -> Seq<char> {
    local_prompt_prefix() + trimmed(q) + "\nA:"@
}

pub fn build_local_prompt(q: &str) -> (r: String)
    ensures
        r@ == spec_local_prompt(q@),
{
    let mut s = String::from_str(
        "\nYou are a fast and accurate assistant. Answer each question with the final result only. No explanations. Keep answers as short and factual as possible.\n\nQ: 5x = 2 + 3\nA: x = 1\n\nQ: Timezone Amsterdam\nA: CET (UTC+1)\n\nQ: 3 * (2 + 4) - 1\nA: 17\n\nQ: What\u{2019}s the capital of Japan?\nA: Tokyo\n\nQ: Define inertia\nA: Resistance to change in motion\n\nQ: ",
    );
    s.append(trim(q));
    s.append("\nA:");
    s
}

} // verus!
