//! User-editable prompt preferences.

use vstd::prelude::*;
use vstd::string::StringExecFns;

verus! {

/// The prompt preferences a user can edit: a system prompt and the
/// template it is substituted into, with `{SYSTEM}` standing for the
/// system prompt and `{USER}` for the user prompt.
pub struct GuiPrompt {
    pub system_prompt: String,
    pub prompt_template: String,
}

impl core::default::Default for GuiPrompt {
    /// An empty system prompt inside the stock template.
    fn default() -> (r: GuiPrompt)
        ensures
            r.system_prompt@ == Seq::<char>::empty(),
            r.prompt_template@ == "SYSTEM: {SYSTEM}\n\nUSER: {USER}\n\nASSISTANT:"@,
    {
        GuiPrompt {
            system_prompt: String::new(),
            prompt_template: "SYSTEM: {SYSTEM}\n\nUSER: {USER}\n\nASSISTANT:".to_owned(),
        }
    }
}

impl GuiPrompt {
    /// The placeholder identifier used before a real message id exists.
    pub fn default_id() -> (r: u64)
        ensures
            r == 0,
    {
        0
    }
}

} // verus!
