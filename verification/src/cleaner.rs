use vstd::prelude::*;

use vstd::string::StringExecFns;

verus! {

/// The name of the fallback file that holds the prompt when the clipboard
/// is unavailable.
pub open spec fn spec_prompt_file_name() -> Seq<char> {
    (".commit_prompt.txt")@
}

/// A handle on the temporary fallback prompt file: it names the file that
/// a scoped guard around it removes when the guard is dropped.
pub struct TempPromptCleaner {
    pub path: String,
}

/// A cleaner for the default fallback prompt file.
pub fn temp_prompt_cleaner() -> (c: TempPromptCleaner)
    ensures
        c.path@ == spec_prompt_file_name(),
{
    TempPromptCleaner { path: String::from_str(".commit_prompt.txt") }
}

} // verus!
