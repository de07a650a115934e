use vstd::prelude::*;

use crate::repo::RepositoryError;
use crate::repo::get_change_str;
use crate::report::DiffLine;
use crate::report::spec_change_report;
use crate::status::StatusEntry;
use vstd::string::StringExecFns;

verus! {

/// The fixed instructional template that opens every commit prompt.
pub open spec fn spec_base_prompt() -> Seq<char> {
    (
    "You are an AI assistant that creates commit messages.\nGiven the following changes in a git repository, provide a concise summary of what has been changed, added, or removed. Focus on the overall purpose and impact of the changes rather than line-by-line details.\nChoose one of the following types for the commit message:\nfeature: <A brief description of the feature added or modified>\nfix: <A brief description of the bug fixed>\nrefactor: <A brief description of the code refactored>\ndocs: <A brief description of the documentation updated>\nchore: <A brief description of the maintenance task performed>\n\nOnly provide the commit message without any additional commentary or explanation. Strictly follow the format: <type>: <description>. If multiple types apply, choose the most significant one.\n"
    )@
}

/// The line that asks for a non-English response body.
pub open spec fn spec_chinese_line() -> Seq<char> {
    ("Please respond in Chinese for the body of commit messages.\n")@
}

/// The full prompt handed to the assistant: the template, the optional
/// non-English request, and the change report under a `Changes:` heading.
pub open spec fn spec_full_prompt(chinese: bool, changes: Seq<char>) -> Seq<char> {
    (if chinese {
        spec_base_prompt() + spec_chinese_line()
    } else {
        spec_base_prompt()
    }) + ("\n\nChanges:\n")@ + changes
}

/// Assemble the commit prompt around an already built change report.
pub fn assemble_prompt(chinese: bool, changes: &str) -> (r: String)
    ensures
        r@ == spec_full_prompt(chinese, changes@),
{
    let mut p =
        "You are an AI assistant that creates commit messages.\nGiven the following changes in a git repository, provide a concise summary of what has been changed, added, or removed. Focus on the overall purpose and impact of the changes rather than line-by-line details.\nChoose one of the following types for the commit message:\nfeature: <A brief description of the feature added or modified>\nfix: <A brief description of the bug fixed>\nrefactor: <A brief description of the code refactored>\ndocs: <A brief description of the documentation updated>\nchore: <A brief description of the maintenance task performed>\n\nOnly provide the commit message without any additional commentary or explanation. Strictly follow the format: <type>: <description>. If multiple types apply, choose the most significant one.\n".to_owned();
    if chinese {
        p.append("Please respond in Chinese for the body of commit messages.\n");
    }
    p.append("\n\nChanges:\n");
    p.append(changes);
    p
}

/// Build the commit prompt for the repository in the current directory:
/// the fixed template around the change report of whatever the repository
/// scan handed back, or the scan's failure.
pub fn get_commit_prompt(chinese: bool) -> (r: Result<String, RepositoryError>)
    ensures
        r is Ok ==> exists|entries: Seq<StatusEntry>, lines: Seq<DiffLine>|
            (r->Ok_0)@ == spec_full_prompt(
                chinese,
                #[trigger] spec_change_report(entries, lines),
            ),
{
    let changes = match get_change_str() {
        Ok(changes) => changes,
        Err(e) => return Err(e),
    };
    let p = assemble_prompt(chinese, changes.as_str());
    Ok(p)
}

} // verus!
