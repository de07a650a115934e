pub mod cleaner;
pub mod diff_header;
pub mod prompt;
pub mod records;
pub mod repo;
pub mod report;
pub mod status;
mod strutil;

pub use cleaner::TempPromptCleaner;
pub use cleaner::temp_prompt_cleaner;
pub use diff_header::parse_diff_header;
pub use prompt::assemble_prompt;
pub use prompt::get_commit_prompt;
pub use records::FileChangeRecord;
pub use records::append_record;
pub use records::set_record;
pub use repo::RepositoryError;
pub use repo::get_change_str;
pub use repo::get_change_str_at;
pub use report::DiffLine;
pub use report::build_change_report;
pub use status::StatusEntry;
pub use status::StatusKind;
pub use status::classify_status;
