//! Audits batches of student git submissions: locates task folders inside a
//! cloned repository, walks the commit history that touched each folder, and
//! judges, commit by commit, whether the designated entry file compiles under
//! a list of candidate language standards.  The results are folded into a
//! per-submission record.
//!
//! All decision logic lives here and is verified.  Invoking git, the C
//! compiler, the filesystem and the report writer is left to the unverified
//! binary around this library, which feeds the outcomes back in as plain
//! values.

pub mod compile;
pub mod file_path;
pub mod history;
pub mod laws;
pub mod locate;
pub mod parser;
pub mod strutil;
pub mod submission;
