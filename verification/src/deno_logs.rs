//! Compiler transcripts for the module-build narrative, in two independent
//! flavours: a success run and an error run, each loaded from its own
//! optional source under the same rules.

use crate::corpus::{LineTransform, load_corpus, load_spec};
use vstd::prelude::*;

verus! {

/// Two ordered, read-only line collections: one replayed for a successful
/// compile, one for a failing compile.
pub struct DenoLogs {
    pub success_logs: Vec<String>,
    pub error_logs: Vec<String>,
}

impl DenoLogs {
    /// Build both corpora from the texts of two optional external sources;
    /// each absent or unreadable source silently falls back to its own
    /// built-in lines, independently of the other.
    pub fn load(success: Option<&str>, error: Option<&str>) -> (r: Self)
        ensures
            match success {
                Some(content) => r.success_logs.deep_view() == load_spec(
                    content@,
                    LineTransform::Identity,
                ),
                None => r.success_logs@.len() == 5,
            },
            match error {
                Some(content) => r.error_logs.deep_view() == load_spec(
                    content@,
                    LineTransform::Identity,
                ),
                None => r.error_logs@.len() == 5,
            },
    {
        let success_logs = match success {
            Some(content) => load_corpus(content, LineTransform::Identity),
            None => Self::default_success_logs(),
        };
        let error_logs = match error {
            Some(content) => load_corpus(content, LineTransform::Identity),
            None => Self::default_error_logs(),
        };
        DenoLogs { success_logs, error_logs }
    }

    /// The success transcript, in replay order.
    pub fn success_logs(&self) -> (r: &Vec<String>)
        ensures
            r@ == self.success_logs@,
    {
        &self.success_logs
    }

    /// The error transcript, in replay order.
    pub fn error_logs(&self) -> (r: &Vec<String>)
        ensures
            r@ == self.error_logs@,
    {
        &self.error_logs
    }

    /// The built-in success transcript used when no source is present.
    pub fn default_success_logs() -> (r: Vec<String>)
        ensures
            r@.len() == 5,
    {
        vec![
            "   Compiling proc-macro2 v1.0.101".to_owned(),
            "   Compiling unicode-ident v1.0.12".to_owned(),
            "   Compiling libc v0.2.172".to_owned(),
            "   Compiling serde v1.0.228".to_owned(),
            "    Finished `release` profile [optimized] target(s) in 2m 31s".to_owned(),
        ]
    }

    /// The built-in error transcript used when no source is present.
    pub fn default_error_logs() -> (r: Vec<String>)
        ensures
            r@.len() == 5,
    {
        vec![
            "   Compiling proc-macro2 v1.0.101".to_owned(),
            "   Compiling libc v0.2.172".to_owned(),
            "error: linking with `cc` failed: exit status: 1".to_owned(),
            "  = note: clang: error: invalid linker name in argument '-fuse-ld=lld'".to_owned(),
            "error: could not compile `proc-macro2` (build script) due to 1 previous error".to_owned(),
        ]
    }
}

} // verus!
