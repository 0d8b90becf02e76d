//! Whether the badge APIs have been initialized.
//!
//! The host application marks the library initialized once; every badge
//! operation first checks the mark. The mark is never taken back.
use vstd::prelude::*;
use crate::outcome::result_view;

verus! {

/// The initialization state the badge APIs consult.
pub struct Runtime {
    initialized: bool,
}

impl View for Runtime {
    type V = bool;

    /// True once the runtime has been marked initialized.
    closed spec fn view(&self) -> bool {
        self.initialized
    }
}

/// The message returned when a badge API is used before initialization.
pub open spec fn not_initialized_message() -> Seq<char> {
    "Call XueHuaAppBadge.initialize() before using badge APIs"@
}

/// What `ensure_initialized` returns in a state that is or is not initialized.
pub open spec fn initialization_check(initialized: bool) -> Result<(), Seq<char>> {
    if initialized {
        Ok(())
    } else {
        Err(not_initialized_message())
    }
}

impl Runtime {
    /// A runtime that has not been initialized yet.
    pub fn new() -> (r: Runtime)
        ensures
            !r@,
    {
        Runtime { initialized: false }
    }
}

/// Marks the runtime initialized; marking it again changes nothing.
pub fn mark_initialized(runtime: &mut Runtime)
    ensures
        final(runtime)@,
{
    runtime.initialized = true;
}

/// `Ok(())` once the runtime has been marked initialized, otherwise the
/// error that asks the caller to initialize first.
pub fn ensure_initialized(runtime: &Runtime) -> (r: Result<(), String>)
    ensures
        result_view(r) == initialization_check(runtime@),
{
    if runtime.initialized {
        Ok(())
    } else {
        Err("Call XueHuaAppBadge.initialize() before using badge APIs".to_string())
    }
}

/// Marking and checking fit together: a marked runtime passes the check,
/// and a runtime that fails the check has not been marked.
pub proof fn lemma_check_passes_after_mark(initialized: bool)
    ensures
        initialization_check(initialized) is Ok <==> initialized,
        initialization_check(true) == Ok::<(), Seq<char>>(()),
{
}

} // verus!
