//! Naming and creating temporary files.
//!
//! A file is created empty, readable by its owner alone, and handed to screen
//! by path. The names of one run differ in a counter.

use crate::text::{
    decimal, decimal_of, lemma_decimal_digits,
};
use vstd::prelude::*;

verus! {

/// `<prefix>-<pid>-<counter>`.
pub open spec fn temp_name_of(prefix: Seq<char>, pid: u32, counter: u32) -> Seq<char> {
    prefix + "-"@ + decimal_of(pid as nat) + "-"@ + decimal_of(counter as nat)
}

/// The file name for a counter value.
pub fn temp_name(prefix: &str, pid: u32, counter: u32) -> (r: String)
    ensures
        r@ == temp_name_of(prefix@, pid, counter),
{
    let mut out: String = prefix.to_owned();
    out.append("-");
    out.append(decimal(pid as u64).as_str());
    out.append("-");
    out.append(decimal(counter as u64).as_str());
    out
}

/// Different counter values give different names.
pub proof fn temp_names_are_unique(prefix: Seq<char>, pid: u32, a: u32, b: u32)
    requires
        a != b,
    ensures
        temp_name_of(prefix, pid, a) != temp_name_of(prefix, pid, b),
{
    let head = prefix + "-"@ + decimal_of(pid as nat) + "-"@;
    let x = temp_name_of(prefix, pid, a);
    let y = temp_name_of(prefix, pid, b);
    if x == y {
        let n = head.len() as int;
        assert(x.skip(n) =~= decimal_of(a as nat));
        assert(y.skip(n) =~= decimal_of(b as nat));
        lemma_decimal_digits(a as nat);
        lemma_decimal_digits(b as nat);
    }
}

/// How often a name that is taken is replaced by the next one.
pub const MAX_ATTEMPTS: u32 = 64;

/// What opening a new file led to.
#[derive(Debug, Clone, Copy, PartialEq, Eq, Structural)]
pub enum OpenOutcome {
    /// The file was created.
    Created,
    /// The file was created, but its permissions could not be set.
    Unprotected,
    /// The name is taken.
    Taken,
    /// Any other failure.
    Failed,
}

/// What to do next.
#[derive(Debug, Clone, Copy, PartialEq, Eq, Structural)]
pub enum CreateStep {
    /// Hand the file out.
    Keep,
    /// Remove the file and report the error.
    RemoveAndFail,
    /// Try the next name.
    Retry,
    /// Report the error.
    Fail,
}

/// Decides after attempt number `attempt`, counted from one.
pub fn after_attempt(attempt: u32, outcome: OpenOutcome) -> (r: CreateStep)
    ensures
        r == match outcome {
            OpenOutcome::Created => CreateStep::Keep,
            OpenOutcome::Unprotected => CreateStep::RemoveAndFail,
            OpenOutcome::Taken => if attempt < MAX_ATTEMPTS {
                CreateStep::Retry
            } else {
                CreateStep::Fail
            },
            OpenOutcome::Failed => CreateStep::Fail,
        },
{
    match outcome {
        OpenOutcome::Created => CreateStep::Keep,
        OpenOutcome::Unprotected => CreateStep::RemoveAndFail,
        OpenOutcome::Taken => {
            if attempt < MAX_ATTEMPTS {
                CreateStep::Retry
            } else {
                CreateStep::Fail
            }
        },
        OpenOutcome::Failed => CreateStep::Fail,
    }
}

/// The directory named by `$TMPDIR`, else `/tmp`. A variable that is exported
/// but empty counts as unset.
pub fn temp_dir_from(value: Option<String>) -> (r: String)
    ensures
        r@ == match value {
            Some(dir) => if dir@.len() > 0 {
                dir@
            } else {
                "/tmp"@
            },
            None => "/tmp"@,
        },
{
    match value {
        Some(dir) => {
            if dir.as_str().is_empty() {
                "/tmp".to_owned()
            } else {
                dir
            }
        },
        None => "/tmp".to_owned(),
    }
}

} // verus!
