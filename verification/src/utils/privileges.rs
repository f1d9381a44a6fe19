//! The privilege gate: every change to the configuration store passes it
//! first.

use crate::error::MutationError;
use vstd::prelude::*;

verus! {

/// Whether the platform's answer to "is the user an administrator" says yes.
/// The answer is the number that the platform gave, and `None` where the
/// platform knows no such question; only the number 1 says yes.
pub open spec fn elevated(answer: Option<i32>) -> bool {
    answer == Some(1i32)
}

/// Whether the caller holds elevated rights, going by the platform's answer.
pub fn is_admin(answer: Option<i32>) -> (yes: bool)
    ensures
        yes == elevated(answer),
{
    match answer {
        Some(n) => n == 1,
        None => false,
    }
}

/// Passes callers with elevated rights and stops all others. It looks at
/// the answer and at nothing else, so it can be asked any number of times.
pub fn require_admin(answer: Option<i32>) -> (r: Result<(), MutationError>)
    ensures
        r is Ok <==> elevated(answer),
        r is Err ==> r->Err_0@ == crate::error::MutationErrorView::PrivilegeRequired,
{
    if !is_admin(answer) {
        Err(MutationError::PrivilegeRequired)
    } else {
        Ok(())
    }
}

} // verus!
