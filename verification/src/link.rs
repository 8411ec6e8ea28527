//! Link-status inspection and diagnostic extraction.
//!
//! After the link call the status flag is read once. On failure the error
//! queue is read once: an unexpected low-level error becomes a synthesized
//! message naming it; otherwise the driver's diagnostic log, fetched by the
//! ask-size-then-fetch protocol and decoded at the boundary, is the message.

use vstd::prelude::*;

use crate::commands::{GL_INVALID_OPERATION, GL_INVALID_VALUE, GL_NO_ERROR};
use crate::error::ProgramCreationError;

verus! {

/// The diagnostic text a failed link yields, as a function of the error
/// flag read from the queue and of the driver's log text.
pub open spec fn spec_link_failure_message(error_flag: u32, log: Seq<char>) -> Seq<char> {
    if error_flag == GL_INVALID_VALUE {
        "glLinkProgram triggered GL_INVALID_VALUE"@
    } else if error_flag == GL_INVALID_OPERATION {
        "glLinkProgram triggered GL_INVALID_OPERATION"@
    } else if error_flag != GL_NO_ERROR {
        "glLinkProgram triggered an unknown error"@
    } else {
        log
    }
}

/// Whether a failed link needs the diagnostic log fetched: only when the
/// error queue was clean.
pub open spec fn spec_link_failure_needs_log(error_flag: u32) -> bool {
    error_flag == GL_NO_ERROR
}

/// Turns the replies of the link-failure protocol into the linking error.
pub fn diagnose_link_failure(error_flag: u32, info_log: &String) -> (r: ProgramCreationError)
    ensures
        r matches ProgramCreationError::LinkingError(m) && m@ == spec_link_failure_message(
            error_flag,
            info_log@,
        ),
{
    if error_flag == GL_INVALID_VALUE {
        ProgramCreationError::LinkingError("glLinkProgram triggered GL_INVALID_VALUE".to_owned())
    } else if error_flag == GL_INVALID_OPERATION {
        ProgramCreationError::LinkingError(
            "glLinkProgram triggered GL_INVALID_OPERATION".to_owned(),
        )
    } else if error_flag != GL_NO_ERROR {
        ProgramCreationError::LinkingError("glLinkProgram triggered an unknown error".to_owned())
    } else {
        ProgramCreationError::LinkingError(info_log.clone())
    }
}

/// Interprets the link-status flag and, on failure, the failure replies.
/// Succeeds exactly when the flag is nonzero.
pub fn check_link_outcome(link_status: i32, error_flag: u32, info_log: &String) -> (r: Result<
    (),
    ProgramCreationError,
>)
    ensures
        link_status != 0 <==> r is Ok,
        link_status == 0 ==> (r matches Err(e) && (e matches ProgramCreationError::LinkingError(m)
            && m@ == spec_link_failure_message(error_flag, info_log@))),
{
    if link_status == 0 {
        Err(diagnose_link_failure(error_flag, info_log))
    } else {
        Ok(())
    }
}

} // verus!
