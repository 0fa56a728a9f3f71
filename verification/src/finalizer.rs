//! The last step of a recording: the temporary file takes its final name.
//!
//! Whoever calls looks for the temporary file and performs the rename; what
//! is decided between and after the two stands here.

use vstd::prelude::*;
use crate::clock::Elapsed;
use crate::names::{final_name, final_path};
use crate::report::{SessionError, SessionErrorView};

verus! {

/// A rename that is to be performed.
#[derive(Debug, PartialEq, Eq)]
pub struct RenameOrder {
    pub from: String,
    pub to: String,
}

/// The rename that gives the recording at `temp_path` the final name of
/// `prefix` and `duration`.
pub fn rename_order(temp_path: &str, prefix: &str, duration: Elapsed) -> (order: RenameOrder)
    ensures
        order.from@ == temp_path@,
        order.to@ == final_name(prefix@, duration.secs()),
{
    RenameOrder { from: temp_path.to_owned(), to: final_path(prefix, duration) }
}

/// Decides what to do with the temporary file of a recording that took
/// `duration`, given whether a file exists at `temp_path`. A file that exists
/// is to be renamed to the final name of `prefix` and `duration`. Where none
/// exists nothing is to be done to any file, and the error says so.
pub fn finalize(temp_path: &str, prefix: &str, duration: Elapsed, temp_exists: bool) -> (r: Result<
    RenameOrder,
    SessionError,
>)
    ensures
        temp_exists ==> r is Ok,
        !temp_exists ==> r is Err,
        r matches Ok(order) ==> order.from@ == temp_path@ && order.to@ == final_name(
            prefix@,
            duration.secs(),
        ),
        r matches Err(error) ==> error@ == (SessionErrorView::MissingFile {
            temp_path: temp_path@,
        }),
{
    if temp_exists {
        Ok(rename_order(temp_path, prefix, duration))
    } else {
        Err(SessionError::MissingFile { temp_path: temp_path.to_owned() })
    }
}

/// The result of the finalization once the rename of `order` was tried:
/// the final path where it worked, else the error with both paths.
pub fn conclude(order: RenameOrder, renamed: bool) -> (r: Result<String, SessionError>)
    ensures
        renamed ==> r is Ok,
        !renamed ==> r is Err,
        r matches Ok(path) ==> path@ == order.to@,
        r matches Err(error) ==> error@ == (SessionErrorView::Rename {
            from: order.from@,
            to: order.to@,
        }),
{
    if renamed {
        Ok(order.to)
    } else {
        Err(SessionError::Rename { from: order.from, to: order.to })
    }
}

} // verus!
