//! What the operator makes of the cluster's answer to a request that changes
//! a device.

use vstd::prelude::*;
use vstd::string::StringExecFns;

use crate::error::OperatorError;

verus! {

/// The message for a device that could not be created, given the client's
/// own words for what went wrong.
pub open spec fn create_failure_text(reason: Seq<char>) -> Seq<char> {
    "failed to create device: "@ + reason
}

/// The message for a device that could not be deleted, given the client's
/// own words for what went wrong.
pub open spec fn delete_failure_text(reason: Seq<char>) -> Seq<char> {
    "failed to delete device: "@ + reason
}

/// The result of creating a device, from the client's reply: `Ok` when the
/// cluster took the device (what it sent back is dropped), else the client's
/// error text behind a fixed prefix.
pub fn create_outcome<T>(reply: Result<T, String>) -> (outcome: Result<(), OperatorError>)
    ensures
        reply is Ok <==> outcome is Ok,
        reply matches Err(reason) ==> outcome matches Err(error) && error@ == create_failure_text(
            reason@,
        ),
{
    match reply {
        Ok(_) => Ok(()),
        Err(reason) => {
            let mut message = String::from_str("failed to create device: ");
            message.append(reason.as_str());
            Err(OperatorError::new(message))
        },
    }
}

/// The result of deleting a device, from the client's reply: `Ok` when the
/// cluster accepted the deletion (what it sent back is dropped), else the
/// client's error text behind a fixed prefix.
pub fn delete_outcome<T>(reply: Result<T, String>) -> (outcome: Result<(), OperatorError>)
    ensures
        reply is Ok <==> outcome is Ok,
        reply matches Err(reason) ==> outcome matches Err(error) && error@ == delete_failure_text(
            reason@,
        ),
{
    match reply {
        Ok(_) => Ok(()),
        Err(reason) => {
            let mut message = String::from_str("failed to delete device: ");
            message.append(reason.as_str());
            Err(OperatorError::new(message))
        },
    }
}

} // verus!
