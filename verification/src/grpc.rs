//! The gRPC status values of `tonic` that the mock hands back.

use vstd::prelude::*;
use tonic::Code;
use tonic::Status;

verus! {

/// `tonic::Code`, carried through the library as an opaque value.
#[verifier::external_type_specification]
#[verifier::external_body]
pub struct ExCode(tonic::Code);

/// `tonic::Status`, carried through the library as an opaque value.
#[verifier::external_type_specification]
#[verifier::external_body]
pub struct ExStatus(tonic::Status);

/// The status that `tonic::Status::new` builds from a code and a message.
pub uninterp spec fn status_from(code: Code, message: Seq<char>) -> Status;

/// Calls `tonic::Status::new(code, message)`.
///
/// Trusted: the result is the value named by `status_from` for the code and
/// the message's characters. `Status::new` stores the code and the message and
/// sets empty details, empty metadata and no source, so it depends on these two
/// arguments alone.
#[verifier::external_body]
pub(crate) fn new_status(code: Code, message: String) -> (status: Status)
    ensures
        status == status_from(code, message@),
{
    Status::new(code, message)
}

} // verus!
