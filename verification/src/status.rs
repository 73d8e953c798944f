use vstd::prelude::*;

verus! {

/// `tonic::Status`, the error of a call.
#[verifier::external_type_specification]
#[verifier::external_body]
pub struct ExStatus(tonic::Status);

/// The number that gRPC gives to the code of an invalid argument, and tonic
/// to `tonic::Code::InvalidArgument`.
pub const INVALID_ARGUMENT: i32 = 3;

/// The number of the code that `tonic::Status::code` returns for `status`.
pub uninterp spec fn status_code(status: tonic::Status) -> i32;

/// The message that `tonic::Status::message` returns for `status`.
pub uninterp spec fn status_message(status: tonic::Status) -> Seq<char>;

/// `tonic::Status::invalid_argument`. Trusted: the status that it builds has
/// the code `tonic::Code::InvalidArgument` and the message that it was given.
#[verifier::external_body]
pub(crate) fn invalid_argument(message: &str) -> (status: tonic::Status)
    ensures
        status_code(status) == INVALID_ARGUMENT,
        status_message(status) == message@,
{
    tonic::Status::invalid_argument(message)
}

} // verus!
