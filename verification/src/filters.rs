use vstd::prelude::*;
use up_rust::{UStatus, UUri};
use crate::status::{Status, StatusCode};

verus! {

/// `up_rust::UUri`, carried through as an opaque value.
#[verifier::external_type_specification]
#[verifier::external_body]
pub struct ExUUri(UUri);

/// `up_rust::UStatus`, carried through as an opaque value.
#[verifier::external_type_specification]
#[verifier::external_body]
pub struct ExUStatus(UStatus);

/// What `up_rust::verify_filter_criteria` answers for a source filter and an
/// optional sink filter.
pub uninterp spec fn filter_criteria_check(source: UUri, sink: Option<UUri>) -> Result<(), UStatus>;

/// The message text of a uProtocol status.
pub uninterp spec fn ustatus_text(status: UStatus) -> Seq<char>;

/// The sink filter, by value.
pub open spec fn sink_value(sink: Option<&UUri>) -> Option<UUri> {
    match sink {
        Some(s) => Some(*s),
        None => None,
    }
}

/// Whether the filters can be used to register a listener.
pub open spec fn filter_criteria_valid(source: UUri, sink: Option<UUri>) -> bool {
    filter_criteria_check(source, sink) is Ok
}

/// Checks the filters with `up_rust::verify_filter_criteria`.
/// Trusted: the result is the check's answer.
#[verifier::external_body]
fn verify_filters(source: &UUri, sink: Option<&UUri>) -> (res: Result<(), UStatus>)
    ensures
        res == filter_criteria_check(*source, sink_value(sink)),
{
    up_rust::verify_filter_criteria(source, sink)
}

/// The message of a uProtocol status, with `UStatus::get_message`.
/// Trusted: the result is the status's message text.
#[verifier::external_body]
fn ustatus_message(status: &UStatus) -> (res: String)
    ensures
        res@ == ustatus_text(*status),
{
    status.get_message()
}

/// Checks that a source filter and an optional sink filter can be used to
/// register or unregister a listener. Filters that `verify_filter_criteria`
/// refuses are an invalid argument, with the text of its answer.
pub fn check_listener_filters(source: &UUri, sink: Option<&UUri>) -> (res: Result<(), Status>)
    ensures
        res is Ok <==> filter_criteria_valid(*source, sink_value(sink)),
        filter_criteria_check(*source, sink_value(sink)) matches Err(e) ==> res matches Err(
            status,
        ) && status.code == StatusCode::InvalidArgument && status.message@ == ustatus_text(e),
{
    match verify_filters(source, sink) {
        Ok(()) => Ok(()),
        Err(e) => Err(Status::fail_with_code(StatusCode::InvalidArgument, ustatus_message(&e))),
    }
}

} // verus!
