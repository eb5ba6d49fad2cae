//! How the status and body of a response become a record or a failure.
use crate::fields::{result_view, DecodeError};
use crate::json::{members_view, object_members_of, parse_object, JsonMember, JsonTerm};
use crate::records::{
    domain_info_of, email_info_of, error_info_of, DomainInfo, DomainInfoView, EmailInfo,
    EmailInfoView, ErrorInfo,
};
use vstd::prelude::*;

verus! {

/// Why a lookup failed.
#[derive(Debug)]
pub enum Failure {
    /// No response came back: the request could not be sent or answered.
    Transport(String),
    /// The service answered with a failure status; its message.
    Service(String),
    /// A response body does not hold what it should.
    Decode(DecodeError),
}

pub enum FailureView {
    Transport(Seq<char>),
    Service(Seq<char>),
    Decode(DecodeError),
}

impl View for Failure {
    type V = FailureView;

    open spec fn view(&self) -> FailureView {
        match self {
            Failure::Transport(m) => FailureView::Transport(m@),
            Failure::Service(m) => FailureView::Service(m@),
            Failure::Decode(e) => FailureView::Decode(*e),
        }
    }
}

/// A status in the success range 200 to 299.
pub open spec fn is_success_status(status: u16) -> bool {
    200 <= status && status <= 299
}

/// The members of a parsed body, as keys and terms.
pub open spec fn parsed_view(parsed: Option<Vec<JsonMember>>) -> Option<
    Seq<(Seq<char>, JsonTerm)>,
> {
    match parsed {
        Some(v) => Some(members_view(v@)),
        None => None,
    }
}

/// The failure that a response with a failure status stands for, given the
/// members of its body.
pub open spec fn service_failure_of(parsed: Option<Seq<(Seq<char>, JsonTerm)>>) -> FailureView {
    match parsed {
        None => FailureView::Decode(DecodeError::NotAnObject),
        Some(ms) => match error_info_of(ms) {
            Ok(info) => FailureView::Service(info.error),
            Err(e) => FailureView::Decode(e),
        },
    }
}

/// The outcome of a domain lookup whose response has `status` and a body
/// with members `parsed`.
pub open spec fn domain_outcome_of(status: u16, parsed: Option<Seq<(Seq<char>, JsonTerm)>>) -> Result<
    DomainInfoView,
    FailureView,
> {
    if !is_success_status(status) {
        Err(service_failure_of(parsed))
    } else {
        match parsed {
            None => Err(FailureView::Decode(DecodeError::NotAnObject)),
            Some(ms) => match domain_info_of(ms) {
                Ok(d) => Ok(d),
                Err(e) => Err(FailureView::Decode(e)),
            },
        }
    }
}

/// The outcome of an email lookup whose response has `status` and a body
/// with members `parsed`.
pub open spec fn email_outcome_of(status: u16, parsed: Option<Seq<(Seq<char>, JsonTerm)>>) -> Result<
    EmailInfoView,
    FailureView,
> {
    if !is_success_status(status) {
        Err(service_failure_of(parsed))
    } else {
        match parsed {
            None => Err(FailureView::Decode(DecodeError::NotAnObject)),
            Some(ms) => match email_info_of(ms) {
                Ok(d) => Ok(d),
                Err(e) => Err(FailureView::Decode(e)),
            },
        }
    }
}

pub fn is_success(status: u16) -> (r: bool)
    ensures
        r == is_success_status(status),
{
    200 <= status && status <= 299
}

/// The failure that a response with a failure status stands for.
pub fn service_failure(parsed: Option<Vec<JsonMember>>) -> (r: Failure)
    ensures
        r@ == service_failure_of(parsed_view(parsed)),
{
    match parsed {
        None => Failure::Decode(DecodeError::NotAnObject),
        Some(members) => match ErrorInfo::from_members(&members) {
            Ok(info) => Failure::Service(info.error),
            Err(e) => Failure::Decode(e),
        },
    }
}

/// The outcome of a domain lookup, from the response's status and the
/// members of its body (`None` where the body is not a JSON object).
pub fn domain_outcome(status: u16, parsed: Option<Vec<JsonMember>>) -> (r: Result<
    DomainInfo,
    Failure,
>)
    ensures
        result_view(r) == domain_outcome_of(status, parsed_view(parsed)),
{
    if !is_success(status) {
        return Err(service_failure(parsed));
    }
    match parsed {
        None => Err(Failure::Decode(DecodeError::NotAnObject)),
        Some(members) => match DomainInfo::from_members(&members) {
            Ok(d) => Ok(d),
            Err(e) => Err(Failure::Decode(e)),
        },
    }
}

/// The outcome of an email lookup, from the response's status and the
/// members of its body (`None` where the body is not a JSON object).
pub fn email_outcome(status: u16, parsed: Option<Vec<JsonMember>>) -> (r: Result<
    EmailInfo,
    Failure,
>)
    ensures
        result_view(r) == email_outcome_of(status, parsed_view(parsed)),
{
    if !is_success(status) {
        return Err(service_failure(parsed));
    }
    match parsed {
        None => Err(Failure::Decode(DecodeError::NotAnObject)),
        Some(members) => match EmailInfo::from_members(&members) {
            Ok(d) => Ok(d),
            Err(e) => Err(Failure::Decode(e)),
        },
    }
}

/// The outcome of a domain lookup, from the response's status and body.
pub fn domain_response(status: u16, body: &[u8]) -> (r: Result<DomainInfo, Failure>)
    ensures
        result_view(r) == domain_outcome_of(status, object_members_of(body@)),
{
    domain_outcome(status, parse_object(body))
}

/// The outcome of an email lookup, from the response's status and body.
pub fn email_response(status: u16, body: &[u8]) -> (r: Result<EmailInfo, Failure>)
    ensures
        result_view(r) == email_outcome_of(status, object_members_of(body@)),
{
    email_outcome(status, parse_object(body))
}

} // verus!
