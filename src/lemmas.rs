//! What holds of every response: records are read back exactly, both
//! lookups fail alike on a failure status, and a body that lacks a needed
//! member never yields a record.
use crate::fields::{DecodeError, Field};
use crate::json::{lookup, JsonTerm};
use crate::records::{DomainInfoView, EmailInfoView, error_info_of};
use crate::response::{
    domain_outcome_of, email_outcome_of, is_success_status, service_failure_of, FailureView,
};
use vstd::prelude::*;

verus! {

/// The member that holds a suggestion is `null` or absent where there is
/// none, and holds the text otherwise.
pub open spec fn holds_suggestion(t: Option<JsonTerm>, s: Option<Seq<char>>) -> bool {
    match s {
        Some(text) => t == Some(JsonTerm::Str(text)),
        None => t is None || t == Some(JsonTerm::Null),
    }
}

/// Members `ms` hold each field of the domain record `d`.
pub open spec fn holds_domain_info(ms: Seq<(Seq<char>, JsonTerm)>, d: DomainInfoView) -> bool {
    &&& lookup(ms, Field::Status.key()) == Some(JsonTerm::Number(Some(d.status as u64)))
    &&& lookup(ms, Field::Domain.key()) == Some(JsonTerm::Str(d.domain))
    &&& lookup(ms, Field::Mx.key()) == Some(JsonTerm::Bool(d.mx))
    &&& lookup(ms, Field::Disposable.key()) == Some(JsonTerm::Bool(d.disposable))
    &&& lookup(ms, Field::PublicDomain.key()) == Some(JsonTerm::Bool(d.public_domain))
    &&& holds_suggestion(lookup(ms, Field::DidYouMean.key()), d.did_you_mean)
}

/// Members `ms` hold each field of the email record `e`.
pub open spec fn holds_email_info(ms: Seq<(Seq<char>, JsonTerm)>, e: EmailInfoView) -> bool {
    &&& lookup(ms, Field::Status.key()) == Some(JsonTerm::Number(Some(e.status as u64)))
    &&& lookup(ms, Field::Email.key()) == Some(JsonTerm::Str(e.email))
    &&& lookup(ms, Field::Domain.key()) == Some(JsonTerm::Str(e.domain))
    &&& lookup(ms, Field::Mx.key()) == Some(JsonTerm::Bool(e.mx))
    &&& lookup(ms, Field::Disposable.key()) == Some(JsonTerm::Bool(e.disposable))
    &&& lookup(ms, Field::PublicDomain.key()) == Some(JsonTerm::Bool(e.public_domain))
    &&& lookup(ms, Field::Alias.key()) == Some(JsonTerm::Bool(e.alias))
    &&& holds_suggestion(lookup(ms, Field::DidYouMean.key()), e.did_you_mean)
}

/// A domain lookup whose success body holds each field of a record returns
/// exactly that record, whatever other members the body has.
pub proof fn domain_info_read_exactly(status: u16, ms: Seq<(Seq<char>, JsonTerm)>, d: DomainInfoView)
    requires
        is_success_status(status),
        holds_domain_info(ms, d),
    ensures
        domain_outcome_of(status, Some(ms)) == Ok::<DomainInfoView, FailureView>(d),
{
}

/// An email lookup whose success body holds each field of a record returns
/// exactly that record, the alias flag included, whatever other members the
/// body has.
pub proof fn email_info_read_exactly(status: u16, ms: Seq<(Seq<char>, JsonTerm)>, e: EmailInfoView)
    requires
        is_success_status(status),
        holds_email_info(ms, e),
    ensures
        email_outcome_of(status, Some(ms)) == Ok::<EmailInfoView, FailureView>(e),
{
}

/// On a status outside the success range both lookups fail, with one and the
/// same failure; where the body is an error record it is the service's
/// message.
pub proof fn failure_status_fails_both(status: u16, parsed: Option<Seq<(Seq<char>, JsonTerm)>>)
    requires
        !is_success_status(status),
    ensures
        domain_outcome_of(status, parsed) == Err::<DomainInfoView, FailureView>(
            service_failure_of(parsed),
        ),
        email_outcome_of(status, parsed) == Err::<EmailInfoView, FailureView>(
            service_failure_of(parsed),
        ),
        match parsed {
            Some(ms) => match error_info_of(ms) {
                Ok(info) => service_failure_of(parsed) == FailureView::Service(info.error),
                Err(e) => service_failure_of(parsed) == FailureView::Decode(e),
            },
            None => service_failure_of(parsed) == FailureView::Decode(DecodeError::NotAnObject),
        },
{
}

/// A member that every domain record needs.
pub open spec fn needed_by_domain_info(f: Field) -> bool {
    f == Field::Status || f == Field::Domain || f == Field::Mx || f == Field::Disposable || f
        == Field::PublicDomain
}

/// A member that every email record needs.
pub open spec fn needed_by_email_info(f: Field) -> bool {
    f == Field::Status || f == Field::Email || f == Field::Domain || f == Field::Mx || f
        == Field::Disposable || f == Field::PublicDomain || f == Field::Alias
}

/// A success body that lacks a member the domain record needs makes the
/// lookup fail with a decode failure, never return a partial record.
pub proof fn domain_missing_member_fails(status: u16, ms: Seq<(Seq<char>, JsonTerm)>, f: Field)
    requires
        is_success_status(status),
        needed_by_domain_info(f),
        lookup(ms, f.key()) is None,
    ensures
        domain_outcome_of(status, Some(ms)) matches Err(FailureView::Decode(_)),
{
}

/// A success body that lacks a member the email record needs makes the
/// lookup fail with a decode failure, never return a partial record.
pub proof fn email_missing_member_fails(status: u16, ms: Seq<(Seq<char>, JsonTerm)>, f: Field)
    requires
        is_success_status(status),
        needed_by_email_info(f),
        lookup(ms, f.key()) is None,
    ensures
        email_outcome_of(status, Some(ms)) matches Err(FailureView::Decode(_)),
{
}

} // verus!
