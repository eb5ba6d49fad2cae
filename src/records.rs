//! The records that the service returns, and how each is read from the
//! members of a response body.
use crate::fields::{
    flag_of, number_of, opt_text, optional_text_of, read_flag, read_number, read_optional_text,
    read_text, result_view, text_of, DecodeError, Field,
};
use crate::json::{members_view, JsonMember, JsonTerm};
use vstd::prelude::*;

verus! {

/// The service's verdict on a domain.
#[derive(Debug)]
pub struct DomainInfo {
    pub status: u8,
    pub domain: String,
    /// The domain has mail-exchange records.
    pub mx: bool,
    /// The domain belongs to a provider of throwaway addresses.
    pub disposable: bool,
    /// The domain belongs to a well-known public email provider.
    pub public_domain: bool,
    /// A suggested correction of the domain.
    pub did_you_mean: Option<String>,
}

pub struct DomainInfoView {
    pub status: u8,
    pub domain: Seq<char>,
    pub mx: bool,
    pub disposable: bool,
    pub public_domain: bool,
    pub did_you_mean: Option<Seq<char>>,
}

impl View for DomainInfo {
    type V = DomainInfoView;

    open spec fn view(&self) -> DomainInfoView {
        DomainInfoView {
            status: self.status,
            domain: self.domain@,
            mx: self.mx,
            disposable: self.disposable,
            public_domain: self.public_domain,
            did_you_mean: opt_text(self.did_you_mean),
        }
    }
}

/// The service's verdict on an email address.
#[derive(Debug)]
pub struct EmailInfo {
    pub status: u8,
    pub email: String,
    pub domain: String,
    pub mx: bool,
    pub disposable: bool,
    pub public_domain: bool,
    /// The address is a sub-address or forwarding alias of another mailbox.
    pub alias: bool,
    pub did_you_mean: Option<String>,
}

pub struct EmailInfoView {
    pub status: u8,
    pub email: Seq<char>,
    pub domain: Seq<char>,
    pub mx: bool,
    pub disposable: bool,
    pub public_domain: bool,
    pub alias: bool,
    pub did_you_mean: Option<Seq<char>>,
}

impl View for EmailInfo {
    type V = EmailInfoView;

    open spec fn view(&self) -> EmailInfoView {
        EmailInfoView {
            status: self.status,
            email: self.email@,
            domain: self.domain@,
            mx: self.mx,
            disposable: self.disposable,
            public_domain: self.public_domain,
            alias: self.alias,
            did_you_mean: opt_text(self.did_you_mean),
        }
    }
}

/// The body of a response that reports a failure.
#[derive(Debug)]
pub struct ErrorInfo {
    pub status: u16,
    /// The service's message.
    pub error: String,
}

pub struct ErrorInfoView {
    pub status: u16,
    pub error: Seq<char>,
}

impl View for ErrorInfo {
    type V = ErrorInfoView;

    open spec fn view(&self) -> ErrorInfoView {
        ErrorInfoView { status: self.status, error: self.error@ }
    }
}

/// The domain record that members `ms` hold; where several members are
/// wrong, the first of the record's fields that is wrong is reported.
pub open spec fn domain_info_of(ms: Seq<(Seq<char>, JsonTerm)>) -> Result<
    DomainInfoView,
    DecodeError,
> {
    match (
        number_of(ms, Field::Status, 255),
        text_of(ms, Field::Domain),
        flag_of(ms, Field::Mx),
        flag_of(ms, Field::Disposable),
        flag_of(ms, Field::PublicDomain),
        optional_text_of(ms, Field::DidYouMean),
    ) {
        (Ok(status), Ok(domain), Ok(mx), Ok(disposable), Ok(public_domain), Ok(did_you_mean)) => Ok(
            DomainInfoView {
                status: status as u8,
                domain,
                mx,
                disposable,
                public_domain,
                did_you_mean,
            },
        ),
        (Err(e), _, _, _, _, _) => Err(e),
        (_, Err(e), _, _, _, _) => Err(e),
        (_, _, Err(e), _, _, _) => Err(e),
        (_, _, _, Err(e), _, _) => Err(e),
        (_, _, _, _, Err(e), _) => Err(e),
        (_, _, _, _, _, Err(e)) => Err(e),
    }
}

/// The email record that members `ms` hold; where several members are
/// wrong, the first of the record's fields that is wrong is reported.
pub open spec fn email_info_of(ms: Seq<(Seq<char>, JsonTerm)>) -> Result<
    EmailInfoView,
    DecodeError,
> {
    match (
        number_of(ms, Field::Status, 255),
        text_of(ms, Field::Email),
        text_of(ms, Field::Domain),
        flag_of(ms, Field::Mx),
        flag_of(ms, Field::Disposable),
        flag_of(ms, Field::PublicDomain),
        flag_of(ms, Field::Alias),
        optional_text_of(ms, Field::DidYouMean),
    ) {
        (
            Ok(status),
            Ok(email),
            Ok(domain),
            Ok(mx),
            Ok(disposable),
            Ok(public_domain),
            Ok(alias),
            Ok(did_you_mean),
        ) => Ok(
            EmailInfoView {
                status: status as u8,
                email,
                domain,
                mx,
                disposable,
                public_domain,
                alias,
                did_you_mean,
            },
        ),
        (Err(e), _, _, _, _, _, _, _) => Err(e),
        (_, Err(e), _, _, _, _, _, _) => Err(e),
        (_, _, Err(e), _, _, _, _, _) => Err(e),
        (_, _, _, Err(e), _, _, _, _) => Err(e),
        (_, _, _, _, Err(e), _, _, _) => Err(e),
        (_, _, _, _, _, Err(e), _, _) => Err(e),
        (_, _, _, _, _, _, Err(e), _) => Err(e),
        (_, _, _, _, _, _, _, Err(e)) => Err(e),
    }
}

/// The error record that members `ms` hold.
pub open spec fn error_info_of(ms: Seq<(Seq<char>, JsonTerm)>) -> Result<
    ErrorInfoView,
    DecodeError,
> {
    match (number_of(ms, Field::Status, 65535), text_of(ms, Field::Error)) {
        (Ok(status), Ok(error)) => Ok(ErrorInfoView { status: status as u16, error }),
        (Err(e), _) => Err(e),
        (_, Err(e)) => Err(e),
    }
}

impl DomainInfo {
    /// Reads a domain record from the members of a response body.
    pub fn from_members(members: &Vec<JsonMember>) -> (r: Result<DomainInfo, DecodeError>)
        ensures
            result_view(r) == domain_info_of(members_view(members@)),
    {
        let status = match read_number(members, Field::Status, 255) {
            Ok(n) => n as u8,
            Err(e) => return Err(e),
        };
        let domain = match read_text(members, Field::Domain) {
            Ok(s) => s,
            Err(e) => return Err(e),
        };
        let mx = match read_flag(members, Field::Mx) {
            Ok(b) => b,
            Err(e) => return Err(e),
        };
        let disposable = match read_flag(members, Field::Disposable) {
            Ok(b) => b,
            Err(e) => return Err(e),
        };
        let public_domain = match read_flag(members, Field::PublicDomain) {
            Ok(b) => b,
            Err(e) => return Err(e),
        };
        let did_you_mean = match read_optional_text(members, Field::DidYouMean) {
            Ok(o) => o,
            Err(e) => return Err(e),
        };
        Ok(DomainInfo { status, domain, mx, disposable, public_domain, did_you_mean })
    }
}

impl EmailInfo {
    /// Reads an email record from the members of a response body.
    pub fn from_members(members: &Vec<JsonMember>) -> (r: Result<EmailInfo, DecodeError>)
        ensures
            result_view(r) == email_info_of(members_view(members@)),
    {
        let status = match read_number(members, Field::Status, 255) {
            Ok(n) => n as u8,
            Err(e) => return Err(e),
        };
        let email = match read_text(members, Field::Email) {
            Ok(s) => s,
            Err(e) => return Err(e),
        };
        let domain = match read_text(members, Field::Domain) {
            Ok(s) => s,
            Err(e) => return Err(e),
        };
        let mx = match read_flag(members, Field::Mx) {
            Ok(b) => b,
            Err(e) => return Err(e),
        };
        let disposable = match read_flag(members, Field::Disposable) {
            Ok(b) => b,
            Err(e) => return Err(e),
        };
        let public_domain = match read_flag(members, Field::PublicDomain) {
            Ok(b) => b,
            Err(e) => return Err(e),
        };
        let alias = match read_flag(members, Field::Alias) {
            Ok(b) => b,
            Err(e) => return Err(e),
        };
        let did_you_mean = match read_optional_text(members, Field::DidYouMean) {
            Ok(o) => o,
            Err(e) => return Err(e),
        };
        Ok(EmailInfo { status, email, domain, mx, disposable, public_domain, alias, did_you_mean })
    }
}

impl ErrorInfo {
    /// Reads an error record from the members of a response body.
    pub fn from_members(members: &Vec<JsonMember>) -> (r: Result<ErrorInfo, DecodeError>)
        ensures
            result_view(r) == error_info_of(members_view(members@)),
    {
        let status = match read_number(members, Field::Status, 65535) {
            Ok(n) => n as u16,
            Err(e) => return Err(e),
        };
        let error = match read_text(members, Field::Error) {
            Ok(s) => s,
            Err(e) => return Err(e),
        };
        Ok(ErrorInfo { status, error })
    }
}

} // verus!
