//! The named members that the records read, and typed reads of them with the
//! reason a read fails.
use crate::json::{find_member, lookup, members_view, JsonMember, JsonTerm, JsonValue};
use vstd::prelude::*;

verus! {

/// A member that some record of the service reads.
#[derive(Debug, Clone, Copy, PartialEq, Eq, Structural)]
pub enum Field {
    Status,
    Domain,
    Email,
    Mx,
    Disposable,
    PublicDomain,
    Alias,
    DidYouMean,
    Error,
}

impl Field {
    /// The key of this member in a response body.
    pub open spec fn key(self) -> Seq<char> {
        match self {
            Field::Status => "status"@,
            Field::Domain => "domain"@,
            Field::Email => "email"@,
            Field::Mx => "mx"@,
            Field::Disposable => "disposable"@,
            Field::PublicDomain => "public_domain"@,
            Field::Alias => "alias"@,
            Field::DidYouMean => "did_you_mean"@,
            Field::Error => "error"@,
        }
    }

    pub fn name(self) -> (r: &'static str)
        ensures
            r@ == self.key(),
    {
        match self {
            Field::Status => "status",
            Field::Domain => "domain",
            Field::Email => "email",
            Field::Mx => "mx",
            Field::Disposable => "disposable",
            Field::PublicDomain => "public_domain",
            Field::Alias => "alias",
            Field::DidYouMean => "did_you_mean",
            Field::Error => "error",
        }
    }
}

/// Why a response body does not decode into the record it should hold.
#[derive(Debug, Clone, Copy, PartialEq, Eq, Structural)]
pub enum DecodeError {
    /// The body is not a JSON object.
    NotAnObject,
    /// A member that the record needs is absent.
    MissingField(Field),
    /// A member holds a value of the wrong kind, or a number out of range.
    InvalidField(Field),
}

impl View for DecodeError {
    type V = DecodeError;

    open spec fn view(&self) -> DecodeError {
        *self
    }
}

/// An outcome with each side seen through its view.
pub open spec fn result_view<T: View, E: View>(r: Result<T, E>) -> Result<T::V, E::V> {
    match r {
        Ok(t) => Ok(t@),
        Err(e) => Err(e@),
    }
}

/// A member that holds `true` or `false`.
pub open spec fn flag_of(ms: Seq<(Seq<char>, JsonTerm)>, f: Field) -> Result<bool, DecodeError> {
    match lookup(ms, f.key()) {
        Some(JsonTerm::Bool(b)) => Ok(b),
        Some(_) => Err(DecodeError::InvalidField(f)),
        None => Err(DecodeError::MissingField(f)),
    }
}

/// A member that holds a non-negative integer no greater than `max`.
pub open spec fn number_of(ms: Seq<(Seq<char>, JsonTerm)>, f: Field, max: u64) -> Result<
    u64,
    DecodeError,
> {
    match lookup(ms, f.key()) {
        Some(JsonTerm::Number(Some(n))) => if n <= max {
            Ok(n)
        } else {
            Err(DecodeError::InvalidField(f))
        },
        Some(_) => Err(DecodeError::InvalidField(f)),
        None => Err(DecodeError::MissingField(f)),
    }
}

/// A member that holds a string.
pub open spec fn text_of(ms: Seq<(Seq<char>, JsonTerm)>, f: Field) -> Result<
    Seq<char>,
    DecodeError,
> {
    match lookup(ms, f.key()) {
        Some(JsonTerm::Str(s)) => Ok(s),
        Some(_) => Err(DecodeError::InvalidField(f)),
        None => Err(DecodeError::MissingField(f)),
    }
}

/// A member that may be absent or `null`, and otherwise holds a string.
pub open spec fn optional_text_of(ms: Seq<(Seq<char>, JsonTerm)>, f: Field) -> Result<
    Option<Seq<char>>,
    DecodeError,
> {
    match lookup(ms, f.key()) {
        None => Ok(None),
        Some(JsonTerm::Null) => Ok(None),
        Some(JsonTerm::Str(s)) => Ok(Some(s)),
        Some(_) => Err(DecodeError::InvalidField(f)),
    }
}

/// A text that may be absent, seen as characters.
pub open spec fn opt_text(o: Option<String>) -> Option<Seq<char>> {
    match o {
        Some(s) => Some(s@),
        None => None,
    }
}

fn member<'a>(members: &'a Vec<JsonMember>, f: Field) -> (r: Option<&'a JsonValue>)
    ensures
        match lookup(members_view(members@), f.key()) {
            Some(t) => r matches Some(v) && v@ == t,
            None => r is None,
        },
{
    let key = String::from_str(f.name());
    find_member(members, &key)
}

pub fn read_flag(members: &Vec<JsonMember>, f: Field) -> (r: Result<bool, DecodeError>)
    ensures
        r == flag_of(members_view(members@), f),
{
    match member(members, f) {
        Some(JsonValue::Bool(b)) => Ok(*b),
        Some(_) => Err(DecodeError::InvalidField(f)),
        None => Err(DecodeError::MissingField(f)),
    }
}

pub fn read_number(members: &Vec<JsonMember>, f: Field, max: u64) -> (r: Result<
    u64,
    DecodeError,
>)
    ensures
        r == number_of(members_view(members@), f, max),
{
    match member(members, f) {
        Some(JsonValue::Number(Some(n))) => if *n <= max {
            Ok(*n)
        } else {
            Err(DecodeError::InvalidField(f))
        },
        Some(_) => Err(DecodeError::InvalidField(f)),
        None => Err(DecodeError::MissingField(f)),
    }
}

pub fn read_text(members: &Vec<JsonMember>, f: Field) -> (r: Result<String, DecodeError>)
    ensures
        result_view(r) == text_of(members_view(members@), f),
{
    match member(members, f) {
        Some(JsonValue::Str(s)) => Ok(s.clone()),
        Some(_) => Err(DecodeError::InvalidField(f)),
        None => Err(DecodeError::MissingField(f)),
    }
}

pub fn read_optional_text(members: &Vec<JsonMember>, f: Field) -> (r: Result<
    Option<String>,
    DecodeError,
>)
    ensures
        match optional_text_of(members_view(members@), f) {
            Ok(o) => r matches Ok(x) && opt_text(x) == o,
            Err(e) => r == Err::<Option<String>, DecodeError>(e),
        },
{
    match member(members, f) {
        None => Ok(None),
        Some(JsonValue::Null) => Ok(None),
        Some(JsonValue::Str(s)) => Ok(Some(s.clone())),
        Some(_) => Err(DecodeError::InvalidField(f)),
    }
}

} // verus!
