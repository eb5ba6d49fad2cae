//! Client-side logic for a domain and email validation web service: the
//! requests it sends, and how each response is turned into a record or a
//! failure.
pub mod client;
pub mod fields;
pub mod json;
pub mod lemmas;
pub mod records;
pub mod response;

pub use client::{HttpRequest, UserCheckClient};
pub use records::{DomainInfo, EmailInfo, ErrorInfo};
pub use response::Failure;
