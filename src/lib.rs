//! Problem details for HTTP APIs (RFC 7807): a data model with a fixed set
//! of members plus open extension members, and its JSON object form.

pub mod extensions;
pub mod json;
pub mod laws;
pub mod problem;
pub mod status;

pub use problem::{
    DecodeError, EncodeError, HttpApiProblem, ProblemView, PROBLEM_JSON_MEDIA_TYPE,
    STATUS_TYPE_URL_PREFIX,
};
pub use status::{InvalidStatusCode, StatusCode};
