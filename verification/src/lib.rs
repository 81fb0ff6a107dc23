//! Authentication and classification of inbound webhooks from a
//! source-hosting provider.
//!
//! A request is taken through one fixed pipeline: its required headers are
//! extracted, its content type and user agent are checked, its signature is
//! verified against the keyed hash of its body, and only then is its body
//! decoded with the schema that its event type selects. The first failure
//! ends the request and is one of a closed set of errors, each with its
//! status and a body that is safe to show.
//!
//! - [`api`]: the errors, the extraction of headers, the responses.
//! - [`signature`]: the keyed hash and the comparison in constant time.
//! - [`webhook`]: the pipeline, parameterised by a provider's profile.
//! - [`json`]: JSON documents and the reading of single members.
//! - [`forgejo`], [`github`]: the two providers, their profiles and payloads.
//! - [`laws`]: what holds of every request.
//! - [`text`]: comparisons of text.

pub mod api;
pub mod forgejo;
pub mod github;
pub mod json;
pub mod laws;
pub mod signature;
pub mod text;
pub mod webhook;
