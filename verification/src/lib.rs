//! Verified conversions between the Responses API and the Chat Completions API.
//!
//! A gateway that speaks the Responses API to its clients and the Chat Completions API to its
//! backends converts twice for each request: [`request::responses_to_chat`] turns what the client
//! sent into a chat request, and [`response::chat_to_responses`] turns what the backend answered
//! into a response.
//!
//! Contracts speak of the `deep_view` of a value: its model, with characters and sequences in
//! place of strings and vectors.

pub mod content;
pub mod content_laws;
pub mod fidelity;
pub mod laws;
pub mod protocols;
pub mod request;
pub mod request_laws;
pub mod response;
pub mod response_laws;
pub mod text;
pub mod tools;
