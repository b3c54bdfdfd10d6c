//! Client-side building blocks for the Wit.ai HTTP API.
//!
//! The heart of the crate is the incremental JSON frame extractor in [`json`]:
//! it splits an arbitrarily chunked response body into complete top-level
//! JSON objects, in order, keeping any trailing partial object for later.
//! Around it stand the request models (queries, entities, voices) and the
//! event types that the streaming endpoints produce.

/// The thin client value holding the bearer token.
pub mod client;
/// Constants shared by the request builders.
pub mod constants;
/// Trusted views into JSON text.
pub mod decode;
/// The dictation endpoint's query and streaming events.
pub mod dictation;
/// Dynamic entities and their JSON rendering.
pub mod entities;
/// Error types shared by every endpoint.
pub mod error;
/// The incremental JSON frame extractor and its laws.
pub mod json;
/// Queries for the message endpoint.
pub mod message;
/// The server-side client and entity management data.
pub mod server;
/// The speech endpoint's query and streaming events.
pub mod speech;
/// Text-to-speech synthesis parameters and codecs.
pub mod synthesize;
/// The accumulation buffer behind both consumption modes.
pub mod stream;
/// Verified text utilities.
pub mod text;
/// Trusted items around URL construction.
pub mod urls;
/// Resolved values the API sends back for entities.
pub mod values;
/// Voices for text-to-speech synthesis.
pub mod voice;
/// The compact voice listing.
pub mod voices;
