//! Backend logic for a desktop prompt-running application: vendor dispatch
//! and request bodies for three streaming completion endpoints, framing and
//! decoding of their event streams, pattern template listing, and transcript
//! retrieval. The filesystem, network and subprocess boundaries stay with
//! the caller, which hands plain values in and takes plain values back.
pub mod extract;
pub mod httperr;
pub mod jsonval;
pub mod patterns;
pub mod payload;
pub mod sse;
pub mod strutil;
pub mod vendor;
pub mod youtube;
