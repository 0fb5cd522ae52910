//! Interactive shell assistant core: the session state machine that routes
//! keys, drives one streaming request per response slot and decides what is
//! written when the session ends, together with the pure pieces it relies on
//! (progress indicator, response accumulator, fenced code block extraction,
//! request composition and stream frame decoding).
pub mod code_blocks;
pub mod config;
pub mod context;
pub mod keys;
pub mod laws;
pub mod openai;
pub mod prompts;
pub mod progress;
pub mod response;
pub mod session;
pub mod text;
pub mod view;
