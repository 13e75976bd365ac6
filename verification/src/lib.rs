//! A boundary layer over a built-in text encoding engine.
//!
//! The library converts text into integer token sequences, converts token
//! sequences back to text, and renders structured multi-role conversations
//! into token sequences for a prompting format. Callers reach it through a
//! small set of operations that validate possibly-absent inputs, report
//! failures through an explicit result record, and hand every produced
//! buffer back as an owned value.

pub mod boundary;
pub mod chat;
pub mod encoding;

pub use boundary::{
    harmony_encoding_decode, harmony_encoding_encode_plain, harmony_encoding_new,
    harmony_encoding_render_prompt, harmony_encoding_stop_tokens, HarmonyEncodingWrapper,
    HarmonyResult, StreamableParserWrapper,
};
pub use chat::{Content, Conversation, Message, Role, SystemContent};
pub use encoding::{
    load_harmony_encoding, EngineError, HarmonyEncoding, HarmonyEncodingName, StreamableParser,
    Tokenizer, TOKEN_CALL, TOKEN_END, TOKEN_MESSAGE, TOKEN_RETURN, TOKEN_START,
};
