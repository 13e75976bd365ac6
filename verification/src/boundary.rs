//! The boundary operations: handle creation, input validation, delegation
//! to the engine, and the success/failure record that every data-returning
//! operation yields.
//!
//! Absent inputs stand for the null pointers an outside caller may hand in:
//! every operation checks them before touching the engine.

use vstd::prelude::*;
use vstd::string::StringExecFns;

use crate::chat::{Content, Conversation, Message, Role, SpecMessage, SystemContent};
use crate::encoding::{
    load_harmony_encoding, spec_decodable, spec_decode, spec_encode, spec_render,
    spec_stop_tokens, HarmonyEncoding, HarmonyEncodingName, StreamableParser,
};

verus! {

/// Opaque owner of one loaded encoding. Callers hold it only as a handle;
/// releasing it is dropping it, and a dropped handle cannot be used again.
pub struct HarmonyEncodingWrapper {
    encoding: HarmonyEncoding,
}

/// Opaque owner of one streaming parser. Held for future streaming
/// functionality; no boundary operation reaches it yet.
pub struct StreamableParserWrapper {
    #[allow(dead_code)]
    parser: StreamableParser,
}

/// Success/failure record of an operation that returns its data through
/// output parameters. On failure it carries an owned diagnostic; on success
/// it carries nothing.
pub struct HarmonyResult {
    pub success: bool,
    pub error_message: Option<String>,
}

impl HarmonyResult {
    /// A success record carrying no diagnostic.
    pub fn ok() -> (r: HarmonyResult)
        ensures
            r.success,
            r.error_message is None,
    {
        HarmonyResult { success: true, error_message: None }
    }

    /// A failure record carrying the diagnostic.
    pub fn err(msg: String) -> (r: HarmonyResult)
        ensures
            !r.success,
            r.error_message == Some(msg),
    {
        HarmonyResult { success: false, error_message: Some(msg) }
    }
}

/// Creates a handle owning one freshly loaded default encoding. An absent
/// result would mean the load failed; the built-in encoding always loads.
pub fn harmony_encoding_new() -> (r: Option<HarmonyEncodingWrapper>)
    ensures
        r is Some,
{
    match load_harmony_encoding(HarmonyEncodingName::HarmonyGptOss) {
        Some(encoding) => Some(HarmonyEncodingWrapper { encoding }),
        None => None,
    }
}

/// The text of an optional borrowed string, when present.
pub open spec fn opt_text(o: Option<&str>) -> Option<Seq<char>> {
    match o {
        Some(s) => Some(s@),
        None => None,
    }
}

/// The messages a prompt is assembled from: an optional system message
/// carrying its text as the model identity, the mandatory user message, and
/// an optional assistant continuation. Empty optional fields count as
/// absent, not as present with empty content.
pub open spec fn spec_prompt_messages(
    system: Option<Seq<char>>,
    user: Seq<char>,
    assistant: Option<Seq<char>>,
) -> Seq<SpecMessage> {
    let head: Seq<SpecMessage> = match system {
        Some(s) => if s.len() > 0 {
            seq![SpecMessage { role: Role::System, text: s }]
        } else {
            Seq::empty()
        },
        None => Seq::empty(),
    };
    let tail: Seq<SpecMessage> = match assistant {
        Some(s) => if s.len() > 0 {
            seq![SpecMessage { role: Role::Assistant, text: s }]
        } else {
            Seq::empty()
        },
        None => Seq::empty(),
    };
    head + seq![SpecMessage { role: Role::User, text: user }] + tail
}

/// Tokenizes text with no structural markup. An absent handle or absent
/// text is an invalid-input failure reported through the record, and no
/// buffer is produced; an empty string is valid and yields an empty buffer.
pub fn harmony_encoding_encode_plain(
    wrapper: Option<&HarmonyEncodingWrapper>,
    text: Option<&str>,
) -> (r: (HarmonyResult, Option<Vec<u32>>))
    ensures
        r.0.success <==> (wrapper is Some && text is Some),
        r.0.success <==> r.0.error_message is None,
        r.0.success <==> r.1 is Some,
        wrapper is None ==> (r.0.error_message matches Some(m) && m@ == "Null encoding wrapper"@),
        (wrapper is Some && text is None) ==> (r.0.error_message matches Some(m) && m@
            == "Null text"@),
        (wrapper is Some && text is Some) ==> (r.1 matches Some(tokens) && tokens@ == spec_encode(
            (text->0)@,
        )),
{
    let w = match wrapper {
        Some(w) => w,
        None => {
            return (HarmonyResult::err("Null encoding wrapper".to_owned()), None);
        },
    };
    let t = match text {
        Some(t) => t,
        None => {
            return (HarmonyResult::err("Null text".to_owned()), None);
        },
    };
    let tokens = w.encoding.tokenizer.encode_ordinary(t);
    (HarmonyResult::ok(), Some(tokens))
}

/// Renders a prompt assembled from at most one system message, exactly one
/// user message and at most one assistant continuation. An absent handle or
/// absent user text is an invalid-input failure; with both present the call
/// succeeds and yields a non-empty buffer.
pub fn harmony_encoding_render_prompt(
    wrapper: Option<&HarmonyEncodingWrapper>,
    system_msg: Option<&str>,
    user_msg: Option<&str>,
    assistant_prefix: Option<&str>,
) -> (r: (HarmonyResult, Option<Vec<u32>>))
    ensures
        r.0.success <==> (wrapper is Some && user_msg is Some),
        r.0.success <==> r.0.error_message is None,
        r.0.success <==> r.1 is Some,
        wrapper is None ==> (r.0.error_message matches Some(m) && m@ == "Null encoding wrapper"@),
        (wrapper is Some && user_msg is None) ==> (r.0.error_message matches Some(m) && m@
            == "Null user message"@),
        (wrapper is Some && user_msg is Some) ==> (r.1 matches Some(t) && t@ == spec_render(
            spec_prompt_messages(opt_text(system_msg), (user_msg->0)@, opt_text(assistant_prefix)),
        ) && t@.len() > 0),
{
    let w = match wrapper {
        Some(w) => w,
        None => {
            return (HarmonyResult::err("Null encoding wrapper".to_owned()), None);
        },
    };
    let mut messages: Vec<Message> = Vec::new();
    if let Some(s) = system_msg {
        if !s.is_empty() {
            let system_content = SystemContent::new().with_model_identity(s);
            messages.push(Message::from_role_and_content(
                Role::System,
                Content::System(system_content),
            ));
        }
    }
    let u = match user_msg {
        Some(u) => u,
        None => {
            return (HarmonyResult::err("Null user message".to_owned()), None);
        },
    };
    messages.push(Message::from_role_and_content(Role::User, Content::Text(u.to_owned())));
    if let Some(a) = assistant_prefix {
        if !a.is_empty() {
            messages.push(Message::from_role_and_content(
                Role::Assistant,
                Content::Text(a.to_owned()),
            ));
        }
    }
    let conversation = Conversation::from_messages(messages);
    proof {
        assert(conversation@ =~= spec_prompt_messages(
            opt_text(system_msg),
            u@,
            opt_text(assistant_prefix),
        ));
    }
    match w.encoding.render_conversation(&conversation) {
        Ok(tokens) => {
            proof {
                crate::encoding::lemma_render_nonempty(conversation@);
            }
            (HarmonyResult::ok(), Some(tokens))
        },
        Err(e) => {
            // The conversation always holds the mandatory user message, so
            // the engine cannot reject it; this arm only mirrors the
            // engine's fallible interface.
            proof {
                assert(false);
            }
            (
                HarmonyResult::err(
                    "Failed to render conversation: ".to_owned().concat(e.message().as_str()),
                ),
                None,
            )
        },
    }
}

/// Converts a token sequence back into text. Every failure — an absent
/// handle, an absent token sequence, a token the encoding cannot decode —
/// collapses to an absent result with no diagnostic: this operation's
/// single return slot is already the payload slot. An empty sequence is
/// valid and yields an empty string.
pub fn harmony_encoding_decode(
    wrapper: Option<&HarmonyEncodingWrapper>,
    tokens: Option<&Vec<u32>>,
) -> (r: Option<String>)
    ensures
        r is Some <==> (wrapper is Some && tokens is Some && spec_decodable((tokens->0)@)),
        (tokens is Some && r is Some) ==> (r->0)@ == spec_decode((tokens->0)@),
{
    let w = match wrapper {
        Some(w) => w,
        None => {
            return None;
        },
    };
    let ts = match tokens {
        Some(ts) => ts,
        None => {
            return None;
        },
    };
    match w.encoding.tokenizer.decode(ts) {
        Ok(s) => Some(s),
        Err(_) => None,
    }
}

/// Retrieves the fixed stop tokens of the handle's encoding. An absent
/// handle is an invalid-input failure; with a handle the call always
/// succeeds, and every call returns the same non-empty sequence.
pub fn harmony_encoding_stop_tokens(wrapper: Option<&HarmonyEncodingWrapper>) -> (r: (
    HarmonyResult,
    Option<Vec<u32>>,
))
    ensures
        r.0.success <==> wrapper is Some,
        r.0.success <==> r.0.error_message is None,
        r.0.success <==> r.1 is Some,
        wrapper is None ==> (r.0.error_message matches Some(m) && m@ == "Null encoding wrapper"@),
        wrapper is Some ==> (r.1 matches Some(t) && t@ == spec_stop_tokens() && t@.len() > 0),
{
    let w = match wrapper {
        Some(w) => w,
        None => {
            return (HarmonyResult::err("Null encoding wrapper".to_owned()), None);
        },
    };
    let tokens = w.encoding.stop_tokens();
    (HarmonyResult::ok(), Some(tokens))
}

} // verus!
