//! The built-in encoding engine: a character-level tokenizer, the prompt
//! rendering rules, and the fixed stop tokens.
//!
//! Every character is one token carrying its Unicode scalar value; the
//! structural tokens of the prompt format sit above the character range, so
//! no text can collide with them.

use vstd::prelude::*;
use vstd::string::StrSliceExecFns;
use vstd::string::StringExecFns;

use crate::chat::{Conversation, Role, SpecMessage};

verus! {

/// Marks the start of a rendered message.
pub const TOKEN_START: u32 = 0x110000;

/// Separates a rendered message's header from its content.
pub const TOKEN_MESSAGE: u32 = 0x110001;

/// Marks the end of a rendered message.
pub const TOKEN_END: u32 = 0x110002;

/// Stop token: the response is complete.
pub const TOKEN_RETURN: u32 = 0x110003;

/// Stop token: the response ends in a call to be performed.
pub const TOKEN_CALL: u32 = 0x110004;

/// A token carrying one character: any Unicode scalar value.
pub open spec fn is_char_token(t: u32) -> bool {
    t < 0xD800 || (0xE000 <= t && t <= 0x10FFFF)
}

/// A structural token of the prompt format.
pub open spec fn is_special_token(t: u32) -> bool {
    t == TOKEN_START || t == TOKEN_MESSAGE || t == TOKEN_END || t == TOKEN_RETURN || t
        == TOKEN_CALL
}

/// A token the encoding can decode.
pub open spec fn token_decodable(t: u32) -> bool {
    is_char_token(t) || is_special_token(t)
}

/// The tokens of text with no structural markup: one per character.
pub open spec fn spec_encode(text: Seq<char>) -> Seq<u32> {
    text.map_values(|c: char| c as u32)
}

/// The marker text a structural token decodes to.
pub open spec fn special_text(t: u32) -> Seq<char>
    recommends
        is_special_token(t),
{
    if t == TOKEN_START {
        "<|start|>"@
    } else if t == TOKEN_MESSAGE {
        "<|message|>"@
    } else if t == TOKEN_END {
        "<|end|>"@
    } else if t == TOKEN_RETURN {
        "<|return|>"@
    } else {
        "<|call|>"@
    }
}

/// The text one token decodes to.
pub open spec fn token_text(t: u32) -> Seq<char>
    recommends
        token_decodable(t),
{
    if is_special_token(t) {
        special_text(t)
    } else {
        seq![t as char]
    }
}

/// Whether every token of the sequence can be decoded.
pub open spec fn spec_decodable(tokens: Seq<u32>) -> bool {
    forall|i: int| 0 <= i < tokens.len() ==> token_decodable(#[trigger] tokens[i])
}

/// The text a decodable token sequence decodes to.
pub open spec fn spec_decode(tokens: Seq<u32>) -> Seq<char>
    recommends
        spec_decodable(tokens),
    decreases tokens.len(),
{
    if tokens.len() == 0 {
        Seq::empty()
    } else {
        spec_decode(tokens.drop_last()) + token_text(tokens.last())
    }
}

/// The fixed tokens that signal generation should halt.
pub open spec fn spec_stop_tokens() -> Seq<u32> {
    seq![TOKEN_RETURN, TOKEN_CALL]
}

/// The name of a role under the prompt format.
pub open spec fn spec_role_text(r: Role) -> Seq<char> {
    match r {
        Role::System => "system"@,
        Role::User => "user"@,
        Role::Assistant => "assistant"@,
    }
}

/// The tokens of one rendered message: start token, role name, separator,
/// content, end token.
pub open spec fn spec_render_message(m: SpecMessage) -> Seq<u32> {
    seq![TOKEN_START] + spec_encode(spec_role_text(m.role)) + seq![TOKEN_MESSAGE] + spec_encode(
        m.text,
    ) + seq![TOKEN_END]
}

/// The tokens of a rendered conversation: its messages rendered in order.
pub open spec fn spec_render(msgs: Seq<SpecMessage>) -> Seq<u32>
    decreases msgs.len(),
{
    if msgs.len() == 0 {
        Seq::empty()
    } else {
        spec_render(msgs.drop_last()) + spec_render_message(msgs.last())
    }
}

/// Relies on char::from_u32: returns `Some` exactly when the value is a
/// Unicode scalar value (at most 0x10FFFF and outside the surrogate range
/// 0xD800..=0xDFFF), carrying the character with that value.
#[verifier::external_body]
fn char_from_u32(u: u32) -> (r: Option<char>)
    ensures
        r == (if is_char_token(u) {
            Some(u as char)
        } else {
            None::<char>
        }),
{
    char::from_u32(u)
}

/// Relies on String::push: appends the one character at the end.
#[verifier::external_body]
fn push_char(s: &mut String, c: char)
    ensures
        final(s)@ == old(s)@.push(c),
{
    s.push(c);
}

impl Role {
    /// The role's name under the prompt format.
    pub fn as_str(&self) -> (s: &'static str)
        ensures
            s@ == spec_role_text(*self),
    {
        match self {
            Role::System => "system",
            Role::User => "user",
            Role::Assistant => "assistant",
        }
    }
}

/// Why the engine rejected a request.
#[derive(Clone, Copy, PartialEq, Eq, Structural, Debug)]
pub enum EngineError {
    /// A token outside the encoding's vocabulary cannot be decoded.
    InvalidToken,
    /// A conversation with no messages is structurally invalid.
    EmptyConversation,
}

/// The diagnostic text of an engine error.
pub open spec fn spec_engine_error_text(e: EngineError) -> Seq<char> {
    match e {
        EngineError::InvalidToken => "token outside the encoding's vocabulary"@,
        EngineError::EmptyConversation => "conversation has no messages"@,
    }
}

impl EngineError {
    /// A human-readable description of the failure.
    pub fn message(&self) -> (s: String)
        ensures
            s@ == spec_engine_error_text(*self),
    {
        match self {
            EngineError::InvalidToken => "token outside the encoding's vocabulary".to_owned(),
            EngineError::EmptyConversation => "conversation has no messages".to_owned(),
        }
    }
}

/// The built-in tokenizer: one token per character, plus the structural
/// tokens above the character range.
pub struct Tokenizer {}

impl Tokenizer {
    /// Tokenizes text with no structural markup: one token per character.
    pub fn encode_ordinary(&self, text: &str) -> (tokens: Vec<u32>)
        ensures
            tokens@ == spec_encode(text@),
    {
        let n: usize = text.unicode_len();
        let mut tokens: Vec<u32> = Vec::new();
        let mut i: usize = 0;
        while i < n
            invariant
                n == text@.len(),
                i <= n,
                tokens@ == spec_encode(text@.take(i as int)),
            decreases n - i,
        {
            let c = text.get_char(i);
            tokens.push(c as u32);
            proof {
                assert(spec_encode(text@.take(i + 1)) =~= spec_encode(text@.take(i as int)).push(
                    c as u32,
                ));
            }
            i = i + 1;
        }
        proof {
            assert(text@.take(n as int) =~= text@);
        }
        tokens
    }

    /// Converts a token sequence back into text. Structural tokens decode to
    /// their marker text; any other token outside the character range fails
    /// the whole call.
    pub fn decode(&self, tokens: &Vec<u32>) -> (r: Result<String, EngineError>)
        ensures
            r is Ok <==> spec_decodable(tokens@),
            r matches Ok(s) ==> s@ == spec_decode(tokens@),
            r matches Err(e) ==> e == EngineError::InvalidToken,
    {
        let mut out = String::new();
        let n = tokens.len();
        let mut i: usize = 0;
        while i < n
            invariant
                n == tokens@.len(),
                i <= n,
                spec_decodable(tokens@.take(i as int)),
                out@ == spec_decode(tokens@.take(i as int)),
            decreases n - i,
        {
            let t = tokens[i];
            let ghost prefix = out@;
            if t == TOKEN_START {
                out.append("<|start|>");
            } else if t == TOKEN_MESSAGE {
                out.append("<|message|>");
            } else if t == TOKEN_END {
                out.append("<|end|>");
            } else if t == TOKEN_RETURN {
                out.append("<|return|>");
            } else if t == TOKEN_CALL {
                out.append("<|call|>");
            } else {
                match char_from_u32(t) {
                    Some(c) => {
                        push_char(&mut out, c);
                        proof {
                            assert(out@ =~= prefix + token_text(t));
                        }
                    },
                    None => {
                        proof {
                            assert(!token_decodable(tokens@[i as int]));
                            assert(!spec_decodable(tokens@));
                        }
                        return Err(EngineError::InvalidToken);
                    },
                }
            }
            proof {
                assert(token_decodable(t));
                assert(out@ == prefix + token_text(t));
                assert(tokens@.take(i + 1).drop_last() =~= tokens@.take(i as int));
                assert(tokens@.take(i + 1).last() == t);
                assert(spec_decode(tokens@.take(i + 1)) == spec_decode(tokens@.take(i as int))
                    + token_text(t));
                assert forall|j: int| 0 <= j < i + 1 implies token_decodable(
                    #[trigger] tokens@.take(i + 1)[j],
                ) by {
                    if j < i {
                        assert(tokens@.take(i + 1)[j] == tokens@.take(i as int)[j]);
                    }
                }
            }
            i = i + 1;
        }
        proof {
            assert(tokens@.take(n as int) =~= tokens@);
        }
        Ok(out)
    }
}

/// The encodings this library can load.
#[derive(Clone, Copy, PartialEq, Eq, Structural, Debug)]
pub enum HarmonyEncodingName {
    HarmonyGptOss,
}

/// A loaded encoding: the tokenizer together with the prompt-format rules.
pub struct HarmonyEncoding {
    pub tokenizer: Tokenizer,
}

/// Loads the named encoding. The built-in encoding needs no external asset,
/// so loading always succeeds; the optional return keeps the boundary's
/// create-or-nothing shape.
pub fn load_harmony_encoding(name: HarmonyEncodingName) -> (r: Option<HarmonyEncoding>)
    ensures
        r is Some,
{
    match name {
        HarmonyEncodingName::HarmonyGptOss => Some(HarmonyEncoding { tokenizer: Tokenizer {  } }),
    }
}

/// Appends every element of `src` to `out`, in order.
fn push_all(out: &mut Vec<u32>, src: &Vec<u32>)
    ensures
        final(out)@ == old(out)@ + src@,
{
    let n = src.len();
    let mut i: usize = 0;
    while i < n
        invariant
            n == src@.len(),
            i <= n,
            out@ == old(out)@ + src@.take(i as int),
        decreases n - i,
    {
        out.push(src[i]);
        proof {
            assert(old(out)@ + src@.take(i + 1) =~= (old(out)@ + src@.take(i as int)).push(
                src@[i as int],
            ));
        }
        i = i + 1;
    }
    proof {
        assert(old(out)@ + src@.take(n as int) =~= old(out)@ + src@);
    }
}

impl HarmonyEncoding {
    /// Renders a conversation into tokens, each message in order as the
    /// start token, the role's name, the separator, the content and the end
    /// token. Rejects a conversation with no messages as structurally
    /// invalid.
    pub fn render_conversation(&self, conversation: &Conversation) -> (r: Result<
        Vec<u32>,
        EngineError,
    >)
        ensures
            conversation@.len() > 0 ==> (r matches Ok(t) && t@ == spec_render(conversation@)),
            conversation@.len() == 0 ==> (r matches Err(e) && e == EngineError::EmptyConversation),
    {
        let n = conversation.messages.len();
        if n == 0 {
            return Err(EngineError::EmptyConversation);
        }
        let mut out: Vec<u32> = Vec::new();
        let mut i: usize = 0;
        while i < n
            invariant
                n == conversation.messages@.len(),
                n == conversation@.len(),
                i <= n,
                out@ == spec_render(conversation@.take(i as int)),
            decreases n - i,
        {
            let m = &conversation.messages[i];
            let ghost prefix = out@;
            out.push(TOKEN_START);
            let role_tokens = self.tokenizer.encode_ordinary(m.role.as_str());
            push_all(&mut out, &role_tokens);
            out.push(TOKEN_MESSAGE);
            let content_tokens = self.tokenizer.encode_ordinary(m.content_str());
            push_all(&mut out, &content_tokens);
            out.push(TOKEN_END);
            proof {
                assert(conversation@[i as int] == conversation.messages@[i as int]@);
                assert(out@ =~= prefix + spec_render_message(conversation@[i as int]));
                assert(conversation@.take(i + 1).drop_last() =~= conversation@.take(i as int));
                assert(conversation@.take(i + 1).last() == conversation@[i as int]);
                assert(spec_render(conversation@.take(i + 1)) == spec_render(conversation@.take(
                    i as int,
                )) + spec_render_message(conversation@[i as int]));
            }
            i = i + 1;
        }
        proof {
            assert(conversation@.take(n as int) =~= conversation@);
        }
        Ok(out)
    }

    /// The fixed tokens that signal generation should halt for this
    /// encoding.
    pub fn stop_tokens(&self) -> (r: Vec<u32>)
        ensures
            r@ == spec_stop_tokens(),
    {
        let mut out: Vec<u32> = Vec::new();
        out.push(TOKEN_RETURN);
        out.push(TOKEN_CALL);
        proof {
            assert(out@ =~= spec_stop_tokens());
        }
        out
    }
}

/// Incremental consumer of a token stream; held for future streaming
/// support, the boundary does not yet operate on it.
pub struct StreamableParser {
    tokens: Vec<u32>,
}

impl View for StreamableParser {
    type V = Seq<u32>;

    closed spec fn view(&self) -> Seq<u32> {
        self.tokens@
    }
}

impl StreamableParser {
    /// A parser that has consumed nothing yet.
    pub fn new() -> (p: StreamableParser)
        ensures
            p@ == Seq::<u32>::empty(),
    {
        StreamableParser { tokens: Vec::new() }
    }

    /// Consumes one token.
    pub fn process(&mut self, token: u32)
        ensures
            final(self)@ == old(self)@.push(token),
    {
        self.tokens.push(token);
    }

    /// The tokens consumed so far, in order.
    pub fn tokens(&self) -> (r: &Vec<u32>)
        ensures
            r@ == self@,
    {
        &self.tokens
    }
}

/// The token of one character is a character token, is no structural token,
/// and decodes back to the character.
pub proof fn lemma_char_token(c: char)
    ensures
        is_char_token(c as u32),
        !is_special_token(c as u32),
        (c as u32) as char == c,
        token_text(c as u32) == seq![c],
{
    assert(token_text(c as u32) =~= seq![c]);
}

/// Law: every token of a plain encoding can be decoded.
pub proof fn lemma_encode_plain_decodable(text: Seq<char>)
    ensures
        spec_decodable(spec_encode(text)),
{
    assert forall|i: int| 0 <= i < spec_encode(text).len() implies token_decodable(
        #[trigger] spec_encode(text)[i],
    ) by {
        lemma_char_token(text[i]);
        assert(spec_encode(text)[i] == text[i] as u32);
    }
}

/// Law: decoding an unformatted encoding of any text reproduces the text
/// exactly. Plain encoding produces only character tokens, never the
/// structural ones, and each character token decodes back to its character.
pub proof fn lemma_decode_encode_round_trip(text: Seq<char>)
    ensures
        spec_decodable(spec_encode(text)),
        spec_decode(spec_encode(text)) == text,
    decreases text.len(),
{
    lemma_encode_plain_decodable(text);
    if text.len() == 0 {
        assert(spec_encode(text) =~= Seq::<u32>::empty());
        assert(spec_decode(spec_encode(text)) =~= text);
    } else {
        lemma_decode_encode_round_trip(text.drop_last());
        let c = text.last();
        let t = spec_encode(text).last();
        lemma_char_token(c);
        assert(t == c as u32);
        assert(token_text(t) == seq![c]);
        assert(spec_encode(text).drop_last() =~= spec_encode(text.drop_last()));
        assert(spec_decode(spec_encode(text)) =~= text);
    }
}

/// Law: the stop-token sequence is a fixed, non-empty constant of the
/// encoding; any two retrievals agree element for element.
pub proof fn lemma_stop_tokens_stable(first: Seq<u32>, second: Seq<u32>)
    requires
        first == spec_stop_tokens(),
        second == spec_stop_tokens(),
    ensures
        first == second,
        first.len() > 0,
{
}

/// Law: rendering a conversation with at least one message yields at least
/// one token.
pub proof fn lemma_render_nonempty(msgs: Seq<SpecMessage>)
    requires
        msgs.len() > 0,
    ensures
        spec_render(msgs).len() > 0,
{
    assert(spec_render_message(msgs.last()).len() > 0);
}

} // verus!
