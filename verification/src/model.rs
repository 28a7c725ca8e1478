//! The data carried through the pipeline: tokens, errors, and requests,
//! with the verified construction of a request's prompt.

use vstd::prelude::*;
use vstd::string::StringExecFns;

use crate::channel::TokenSender;
use crate::text::decimal_digits;
use crate::text::remove_all;
use crate::text::remove_occurrences;
use crate::text::u64_to_string;

verus! {

/// Why a generation attempt stopped before completing normally.
#[derive(Debug, Clone, PartialEq)]
pub enum GenerationError {
    /// The cooperative cancellation path fired at a token boundary.
    Cancelled,
    /// Any other generator or transport failure, with a description.
    Custom(String),
}

impl GenerationError {
    /// Wraps a description into the catch-all failure variant.
    pub fn custom(s: &str) -> (e: GenerationError)
        ensures
            e matches GenerationError::Custom(m) && m@ == s@,
    {
        GenerationError::Custom(s.to_owned())
    }

    /// A human-readable description of the error.
    pub fn message(&self) -> (m: String)
        ensures
            self is Cancelled ==> m@ == "The generation was cancelled."@,
            self matches GenerationError::Custom(s) ==> m@ == s@,
    {
        match self {
            GenerationError::Cancelled => "The generation was cancelled.".to_owned(),
            GenerationError::Custom(s) => s.clone(),
        }
    }
}

/// One message on a request's stream: a text fragment, or a terminal error.
#[derive(Debug, Clone, PartialEq)]
pub enum Token {
    /// A fragment of generated text, in production order.
    Token(String),
    /// A terminal failure; no further fragments follow it.
    Error(GenerationError),
}

/// Submitting to the request queue failed because the queue was shut
/// down; fatal for that generation attempt.
#[derive(Debug, PartialEq, Eq, Structural)]
pub struct QueueClosed;

/// The fixed system preamble placed before every prompt.
pub open spec fn system_preamble() -> Seq<char> {
    "### System:\nYou are Stable Beluga, an AI that follows instructions extremely well. Help as much as you can. Remember, be safe, and don't do anything illegal.\n\n"@
}

/// The full prompt built around a user message.
pub open spec fn prompt_text(content: Seq<char>) -> Seq<char> {
    system_preamble() + "### User: "@ + content + "\n\n### Assistant:\n"@
}

/// The mention marker a chat platform embeds for the mentioned user `id`.
pub open spec fn mention_pattern(id: u64) -> Seq<char> {
    "<@"@ + decimal_digits(id as nat) + ">"@
}

/// `content` with the mention marker of every listed user removed, first
/// listed user first.
pub open spec fn without_mentions(content: Seq<char>, mentions: Seq<u64>) -> Seq<char>
    decreases mentions.len(),
{
    if mentions.len() == 0 {
        content
    } else {
        without_mentions(remove_all(content, mention_pattern(mentions[0])), mentions.skip(1))
    }
}

/// Removes the mention marker of every listed user from `content`.
pub fn strip_mentions(content: &str, mentions: &Vec<u64>) -> (r: String)
    ensures
        r@ == without_mentions(content@, mentions@),
{
    let mut cur: String = content.to_owned();
    let mut i: usize = 0;
    proof {
        assert(mentions@.skip(0) =~= mentions@);
    }
    while i < mentions.len()
        invariant
            0 <= i <= mentions@.len(),
            without_mentions(content@, mentions@) == without_mentions(
                cur@,
                mentions@.skip(i as int),
            ),
        decreases mentions@.len() - i,
    {
        let mut pat = "<@".to_owned();
        pat.append(u64_to_string(mentions[i]).as_str());
        pat.append(">");
        proof {
            assert(pat@ =~= mention_pattern(mentions@[i as int]));
        }
        let next = remove_occurrences(cur.as_str(), pat.as_str());
        proof {
            let rest = mentions@.skip(i as int);
            assert(rest[0] == mentions@[i as int]);
            assert(rest.skip(1) =~= mentions@.skip(i + 1));
        }
        cur = next;
        i = i + 1;
    }
    proof {
        assert(mentions@.skip(mentions@.len() as int) =~= Seq::<u64>::empty());
    }
    cur
}

/// Builds the full prompt around an already cleaned user message.
pub fn build_prompt(content: &str) -> (r: String)
    ensures
        r@ == prompt_text(content@),
{
    let mut s =
        "### System:\nYou are Stable Beluga, an AI that follows instructions extremely well. Help as much as you can. Remember, be safe, and don't do anything illegal.\n\n".to_owned();
    s.append("### User: ");
    s.append(content);
    s.append("\n\n### Assistant:\n");
    proof {
        assert(s@ =~= prompt_text(content@));
    }
    s
}

/// One admission unit: an identifier, the prompt to generate from, and the
/// producing end of the stream the resulting tokens go to. Owned by the
/// queue until dequeued, then by the worker until generation ends.
pub struct Request {
    pub(crate) message_id: u64,
    pub prompt: String,
    pub(crate) tok_stream_tx: TokenSender,
}

impl Request {
    /// The identifier cancellations are matched against.
    pub closed spec fn id(&self) -> u64 {
        self.message_id
    }

    /// The prompt the generator will be driven with.
    pub closed spec fn prompt_view(&self) -> Seq<char> {
        self.prompt@
    }

    pub fn new(message_id: u64, prompt: String, sender: TokenSender) -> (r: Request)
        ensures
            r.id() == message_id,
            r.prompt_view() == prompt@,
    {
        Request { message_id, prompt, tok_stream_tx: sender }
    }

    /// Builds the request for one chat message: strips the platform's
    /// mention markers from the message text and wraps it in the prompt
    /// template.
    pub fn from_message(
        message_id: u64,
        content: &str,
        mentions: &Vec<u64>,
        sender: TokenSender,
    ) -> (r: Request)
        ensures
            r.id() == message_id,
            r.prompt_view() == prompt_text(without_mentions(content@, mentions@)),
    {
        let cleaned = strip_mentions(content, mentions);
        let prompt = build_prompt(cleaned.as_str());
        Request { message_id, prompt, tok_stream_tx: sender }
    }
}

} // verus!
