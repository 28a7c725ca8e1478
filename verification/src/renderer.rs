//! Consumer side of a request's token stream: accumulates fragments,
//! strips the echoed prompt from the display text, rate-limits display
//! updates, and decides the terminal display action.

use vstd::prelude::*;
use vstd::string::StrSliceExecFns;
use vstd::string::StringExecFns;

use crate::model::Token;
use crate::text::matches_at;
use crate::text::trim_text;
use crate::text::trimmed;

verus! {

/// Minimum interval between two pushed display updates, in milliseconds.
pub const UPDATE_INTERVAL_MS: u64 = 250;

/// How long the cancellation notice stays up before the display is removed,
/// in milliseconds.
pub const DELETE_DELAY_MS: u64 = 3000;

/// Dots shown behind the placeholder word after `n` processed tokens.
pub open spec fn thinking_dots(n: nat) -> nat {
    if n % 10 == 0 {
        0
    } else {
        (n % 10 - 1) as nat
    }
}

/// The liveness placeholder shown while the output is still inside the
/// echoed prompt.
pub open spec fn thinking_text(n: nat) -> Seq<char> {
    "Thinking"@ + Seq::new(thinking_dots(n), |i: int| '.')
}

/// The text worth displaying once `acc` has accumulated: the trimmed
/// remainder behind the prompt prefix if the prompt is fully present,
/// otherwise a placeholder whose dot count cycles with `n`.
pub open spec fn displayable(acc: Seq<char>, prompt: Seq<char>, n: nat) -> Seq<char> {
    if acc.len() >= prompt.len() && acc.subrange(0, prompt.len() as int) == prompt {
        trimmed(acc.skip(prompt.len() as int))
    } else {
        thinking_text(n)
    }
}

/// Strips the echoed `prompt` from `in_str` and trims the remainder; while
/// `in_str` does not yet carry the whole prompt, yields the placeholder
/// with `num_dots` cycling dots instead.
pub fn remove_prompt(in_str: &str, prompt: &str, num_dots: usize) -> (r: String)
    ensures
        r@ == displayable(in_str@, prompt@, num_dots as nat),
{
    let n: usize = in_str.unicode_len();
    let p: usize = prompt.unicode_len();
    if p <= n && matches_at(in_str, prompt, 0) {
        let rest = in_str.substring_char(p, n);
        proof {
            assert(in_str@.subrange(0, p as int) =~= in_str@.subrange(0 as int, 0 + p as int));
            assert(rest@ =~= in_str@.skip(p as int));
        }
        trim_text(rest)
    } else {
        let dots: usize = num_dots % 10;
        let mut s = "Thinking".to_owned();
        let mut k: usize = 1;
        proof {
            assert(s@ + Seq::new(0, |i: int| '.') =~= s@);
        }
        while k < dots
            invariant
                1 <= k,
                dots <= 9,
                dots > 0 ==> k <= dots,
                dots == 0 ==> k == 1,
                s@ == "Thinking"@ + Seq::new((k - 1) as nat, |i: int| '.'),
            decreases dots - k,
        {
            let ghost s0 = s@;
            s.append(".");
            proof {
                reveal_strlit(".");
                assert(s0 + "."@ =~= "Thinking"@ + Seq::new(k as nat, |i: int| '.'));
            }
            k = k + 1;
        }
        proof {
            if p <= n {
                assert(in_str@.subrange(0, p as int) =~= in_str@.subrange(0 as int, 0 + p as int));
            }
            assert(s@ =~= thinking_text(num_dots as nat));
        }
        s
    }
}

/// What the display surface should do after one step of the renderer.
pub enum RenderStep {
    /// Nothing to show: the fragment was absorbed, the display is unchanged
    /// (the text was empty or the rate gate was still closed).
    Silent,
    /// Replace the displayed text with this text.
    Update(String),
    /// The stream ended normally; push this final text unconditionally if
    /// there is one, then stop consuming.
    Finalize(Option<String>),
    /// The stream failed or was cancelled; replace the display with the
    /// notice, remove the display after the delay, and stop consuming.
    Aborted { notice: String, delete_after_ms: u64 },
}

/// Renders one request's token stream progressively: keeps every fragment
/// received so far, hides the echoed prompt, and pushes at most one display
/// update per rate-limit interval, with one unconditional final update.
pub struct StreamRenderer {
    prompt: String,
    accumulated: String,
    token_count: usize,
    last_update_ms: u64,
    done: bool,
}

impl StreamRenderer {
    /// The prompt whose echo is hidden from the display.
    pub closed spec fn prompt(self) -> Seq<char> {
        self.prompt@
    }

    /// Every text fragment received so far, in arrival order.
    pub closed spec fn accumulated(self) -> Seq<char> {
        self.accumulated@
    }

    /// How many tokens have been processed.
    pub closed spec fn token_count(self) -> nat {
        self.token_count as nat
    }

    /// When the last display update was pushed.
    pub closed spec fn last_update_ms(self) -> u64 {
        self.last_update_ms
    }

    /// Whether a terminal token or the end of the stream has been seen.
    pub closed spec fn is_done(self) -> bool {
        self.done
    }

    /// Whether the rate gate is open at `now_ms`: strictly more than the
    /// update interval has passed since the last pushed update.
    pub open spec fn update_due(self, now_ms: u64) -> bool {
        now_ms as int - self.last_update_ms() as int > UPDATE_INTERVAL_MS as int
    }

    /// The display text after absorbing one more fragment `f`; the dot
    /// count of the placeholder uses the count before the new token.
    pub open spec fn display_after(self, f: Seq<char>) -> Seq<char> {
        displayable(self.accumulated() + f, self.prompt(), self.token_count())
    }

    /// The display text for the current state.
    pub open spec fn display_now(self) -> Seq<char> {
        displayable(self.accumulated(), self.prompt(), self.token_count())
    }

    pub fn new(prompt: String, now_ms: u64) -> (r: StreamRenderer)
        ensures
            r.prompt() == prompt@,
            r.accumulated() == Seq::<char>::empty(),
            r.token_count() == 0,
            r.last_update_ms() == now_ms,
            !r.is_done(),
    {
        StreamRenderer {
            prompt,
            accumulated: String::new(),
            token_count: 0,
            last_update_ms: now_ms,
            done: false,
        }
    }

    /// Consumes one event of the stream (a token, or `None` for the end of
    /// the stream) and decides what the display surface must do.
    pub fn step(&mut self, event: Option<Token>, now_ms: u64) -> (cmd: RenderStep)
        requires
            old(self).token_count() < usize::MAX,
        ensures
            final(self).prompt() == old(self).prompt(),
            old(self).is_done() ==> cmd is Silent && *final(self) == *old(self),
            !old(self).is_done() ==> (event matches Some(Token::Token(f)) ==> {
                &&& final(self).accumulated() == old(self).accumulated() + f@
                &&& final(self).token_count() == old(self).token_count() + 1
                &&& !final(self).is_done()
                &&& if old(self).display_after(f@).len() > 0 && old(self).update_due(now_ms) {
                    &&& cmd matches RenderStep::Update(u) && u@ == old(self).display_after(f@)
                    &&& final(self).last_update_ms() == now_ms
                } else {
                    &&& cmd is Silent
                    &&& final(self).last_update_ms() == old(self).last_update_ms()
                }
            }),
            !old(self).is_done() ==> (event matches Some(Token::Error(e)) ==> {
                &&& cmd matches RenderStep::Aborted { notice, delete_after_ms } && notice@
                    == "Request cancelled!"@ && delete_after_ms == DELETE_DELAY_MS
                &&& final(self).is_done()
                &&& final(self).accumulated() == old(self).accumulated()
            }),
            !old(self).is_done() && event is None ==> {
                &&& cmd matches RenderStep::Finalize(last) && (if old(self).display_now().len()
                    > 0 {
                    last matches Some(u) && u@ == old(self).display_now()
                } else {
                    last is None
                })
                &&& final(self).is_done()
                &&& final(self).accumulated() == old(self).accumulated()
            },
    {
        if self.done {
            return RenderStep::Silent;
        }
        match event {
            Some(Token::Token(f)) => {
                self.accumulated.append(f.as_str());
                self.token_count = self.token_count + 1;
                let d = remove_prompt(
                    self.accumulated.as_str(),
                    self.prompt.as_str(),
                    self.token_count - 1,
                );
                if !d.as_str().is_empty() && now_ms.saturating_sub(self.last_update_ms)
                    > UPDATE_INTERVAL_MS {
                    self.last_update_ms = now_ms;
                    RenderStep::Update(d)
                } else {
                    RenderStep::Silent
                }
            },
            Some(Token::Error(_e)) => {
                self.done = true;
                RenderStep::Aborted {
                    notice: "Request cancelled!".to_owned(),
                    delete_after_ms: DELETE_DELAY_MS,
                }
            },
            None => {
                self.done = true;
                let d = remove_prompt(
                    self.accumulated.as_str(),
                    self.prompt.as_str(),
                    self.token_count,
                );
                if !d.as_str().is_empty() {
                    RenderStep::Finalize(Some(d))
                } else {
                    RenderStep::Finalize(None)
                }
            },
        }
    }
}

} // verus!
