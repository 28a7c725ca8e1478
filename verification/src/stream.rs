//! The per-request token stream as an exactly specified value: an
//! unbounded FIFO whose consumer sees the tokens in exactly the order the
//! producer put them in, with nothing lost, duplicated or reordered. The
//! runtime transport with this behaviour is the unbounded token channel
//! (see `channel`).

use vstd::prelude::*;

use crate::model::Token;

verus! {

/// A first-in-first-out stream of tokens.
pub struct TokenFifo {
    items: Vec<Token>,
}

impl View for TokenFifo {
    type V = Seq<Token>;

    closed spec fn view(&self) -> Seq<Token> {
        self.items@
    }
}

impl TokenFifo {
    pub fn new() -> (r: TokenFifo)
        ensures
            r@ == Seq::<Token>::empty(),
    {
        TokenFifo { items: Vec::new() }
    }

    /// The producer appends one token; nothing already queued moves.
    pub fn push(&mut self, t: Token)
        ensures
            final(self)@ == old(self)@.push(t),
    {
        self.items.push(t);
    }

    /// The consumer takes the oldest queued token, or nothing when the
    /// stream is currently empty.
    pub fn pop(&mut self) -> (t: Option<Token>)
        ensures
            old(self)@.len() == 0 ==> t is None && final(self)@ == old(self)@,
            old(self)@.len() > 0 ==> t == Some(old(self)@[0]) && final(self)@ == old(self)@.skip(
                1,
            ),
    {
        if self.items.len() == 0 {
            None
        } else {
            Some(self.items.remove(0))
        }
    }

    /// Consuming the whole stream yields exactly the produced sequence:
    /// delivery order equals production order, with no token reordered,
    /// duplicated or lost.
    pub fn drain_in_order(&mut self) -> (out: Vec<Token>)
        ensures
            out@ == old(self)@,
            final(self)@.len() == 0,
    {
        let ghost orig = self@;
        let mut out: Vec<Token> = Vec::new();
        proof {
            assert(out@ + self@ =~= self@);
        }
        loop
            invariant
                orig == out@ + self@,
            ensures
                out@ == orig,
                self@.len() == 0,
            decreases self@.len(),
        {
            let ghost out0 = out@;
            let ghost pre = self@;
            match self.pop() {
                Some(t) => {
                    out.push(t);
                    proof {
                        assert(pre =~= seq![t] + self@);
                        assert(out@ =~= out0 + seq![t]);
                        assert(out0 + pre =~= out@ + self@);
                    }
                },
                None => {
                    proof {
                        assert(orig =~= out@);
                    }
                    break ;
                },
            }
        }
        out
    }
}

} // verus!
