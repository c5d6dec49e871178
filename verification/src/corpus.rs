//! The corpus: a source text together with its sequence of atomic units,
//! one unit per character, each a span of length one.

use vstd::prelude::*;

use crate::token::{Token, TokenData, tokens_nodes, Node};

verus! {

/// A source text and the atomic units matching starts from.  The text is
/// borrowed, never copied: every span in every token refers back to it.
pub struct Corpus<'a> {
    pub text: &'a str,
    pub tokens: Vec<Token>,
}

/// The unit models of a text of `n` characters: one length-one span per
/// character.
pub open spec fn corpus_nodes(n: int) -> Seq<Node> {
    Seq::new(n as nat, |i: int| Node::Leaf { lo: i, hi: i + 1 })
}

impl<'a> Corpus<'a> {
    /// Segment a text into one atomic unit per character.
    pub fn make(text: &'a str) -> (c: Corpus<'a>)
        ensures
            c.text@ == text@,
            tokens_nodes(c.tokens@) == corpus_nodes(text@.len() as int),
    {
        let n = text.unicode_len();
        let mut tokens: Vec<Token> = Vec::new();
        let mut i: usize = 0;
        while i < n
            invariant
                n == text@.len(),
                i <= n,
                tokens@.len() == i,
                forall|j: int|
                    0 <= j < i as int ==> #[trigger] tokens@[j].data == TokenData::Leaf(
                        j as usize,
                        (j + 1) as usize,
                    ),
            decreases n - i,
        {
            tokens.push(Token { data: TokenData::Leaf(i, i + 1) });
            i = i + 1;
        }
        proof {
            assert(tokens_nodes(tokens@) =~= corpus_nodes(text@.len() as int));
        }
        Corpus { text, tokens }
    }

    /// Wrap an already-built unit sequence over a text.
    pub fn new(text: &'a str, tokens: Vec<Token>) -> (c: Corpus<'a>)
        ensures
            c.text@ == text@,
            c.tokens == tokens,
    {
        Corpus { text, tokens }
    }
}

} // verus!
