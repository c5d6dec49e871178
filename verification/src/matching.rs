//! The matching engine: one dispatch function over the closed matcher
//! family, with a functional specification `pat_match` that pins down, for
//! every matcher kind, whether a match succeeds, how many units it consumes
//! and which capture tree it builds.
//!
//! Matching is given a recursion budget (`fuel`): named references resolve
//! through the rule table at match time, so a left-recursive grammar would
//! otherwise never terminate.  Each nesting level of the match spends one
//! unit; repetition does not.  Entry points use a budget no real match can
//! exhaust.  For the same reason a repetition stops as soon as its inner
//! matcher succeeds without consuming: such a match would otherwise repeat
//! forever.

use vstd::prelude::*;

use crate::corpus::Corpus;
use crate::rules::RefMap;
use crate::sequence::{
    Sequence, Pat, Pred, Predicate, TokenMatch, TokenMatchTestType, pair_pats, lemma_pair_pats,
};
use crate::token::{
    Node, Token, TokenData, node_content, token_node, tokens_nodes, children_nodes,
    lemma_children_nodes, str_eq_string,
};

verus! {

/// The characters this engine treats as whitespace (the Unicode
/// white-space set).
pub open spec fn is_space(c: char) -> bool {
    let u = c as u32;
    u == 0x20 || (0x09 <= u && u <= 0x0D) || u == 0x85 || u == 0xA0 || u == 0x1680 || (0x2000 <= u
        && u <= 0x200A) || u == 0x2028 || u == 0x2029 || u == 0x202F || u == 0x205F || u == 0x3000
}

/// Every character of `s` is whitespace (vacuously true of empty content).
pub open spec fn all_space(s: Seq<char>) -> bool {
    forall|i: int| 0 <= i < s.len() ==> is_space(#[trigger] s[i])
}

/// Does a content predicate hold of a unit's content?
pub open spec fn pred_holds(p: Pred, content: Seq<char>) -> bool {
    match p {
        Pred::ContentIsNot(t) => content != t,
    }
}

/// The length of the maximal whitespace run in `toks` starting at `pos`.
pub open spec fn ws_run(src: Seq<char>, toks: Seq<Node>, pos: int) -> int
    decreases toks.len() - pos,
{
    if pos < 0 || pos >= toks.len() || !all_space(node_content(src, toks[pos])) {
        0
    } else {
        1 + ws_run(src, toks, pos + 1)
    }
}

/// What a matcher `p` does on the units `toks` (of the source text `src`)
/// at position `pos`, resolving named references through `refs`, with the
/// recursion budget `fuel`: `None` when it does not match, otherwise the
/// count of units consumed and the capture node built.
pub open spec fn pat_match(
    p: Pat,
    src: Seq<char>,
    toks: Seq<Node>,
    pos: int,
    refs: Map<Seq<char>, Pat>,
    fuel: nat,
) -> Option<(int, Node)>
    decreases fuel, 0int,
{
    if fuel == 0 {
        None
    } else {
        let f = (fuel - 1) as nat;
        match p {
            Pat::Raw { target } => if 0 <= pos && pos < toks.len() && node_content(src, toks[pos])
                == target {
                Some((1, toks[pos]))
            } else {
                None
            },
            Pat::Mult { items } => match mult_match(items, 0, src, toks, pos, refs, f) {
                Option::Some((n, children)) => Some((n, Node::Branch { children })),
                Option::None => None,
            },
            Pat::Opt { inner, name } => match pat_match(*inner, src, toks, pos, refs, f) {
                Option::Some((n, node)) => Some(
                    (n, Node::Branch { children: seq![(name, node)] }),
                ),
                Option::None => Some((0, Node::Branch { children: Seq::empty() })),
            },
            Pat::NoneOrMore { inner, name } => if pos < 0 || pos > toks.len() {
                None
            } else {
                let r = star_match(*inner, name, src, toks, pos, refs, f);
                Some((r.0, Node::Branch { children: r.1 }))
            },
            Pat::OneOrMore { inner, name } => if pos < 0 || pos > toks.len() {
                None
            } else {
                let r = star_match(*inner, name, src, toks, pos, refs, f);
                if r.0 > 0 {
                    Some((r.0, Node::Branch { children: r.1 }))
                } else {
                    None
                }
            },
            Pat::Choose { items } => choose_match(items, 0, src, toks, pos, refs, f),
            Pat::Ref { name } => if refs.contains_key(name) {
                pat_match(refs[name], src, toks, pos, refs, f)
            } else {
                None
            },
            Pat::Any => if 0 <= pos && pos < toks.len() {
                Some((1, toks[pos]))
            } else {
                None
            },
            Pat::Where { pred } => if 0 <= pos && pos < toks.len() && pred_holds(
                pred,
                node_content(src, toks[pos]),
            ) {
                Some((1, toks[pos]))
            } else {
                None
            },
            Pat::Range { lo, hi } => if 0 <= pos && pos < toks.len() && {
                let c = node_content(src, toks[pos]);
                c.len() > 0 && lo <= c[0] as u32 && c[0] as u32 <= hi
            } {
                Some((1, toks[pos]))
            } else {
                None
            },
            Pat::Whitespace => {
                let n = ws_run(src, toks, pos);
                Some(
                    (
                        n,
                        Node::Branch {
                            children: Seq::new(n as nat, |i: int| (Seq::<char>::empty(), toks[pos + i])),
                        },
                    ),
                )
            },
            Pat::Nil => Some((0, Node::Leaf { lo: 0, hi: 0 })),
            Pat::Except { inner } => if !(0 <= pos && pos < toks.len()) {
                None
            } else {
                match pat_match(*inner, src, toks, pos, refs, f) {
                    Option::Some(_) => None,
                    Option::None => Some((1, toks[pos])),
                }
            },
        }
    }
}

/// Concatenation: match the members `items[k..]` in order.  On success the
/// consumed counts add up and every member with a non-empty label
/// contributes one labelled child; unlabelled members only advance.
pub open spec fn mult_match(
    items: Seq<(Pat, Seq<char>)>,
    k: int,
    src: Seq<char>,
    toks: Seq<Node>,
    pos: int,
    refs: Map<Seq<char>, Pat>,
    fuel: nat,
) -> Option<(int, Seq<(Seq<char>, Node)>)>
    decreases fuel, items.len() - k + 1,
{
    if k < 0 || k >= items.len() {
        Some((0, Seq::empty()))
    } else {
        match pat_match(items[k].0, src, toks, pos, refs, fuel) {
            Option::None => None,
            Option::Some((n, node)) => match mult_match(items, k + 1, src, toks, pos + n, refs, fuel) {
                Option::None => None,
                Option::Some((m, rest)) => Some(
                    (
                        n + m,
                        if items[k].1.len() == 0 {
                            rest
                        } else {
                            seq![(items[k].1, node)] + rest
                        },
                    ),
                ),
            },
        }
    }
}

/// Repetition: apply `inner` at `pos` as long as it succeeds and consumes.
/// Total — a repetition cannot fail, only repeat zero times.
pub open spec fn star_match(
    inner: Pat,
    name: Seq<char>,
    src: Seq<char>,
    toks: Seq<Node>,
    pos: int,
    refs: Map<Seq<char>, Pat>,
    fuel: nat,
) -> (int, Seq<(Seq<char>, Node)>)
    decreases fuel, toks.len() - pos + 1,
{
    if pos < 0 || pos > toks.len() {
        (0, Seq::empty())
    } else {
        match pat_match(inner, src, toks, pos, refs, fuel) {
            Option::None => (0, Seq::empty()),
            Option::Some((n, node)) => if n <= 0 || pos + n > toks.len() {
                (0, Seq::empty())
            } else {
                let rest = star_match(inner, name, src, toks, pos + n, refs, fuel);
                (n + rest.0, seq![(name, node)] + rest.1)
            },
        }
    }
}

/// Ordered choice: the first member of `items[k..]` that matches wins, and
/// its result is wrapped in a one-child branch under that member's label.
pub open spec fn choose_match(
    items: Seq<(Pat, Seq<char>)>,
    k: int,
    src: Seq<char>,
    toks: Seq<Node>,
    pos: int,
    refs: Map<Seq<char>, Pat>,
    fuel: nat,
) -> Option<(int, Node)>
    decreases fuel, items.len() - k + 1,
{
    if k < 0 || k >= items.len() {
        None
    } else {
        match pat_match(items[k].0, src, toks, pos, refs, fuel) {
            Option::Some((n, node)) => Some(
                (n, Node::Branch { children: seq![(items[k].1, node)] }),
            ),
            Option::None => choose_match(items, k + 1, src, toks, pos, refs, fuel),
        }
    }
}

/// The model of an optional match result.
pub open spec fn match_view(r: Option<TokenMatch>) -> Option<(int, Node)> {
    match r {
        Option::Some(tm) => Some(tm@),
        Option::None => None,
    }
}

/// The recursion budget the entry points use: deep enough that no actual
/// match can run out.
pub const FULL_FUEL: u64 = 0xffff_ffff_ffff_ffff;

/// Whitespace test on one character, mirroring `is_space`.
fn is_space_char(c: char) -> (r: bool)
    ensures
        r == is_space(c),
{
    let u = c as u32;
    u == 0x20 || (0x09 <= u && u <= 0x0D) || u == 0x85 || u == 0xA0 || u == 0x1680 || (0x2000 <= u
        && u <= 0x200A) || u == 0x2028 || u == 0x2029 || u == 0x202F || u == 0x205F || u == 0x3000
}

/// Is every character of `s` whitespace?
fn str_all_space(s: &str) -> (r: bool)
    ensures
        r == all_space(s@),
{
    let n = s.unicode_len();
    let mut i: usize = 0;
    while i < n
        invariant
            n == s@.len(),
            i <= n,
            forall|j: int| 0 <= j < i as int ==> is_space(#[trigger] s@[j]),
        decreases n - i,
    {
        if !is_space_char(s.get_char(i)) {
            return false;
        }
        i = i + 1;
    }
    true
}

/// `children_nodes` of a single-pair list.
proof fn lemma_children_nodes_single(x: (String, Token))
    ensures
        children_nodes(seq![x], 0) == seq![(x.0@, token_node(x.1))],
{
    lemma_children_nodes(seq![x], 0);
    assert(children_nodes(seq![x], 0) =~= seq![(x.0@, token_node(x.1))]);
}

/// `children_nodes` after prepending a pair.
proof fn lemma_children_nodes_insert_front(s: Seq<(String, Token)>, x: (String, Token))
    ensures
        children_nodes(s.insert(0, x), 0) == seq![(x.0@, token_node(x.1))] + children_nodes(s, 0),
{
    lemma_children_nodes(s.insert(0, x), 0);
    lemma_children_nodes(s, 0);
    assert(children_nodes(s.insert(0, x), 0) =~= seq![(x.0@, token_node(x.1))] + children_nodes(
        s,
        0,
    ));
}

/// A branch holding exactly one labelled child.
fn wrap_child(label: &String, child: Token) -> (r: Token)
    ensures
        r@ == (Node::Branch { children: seq![(label@, child@)] }),
{
    let pair = (label.clone(), child);
    let ghost gp = pair;
    let mut children: Vec<(String, Token)> = Vec::new();
    children.push(pair);
    proof {
        assert(children@ =~= seq![gp]);
        lemma_children_nodes_single(gp);
    }
    Token { data: TokenData::Branch(children) }
}

impl Sequence {
    /// Match this matcher against the units of `tokens` starting at `pos`,
    /// resolving named references through `refs`, with the recursion budget
    /// `fuel`.  Returns exactly what `pat_match` says on the models.
    pub fn match_tokens(
        &self,
        source: &str,
        tokens: &Vec<Token>,
        pos: usize,
        refs: &RefMap,
        fuel: u64,
    ) -> (r: Option<TokenMatch>)
        requires
            pos <= tokens@.len(),
        ensures
            match_view(r) == pat_match(
                self@,
                source@,
                tokens_nodes(tokens@),
                pos as int,
                refs@,
                fuel as nat,
            ),
            r matches Some(tm) ==> pos + tm.len <= tokens@.len(),
        decreases fuel, 0int,
    {
        let ghost toks = tokens_nodes(tokens@);
        if fuel == 0 {
            return None;
        }
        let f = fuel - 1;
        match self {
            Sequence::Raw(x) => {
                if pos < tokens.len() {
                    let c = (&tokens[pos]).content(source);
                    if str_eq_string(c, &x.target) {
                        Some(TokenMatch { len: 1, new_token: (&tokens[pos]).clone() })
                    } else {
                        None
                    }
                } else {
                    None
                }
            },
            Sequence::Mult(x) => {
                proof {
                    lemma_pair_pats(x.seqs@, 0);
                }
                match match_members(&x.seqs, 0, source, tokens, pos, refs, f) {
                    Option::Some((n, children)) => Some(
                        TokenMatch { len: n, new_token: Token { data: TokenData::Branch(children) } },
                    ),
                    Option::None => None,
                }
            },
            Sequence::Opt(x) => {
                match (&x.seq).match_tokens(source, tokens, pos, refs, f) {
                    Option::Some(tm) => Some(
                        TokenMatch {
                            len: tm.len,
                            new_token: wrap_child(&x.match_name, tm.new_token),
                        },
                    ),
                    Option::None => Some(
                        TokenMatch { len: 0, new_token: Token { data: TokenData::Branch(Vec::new()) } },
                    ),
                }
            },
            Sequence::NoneOrMore(x) => {
                let (n, children) = match_star(&x.seq, &x.match_name, source, tokens, pos, refs, f);
                Some(TokenMatch { len: n, new_token: Token { data: TokenData::Branch(children) } })
            },
            Sequence::OneOrMore(x) => {
                let (n, children) = match_star(&x.seq, &x.match_name, source, tokens, pos, refs, f);
                if n > 0 {
                    Some(TokenMatch { len: n, new_token: Token { data: TokenData::Branch(children) } })
                } else {
                    None
                }
            },
            Sequence::Choose(x) => {
                proof {
                    lemma_pair_pats(x.seqs@, 0);
                }
                match_choice(&x.seqs, 0, source, tokens, pos, refs, f)
            },
            Sequence::Ref(x) => {
                match refs.get(x.name.as_str()) {
                    Option::Some(sq) => sq.match_tokens(source, tokens, pos, refs, f),
                    Option::None => None,
                }
            },
            Sequence::Any(_) => {
                if pos < tokens.len() {
                    Some(TokenMatch { len: 1, new_token: (&tokens[pos]).clone() })
                } else {
                    None
                }
            },
            Sequence::Where(x) => {
                if pos < tokens.len() {
                    let c = (&tokens[pos]).content(source);
                    let holds = match &x.predicate {
                        Predicate::ContentIsNot(t) => !str_eq_string(c, t),
                    };
                    if holds {
                        Some(TokenMatch { len: 1, new_token: (&tokens[pos]).clone() })
                    } else {
                        None
                    }
                } else {
                    None
                }
            },
            Sequence::Range(x) => {
                if pos < tokens.len() {
                    let c = (&tokens[pos]).content(source);
                    if !c.is_empty() {
                        let u = c.get_char(0) as u32;
                        if x.start <= u && u <= x.end {
                            Some(TokenMatch { len: 1, new_token: (&tokens[pos]).clone() })
                        } else {
                            None
                        }
                    } else {
                        None
                    }
                } else {
                    None
                }
            },
            Sequence::Whitespace(_) => {
                let mut n: usize = 0;
                let mut children: Vec<(String, Token)> = Vec::new();
                let mut done = false;
                while !done
                    invariant
                        pos + n <= tokens@.len(),
                        toks == tokens_nodes(tokens@),
                        ws_run(source@, toks, pos as int) == n + ws_run(source@, toks, pos + n),
                        children@.len() == n,
                        forall|j: int|
                            0 <= j < n as int ==> #[trigger] children@[j].0@ == Seq::<char>::empty()
                                && children@[j].1@ == toks[pos + j],
                        done ==> ws_run(source@, toks, pos + n) == 0,
                    decreases tokens@.len() - pos - n + (if done {
                        0int
                    } else {
                        1int
                    }),
                {
                    if n >= tokens.len() - pos {
                        done = true;
                    } else {
                        let c = (&tokens[pos + n]).content(source);
                        if !str_all_space(c) {
                            done = true;
                        } else {
                            children.push((String::new(), (&tokens[pos + n]).clone()));
                            n = n + 1;
                        }
                    }
                }
                proof {
                    lemma_children_nodes(children@, 0);
                    assert(ws_run(source@, toks, pos as int) == n);
                    assert(children_nodes(children@, 0) =~= Seq::new(
                        n as nat,
                        |i: int| (Seq::<char>::empty(), toks[pos + i]),
                    ));
                }
                Some(TokenMatch { len: n, new_token: Token { data: TokenData::Branch(children) } })
            },
            Sequence::Nil(_) => {
                Some(TokenMatch { len: 0, new_token: Token { data: TokenData::Leaf(0, 0) } })
            },
            Sequence::Except(x) => {
                if pos >= tokens.len() {
                    None
                } else {
                    match (&x.except).match_tokens(source, tokens, pos, refs, f) {
                        Option::Some(_) => None,
                        Option::None => Some(
                            TokenMatch { len: 1, new_token: (&tokens[pos]).clone() },
                        ),
                    }
                }
            },
        }
    }

    /// Match against a whole corpus from position 0, with the full budget.
    pub fn match_corpus_first(&self, corpus: &Corpus<'_>, refs: &RefMap) -> (r: Option<TokenMatch>)
        ensures
            match_view(r) == pat_match(
                self@,
                corpus.text@,
                tokens_nodes(corpus.tokens@),
                0,
                refs@,
                FULL_FUEL as nat,
            ),
            r matches Some(tm) ==> tm.len <= corpus.tokens@.len(),
    {
        self.match_tokens(corpus.text, &corpus.tokens, 0, refs, FULL_FUEL)
    }

    /// Check a matcher against a corpus: does the outcome agree with the
    /// expectation (no match, some match, or a match of the whole corpus)?
    pub fn check_matches(
        &self,
        corpus: &Corpus<'_>,
        refs: &RefMap,
        should_match: TokenMatchTestType,
    ) -> (ok: bool)
        ensures
            ok == {
                let m = pat_match(
                    self@,
                    corpus.text@,
                    tokens_nodes(corpus.tokens@),
                    0,
                    refs@,
                    FULL_FUEL as nat,
                );
                match should_match {
                    TokenMatchTestType::NoMatch => m is None,
                    TokenMatchTestType::First => m is Some,
                    TokenMatchTestType::All => m matches Some(r) && r.0 == corpus.tokens@.len(),
                }
            },
    {
        let matched = self.match_corpus_first(corpus, refs);
        match should_match {
            TokenMatchTestType::NoMatch => matched.is_none(),
            TokenMatchTestType::First => matched.is_some(),
            TokenMatchTestType::All => match matched {
                Option::Some(tm) => tm.len == corpus.tokens.len(),
                Option::None => false,
            },
        }
    }
}

/// Concatenation members `items[k..]`, mirrored in execution.
fn match_members(
    items: &Vec<(Sequence, String)>,
    k: usize,
    source: &str,
    tokens: &Vec<Token>,
    pos: usize,
    refs: &RefMap,
    fuel: u64,
) -> (r: Option<(usize, Vec<(String, Token)>)>)
    requires
        pos <= tokens@.len(),
        k <= items@.len(),
    ensures
        match r {
            Option::Some(p) => mult_match(
                pair_pats(items@, 0),
                k as int,
                source@,
                tokens_nodes(tokens@),
                pos as int,
                refs@,
                fuel as nat,
            ) == Some((p.0 as int, children_nodes(p.1@, 0))) && pos + p.0 <= tokens@.len(),
            Option::None => mult_match(
                pair_pats(items@, 0),
                k as int,
                source@,
                tokens_nodes(tokens@),
                pos as int,
                refs@,
                fuel as nat,
            ) is None,
        },
    decreases fuel, items@.len() - k + 1,
{
    proof {
        lemma_pair_pats(items@, 0);
    }
    let _total = tokens.len();
    if k >= items.len() {
        return Some((0, Vec::new()));
    }
    match (&items[k].0).match_tokens(source, tokens, pos, refs, fuel) {
        Option::None => None,
        Option::Some(tm) => {
            match match_members(items, k + 1, source, tokens, pos + tm.len, refs, fuel) {
                Option::None => None,
                Option::Some((m, mut children)) => {
                    if !items[k].1.as_str().is_empty() {
                        let pair = (items[k].1.clone(), tm.new_token);
                        proof {
                            lemma_children_nodes_insert_front(children@, pair);
                        }
                        children.insert(0, pair);
                    }
                    Some((tm.len + m, children))
                },
            }
        },
    }
}

/// Repetition, mirrored in execution.
fn match_star(
    inner: &Sequence,
    name: &String,
    source: &str,
    tokens: &Vec<Token>,
    pos: usize,
    refs: &RefMap,
    fuel: u64,
) -> (r: (usize, Vec<(String, Token)>))
    requires
        pos <= tokens@.len(),
    ensures
        star_match(
            inner@,
            name@,
            source@,
            tokens_nodes(tokens@),
            pos as int,
            refs@,
            fuel as nat,
        ) == (r.0 as int, children_nodes(r.1@, 0)),
        pos + r.0 <= tokens@.len(),
    decreases fuel, tokens@.len() - pos + 1,
{
    let _total = tokens.len();
    match inner.match_tokens(source, tokens, pos, refs, fuel) {
        Option::None => (0, Vec::new()),
        Option::Some(tm) => {
            if tm.len == 0 {
                (0, Vec::new())
            } else {
                let (m, mut rest) = match_star(inner, name, source, tokens, pos + tm.len, refs, fuel);
                let pair = (name.clone(), tm.new_token);
                proof {
                    lemma_children_nodes_insert_front(rest@, pair);
                }
                rest.insert(0, pair);
                (tm.len + m, rest)
            }
        },
    }
}

/// Ordered choice over `items[k..]`, mirrored in execution.
fn match_choice(
    items: &Vec<(Sequence, String)>,
    k: usize,
    source: &str,
    tokens: &Vec<Token>,
    pos: usize,
    refs: &RefMap,
    fuel: u64,
) -> (r: Option<TokenMatch>)
    requires
        pos <= tokens@.len(),
        k <= items@.len(),
    ensures
        match_view(r) == choose_match(
            pair_pats(items@, 0),
            k as int,
            source@,
            tokens_nodes(tokens@),
            pos as int,
            refs@,
            fuel as nat,
        ),
        r matches Some(tm) ==> pos + tm.len <= tokens@.len(),
    decreases fuel, items@.len() - k + 1,
{
    proof {
        lemma_pair_pats(items@, 0);
    }
    if k >= items.len() {
        return None;
    }
    match (&items[k].0).match_tokens(source, tokens, pos, refs, fuel) {
        Option::Some(tm) => Some(
            TokenMatch { len: tm.len, new_token: wrap_child(&items[k].1, tm.new_token) },
        ),
        Option::None => match_choice(items, k + 1, source, tokens, pos, refs, fuel),
    }
}

} // verus!
