//! General properties of the matching engine, stated over its functional
//! specification `pat_match` and proved once and for all: totality of the
//! optional and zero-or-more matchers, the exact failure condition of
//! one-or-more, first-match-wins ordered choice, the bounds of negative
//! lookahead, and the round trip of literal chains against their own text.

use vstd::prelude::*;

use crate::corpus::corpus_nodes;
use crate::matching::{pat_match, mult_match, star_match, choose_match};
use crate::sequence::Pat;
use crate::token::{Node, node_content_range, node_content};

verus! {

/// Optional and zero-or-more never fail, and one-or-more fails exactly
/// when zero-or-more would have consumed zero units.
pub proof fn lemma_repetition_totality(
    inner: Pat,
    name: Seq<char>,
    src: Seq<char>,
    toks: Seq<Node>,
    pos: int,
    refs: Map<Seq<char>, Pat>,
    fuel: nat,
)
    requires
        fuel > 0,
        0 <= pos <= toks.len(),
    ensures
        pat_match(Pat::Opt { inner: Box::new(inner), name }, src, toks, pos, refs, fuel) is Some,
        pat_match(
            Pat::NoneOrMore { inner: Box::new(inner), name },
            src,
            toks,
            pos,
            refs,
            fuel,
        ) is Some,
        (pat_match(Pat::OneOrMore { inner: Box::new(inner), name }, src, toks, pos, refs, fuel)
            is None) <==> (pat_match(
            Pat::NoneOrMore { inner: Box::new(inner), name },
            src,
            toks,
            pos,
            refs,
            fuel,
        ) matches Some(r) && r.0 == 0),
{
    lemma_star_len(inner, name, src, toks, pos, refs, (fuel - 1) as nat);
}

/// A repetition consumes a non-negative count of units, and no more than
/// remain.
pub proof fn lemma_star_len(
    inner: Pat,
    name: Seq<char>,
    src: Seq<char>,
    toks: Seq<Node>,
    pos: int,
    refs: Map<Seq<char>, Pat>,
    fuel: nat,
)
    requires
        0 <= pos <= toks.len(),
    ensures
        0 <= star_match(inner, name, src, toks, pos, refs, fuel).0 <= toks.len() - pos,
    decreases fuel, toks.len() - pos + 1,
{
    match pat_match(inner, src, toks, pos, refs, fuel) {
        Option::None => {},
        Option::Some((n, node)) => {
            if !(n <= 0 || pos + n > toks.len()) {
                lemma_star_len(inner, name, src, toks, pos + n, refs, fuel);
            }
        },
    }
}

/// Negative lookahead never consumes more than one unit, and never
/// consumes anything when its inner matcher matches at the position.
pub proof fn lemma_lookahead(
    inner: Pat,
    src: Seq<char>,
    toks: Seq<Node>,
    pos: int,
    refs: Map<Seq<char>, Pat>,
    fuel: nat,
)
    requires
        fuel > 0,
    ensures
        pat_match(Pat::Except { inner: Box::new(inner) }, src, toks, pos, refs, fuel) matches Some(
            r,
        ) ==> r.0 == 1,
        pat_match(inner, src, toks, pos, refs, (fuel - 1) as nat) is Some ==> pat_match(
            Pat::Except { inner: Box::new(inner) },
            src,
            toks,
            pos,
            refs,
            fuel,
        ) is None,
{
}

/// Ordered choice commits to the first member that matches: when member
/// `i` matches and every earlier member fails, the alternation returns
/// member `i`'s result wrapped under member `i`'s label.
pub proof fn lemma_ordered_choice(
    items: Seq<(Pat, Seq<char>)>,
    i: int,
    src: Seq<char>,
    toks: Seq<Node>,
    pos: int,
    refs: Map<Seq<char>, Pat>,
    fuel: nat,
)
    requires
        fuel > 0,
        0 <= i < items.len(),
        pat_match(items[i].0, src, toks, pos, refs, (fuel - 1) as nat) is Some,
        forall|j: int|
            0 <= j < i ==> pat_match(#[trigger] items[j].0, src, toks, pos, refs, (fuel - 1) as nat)
                is None,
    ensures
        pat_match(Pat::Choose { items }, src, toks, pos, refs, fuel) == ({
            let r = pat_match(items[i].0, src, toks, pos, refs, (fuel - 1) as nat).unwrap();
            Some((r.0, Node::Branch { children: seq![(items[i].1, r.1)] }))
        }),
{
    lemma_choose_first(items, 0, i, src, toks, pos, refs, (fuel - 1) as nat);
}

/// Ordered choice fails exactly when every member fails.
pub proof fn lemma_choice_fails(
    items: Seq<(Pat, Seq<char>)>,
    src: Seq<char>,
    toks: Seq<Node>,
    pos: int,
    refs: Map<Seq<char>, Pat>,
    fuel: nat,
)
    requires
        fuel > 0,
    ensures
        (pat_match(Pat::Choose { items }, src, toks, pos, refs, fuel) is None) <==> (forall|i: int|
            0 <= i < items.len() ==> pat_match(
                #[trigger] items[i].0,
                src,
                toks,
                pos,
                refs,
                (fuel - 1) as nat,
            ) is None),
{
    lemma_choose_all_fail(items, 0, src, toks, pos, refs, (fuel - 1) as nat);
}

/// From `k` on, the first matching member wins.
proof fn lemma_choose_first(
    items: Seq<(Pat, Seq<char>)>,
    k: int,
    i: int,
    src: Seq<char>,
    toks: Seq<Node>,
    pos: int,
    refs: Map<Seq<char>, Pat>,
    fuel: nat,
)
    requires
        0 <= k <= i < items.len(),
        pat_match(items[i].0, src, toks, pos, refs, fuel) is Some,
        forall|j: int|
            k <= j < i ==> pat_match(#[trigger] items[j].0, src, toks, pos, refs, fuel) is None,
    ensures
        choose_match(items, k, src, toks, pos, refs, fuel) == ({
            let r = pat_match(items[i].0, src, toks, pos, refs, fuel).unwrap();
            Some((r.0, Node::Branch { children: seq![(items[i].1, r.1)] }))
        }),
    decreases i - k,
{
    if k < i {
        lemma_choose_first(items, k + 1, i, src, toks, pos, refs, fuel);
    }
}

/// From `k` on, the choice fails exactly when every member from `k` on
/// fails.
proof fn lemma_choose_all_fail(
    items: Seq<(Pat, Seq<char>)>,
    k: int,
    src: Seq<char>,
    toks: Seq<Node>,
    pos: int,
    refs: Map<Seq<char>, Pat>,
    fuel: nat,
)
    requires
        0 <= k,
    ensures
        (choose_match(items, k, src, toks, pos, refs, fuel) is None) <==> (forall|i: int|
            k <= i < items.len() ==> pat_match(#[trigger] items[i].0, src, toks, pos, refs, fuel)
                is None),
    decreases items.len() - k + 1,
{
    if k < items.len() {
        lemma_choose_all_fail(items, k + 1, src, toks, pos, refs, fuel);
    }
}

/// The matcher a literal text `s` compiles to: one single-character
/// literal per character of `s`, in order, all members unlabelled.
pub open spec fn is_literal_matcher(items: Seq<(Pat, Seq<char>)>, s: Seq<char>) -> bool {
    items.len() == s.len() && forall|i: int|
        0 <= i < s.len() ==> #[trigger] items[i] == (
        Pat::Raw { target: seq![s[i]] },
        Seq::<char>::empty(),
        )
}

/// The single-unit literal matcher for a text `s`, run against the corpus
/// of a text `t`, matches the whole corpus exactly when `t` is `s` — and
/// only a one-character text can be fully matched this way, since every
/// unit of a corpus holds one character.
pub proof fn lemma_single_literal_roundtrip(
    s: Seq<char>,
    t: Seq<char>,
    refs: Map<Seq<char>, Pat>,
    fuel: nat,
)
    requires
        fuel >= 1,
    ensures
        (pat_match(
            Pat::Raw { target: s },
            t,
            corpus_nodes(t.len() as int),
            0,
            refs,
            fuel,
        ) matches Some(r) && r.0 == t.len()) <==> (s.len() == 1 && t == s),
{
    let toks = corpus_nodes(t.len() as int);
    if t.len() > 0 {
        assert(node_content_range(toks[0]) == Some((0int, 1int)));
        assert(node_content(t, toks[0]) =~= seq![t[0]]);
        if node_content(t, toks[0]) == s {
            assert(s.len() == 1 && s[0] == t[0]);
        }
        if s.len() == 1 && t == s {
            assert(seq![t[0]] =~= s);
        }
        if s.len() == 1 && t.len() == 1 && s[0] == t[0] {
            assert(t =~= s);
        }
    }
}

/// The concatenation a quoted literal compiles to has exactly the
/// literal-matcher shape, so the round-trip law below applies to it.
pub proof fn lemma_literal_pats_shape(s: Seq<char>)
    ensures
        is_literal_matcher(crate::sequence::literal_pats(s), s),
{
}

/// The literal matcher for a text `s`, run against the corpus of a text
/// `t`, matches the whole corpus exactly when `t` is `s`.
pub proof fn lemma_literal_roundtrip(
    items: Seq<(Pat, Seq<char>)>,
    s: Seq<char>,
    t: Seq<char>,
    refs: Map<Seq<char>, Pat>,
    fuel: nat,
)
    requires
        is_literal_matcher(items, s),
        fuel >= 2,
    ensures
        (pat_match(
            Pat::Mult { items },
            t,
            corpus_nodes(t.len() as int),
            0,
            refs,
            fuel,
        ) matches Some(r) && r.0 == t.len()) <==> s == t,
{
    let f = (fuel - 1) as nat;
    lemma_literal_steps(items, s, t, 0, 0, refs, f);
    match mult_match(items, 0, t, corpus_nodes(t.len() as int), 0, refs, f) {
        Option::Some(r) => {
            assert(t.subrange(0, s.len() as int) == s.subrange(0, s.len() as int));
            assert(s.subrange(0, s.len() as int) =~= s);
            if r.0 == t.len() {
                assert(t.subrange(0, t.len() as int) =~= t);
            }
            if s == t {
                assert(r.0 == t.len());
            }
        },
        Option::None => {
            if s == t {
                assert(t.subrange(0, s.len() as int) =~= s.subrange(0, s.len() as int));
                assert(false);
            }
        },
    }
}

/// A literal chain for `s[k..]`, run on the corpus of `t` at position
/// `pos`, succeeds exactly when the characters of `t` from `pos` continue
/// with `s[k..]`, and then consumes exactly those characters.
proof fn lemma_literal_steps(
    items: Seq<(Pat, Seq<char>)>,
    s: Seq<char>,
    t: Seq<char>,
    k: int,
    pos: int,
    refs: Map<Seq<char>, Pat>,
    fuel: nat,
)
    requires
        is_literal_matcher(items, s),
        0 <= k <= s.len(),
        0 <= pos <= t.len(),
        fuel >= 1,
    ensures
        match mult_match(items, k, t, corpus_nodes(t.len() as int), pos, refs, fuel) {
            Option::Some(r) => r.0 == s.len() - k && pos + (s.len() - k) <= t.len() && t.subrange(
                pos,
                pos + (s.len() - k),
            ) == s.subrange(k, s.len() as int),
            Option::None => !(pos + (s.len() - k) <= t.len() && t.subrange(
                pos,
                pos + (s.len() - k),
            ) == s.subrange(k, s.len() as int)),
        },
    decreases s.len() - k,
{
    let toks = corpus_nodes(t.len() as int);
    if k == s.len() {
        assert(t.subrange(pos, pos) =~= s.subrange(k, k));
    } else {
        let target = seq![s[k]];
        if pos < t.len() {
            assert(node_content_range(toks[pos]) == Some((pos, pos + 1)));
            assert(node_content(t, toks[pos]) =~= seq![t[pos]]);
        }
        let head = pat_match(items[k].0, t, toks, pos, refs, fuel);
        if pos < t.len() && t[pos] == s[k] {
            assert(node_content(t, toks[pos]) =~= target);
            assert(head == Some((1int, toks[pos])));
            lemma_literal_steps(items, s, t, k + 1, pos + 1, refs, fuel);
            match mult_match(items, k + 1, t, toks, pos + 1, refs, fuel) {
                Option::Some(r2) => {
                    assert(t.subrange(pos, pos + (s.len() - k)) =~= seq![t[pos]] + t.subrange(
                        pos + 1,
                        pos + 1 + (s.len() - (k + 1)),
                    ));
                    assert(s.subrange(k, s.len() as int) =~= seq![s[k]] + s.subrange(
                        k + 1,
                        s.len() as int,
                    ));
                },
                Option::None => {
                    if pos + (s.len() - k) <= t.len() && t.subrange(pos, pos + (s.len() - k))
                        == s.subrange(k, s.len() as int) {
                        assert(t.subrange(pos + 1, pos + 1 + (s.len() - (k + 1)))
                            =~= t.subrange(pos, pos + (s.len() - k)).subrange(
                            1,
                            s.len() - k,
                        ));
                        assert(s.subrange(k + 1, s.len() as int) =~= s.subrange(
                            k,
                            s.len() as int,
                        ).subrange(1, s.len() - k));
                        assert(false);
                    }
                },
            }
        } else {
            if pos < t.len() {
                assert(node_content(t, toks[pos]) =~= seq![t[pos]]);
                if node_content(t, toks[pos]) == target {
                    assert(seq![t[pos]][0] == seq![s[k]][0]);
                    assert(false);
                }
            }
            assert(head is None);
            if pos + (s.len() - k) <= t.len() && t.subrange(pos, pos + (s.len() - k)) == s.subrange(
                k,
                s.len() as int,
            ) {
                assert(t.subrange(pos, pos + (s.len() - k))[0] == t[pos]);
                assert(s.subrange(k, s.len() as int)[0] == s[k]);
                assert(false);
            }
        }
    }
}

} // verus!
