//! The meta-grammar bootstrap and the grammar compiler.
//!
//! The bootstrap is a rule table, hand-built from matcher primitives and
//! never itself parsed, that defines the textual rule notation: rule
//! definitions, concatenation (`&`, and `+` with implicit whitespace),
//! alternation (`|`), member naming (`:label`, `.label`), the suffixes
//! `+ * ? !`, literals `'x'`, quoted literals `{abc}`, character classes
//! `[abc]`, code-point ranges `a..z`, grouping `( )` and bare-word rule
//! references.
//!
//! The compiler matches rule-set text against the bootstrap's whole-rule-set
//! production and walks the capture tree, producing one rule table entry per
//! rule definition.  A rule-set that the bootstrap does not fully accept
//! compiles to nothing: no partial table is ever returned.

use vstd::prelude::*;

use crate::corpus::{Corpus, corpus_nodes};
use crate::matching::{pat_match, FULL_FUEL};
use crate::rules::RefMap;
use crate::sequence::{
    Sequence, Pat, Pred, Predicate, RawSeq, MultSeq, OptSeq, NoneOrMoreSeq, OneOrMoreSeq,
    ChooseSeq, RefSeq, AnySeq, WhereSeq, RangeSeq, WhitespaceSeq, NilSeq, ExceptSeq, pair_pats,
    lemma_pair_pats, lemma_pair_pats_push, chars_pats, literal_pats,
};
use crate::token::{
    Node, Token, node_content, node_children, node_first_child, tokens_nodes, str_eq_str,
};

verus! {

/// The bootstrap rule matching whitespace between tokens of the notation.
pub open spec fn meta_ws_star() -> Pat {
    Pat::NoneOrMore { inner: Box::new(Pat::Choose { items: chars_pats(" \t\n\r"@) }), name: ""@ }
}

/// One character of a word: a letter, digit, underscore or hyphen.
pub open spec fn meta_word_char() -> Pat {
    Pat::Choose {
        items: chars_pats("abcdefghijklmnopqrstuvwxyzABCDEFGHIJKLMNOPQRSTUVWXYZ1234567890_-"@),
    }
}

/// A word: one or more word characters.
pub open spec fn meta_word() -> Pat {
    Pat::OneOrMore { inner: Box::new(Pat::Ref { name: "wordChar"@ }), name: ""@ }
}

/// A rule definition: `name = seq`, with surrounding whitespace skipped.
pub open spec fn meta_rule() -> Pat {
    Pat::Mult {
        items: seq![
            (Pat::Ref { name: "ws*"@ }, ""@),
            (Pat::Ref { name: "word"@ }, "name"@),
            (Pat::Ref { name: "ws*"@ }, ""@),
            (Pat::Raw { target: "="@ }, ""@),
            (Pat::Ref { name: "ws*"@ }, ""@),
            (Pat::Ref { name: "seq"@ }, "seq"@),
            (Pat::Ref { name: "ws*"@ }, ""@),
        ],
    }
}

/// A concatenation: a member, then any number of `& member` or `+ member`.
pub open spec fn meta_seq() -> Pat {
    Pat::Mult {
        items: seq![
            (Pat::Ref { name: "noMultSeq"@ }, "lhs"@),
            (Pat::Ref { name: "optMultName"@ }, "name"@),
            (
                Pat::NoneOrMore {
                    inner: Box::new(
                        Pat::Mult {
                            items: seq![
                                (Pat::Ref { name: "ws*"@ }, ""@),
                                (Pat::Choose { items: chars_pats("&+"@) }, "oper"@),
                                (Pat::Ref { name: "ws*"@ }, ""@),
                                (Pat::Ref { name: "noMultSeq"@ }, "seq"@),
                                (Pat::Ref { name: "optMultName"@ }, "name"@),
                            ],
                        },
                    ),
                    name: "rhs's"@,
                },
                "rhs's"@,
            ),
        ],
    }
}

/// An alternation: a member, then any number of `| member`.
pub open spec fn meta_no_mult_seq() -> Pat {
    Pat::Mult {
        items: seq![
            (Pat::Ref { name: "noChooseSeq"@ }, "lhs"@),
            (Pat::Ref { name: "optName"@ }, "name"@),
            (
                Pat::NoneOrMore {
                    inner: Box::new(
                        Pat::Mult {
                            items: seq![
                                (Pat::Ref { name: "ws*"@ }, ""@),
                                (Pat::Raw { target: "|"@ }, ""@),
                                (Pat::Ref { name: "ws*"@ }, ""@),
                                (Pat::Ref { name: "noChooseSeq"@ }, "seq"@),
                                (Pat::Ref { name: "optName"@ }, "name"@),
                            ],
                        },
                    ),
                    name: "rhs's"@,
                },
                "rhs's"@,
            ),
        ],
    }
}

/// A single term, with or without a suffix.
pub open spec fn meta_no_choose_seq() -> Pat {
    Pat::Choose {
        items: seq![
            (Pat::Ref { name: "oneSuffixSeq"@ }, "oneSuffix"@),
            (Pat::Ref { name: "oneSeq"@ }, "one"@),
        ],
    }
}

/// A term followed by one of the suffixes `+ * ? !`.
pub open spec fn meta_one_suffix_seq() -> Pat {
    Pat::Mult {
        items: seq![
            (Pat::Ref { name: "oneSeq"@ }, "seq"@),
            (Pat::Ref { name: "optName"@ }, "name"@),
            (Pat::Choose { items: chars_pats("+*?!"@) }, "plus"@),
        ],
    }
}

/// A single term: literal, group, range, reference, quoted literal or
/// character class.
pub open spec fn meta_one_seq() -> Pat {
    Pat::Choose {
        items: seq![
            (Pat::Ref { name: "rawSeq"@ }, "raw"@),
            (Pat::Ref { name: "parenSeq"@ }, "paren"@),
            (Pat::Ref { name: "rangeSeq"@ }, "range"@),
            (Pat::Ref { name: "word"@ }, "ref"@),
            (Pat::Ref { name: "quoteSeq"@ }, "quote"@),
            (Pat::Ref { name: "fromCharsSeq"@ }, "fromChars"@),
        ],
    }
}

/// A literal: one character between single quotes.
pub open spec fn meta_raw_seq() -> Pat {
    Pat::Mult {
        items: seq![
            (Pat::Raw { target: "'"@ }, ""@),
            (Pat::Where { pred: Pred::ContentIsNot("'"@) }, "token"@),
            (Pat::Raw { target: "'"@ }, ""@),
        ],
    }
}

/// A code-point range: a unit, two dots, a unit.
pub open spec fn meta_range_seq() -> Pat {
    Pat::Mult {
        items: seq![
            (Pat::Any, "start"@),
            (Pat::Raw { target: "."@ }, ""@),
            (Pat::Raw { target: "."@ }, ""@),
            (Pat::Any, "end"@),
        ],
    }
}

/// A quoted literal: characters between braces, an implicit concatenation.
pub open spec fn meta_quote_seq() -> Pat {
    Pat::Mult {
        items: seq![
            (Pat::Raw { target: "{"@ }, ""@),
            (
                Pat::OneOrMore {
                    inner: Box::new(Pat::Where { pred: Pred::ContentIsNot("}"@) }),
                    name: ""@,
                },
                "chars"@,
            ),
            (Pat::Raw { target: "}"@ }, ""@),
        ],
    }
}

/// A character class: characters between brackets, an alternation.
pub open spec fn meta_from_chars_seq() -> Pat {
    Pat::Mult {
        items: seq![
            (Pat::Raw { target: "["@ }, ""@),
            (
                Pat::OneOrMore {
                    inner: Box::new(Pat::Where { pred: Pred::ContentIsNot("]"@) }),
                    name: ""@,
                },
                "chars"@,
            ),
            (Pat::Raw { target: "]"@ }, ""@),
        ],
    }
}

/// A parenthesized group.
pub open spec fn meta_paren_seq() -> Pat {
    Pat::Mult {
        items: seq![
            (Pat::Raw { target: "("@ }, ""@),
            (Pat::Ref { name: "seq"@ }, "seq"@),
            (Pat::Raw { target: ")"@ }, ""@),
        ],
    }
}

/// An optional `.label` member name.
pub open spec fn meta_opt_name() -> Pat {
    Pat::Opt {
        inner: Box::new(
            Pat::Mult {
                items: seq![
                    (Pat::Raw { target: "."@ }, ""@),
                    (Pat::Ref { name: "word"@ }, "name"@),
                ],
            },
        ),
        name: "name"@,
    }
}

/// An optional `:label` member name.
pub open spec fn meta_opt_mult_name() -> Pat {
    Pat::Opt {
        inner: Box::new(
            Pat::Mult {
                items: seq![
                    (Pat::Raw { target: ":"@ }, ""@),
                    (Pat::Ref { name: "word"@ }, "name"@),
                ],
            },
        ),
        name: "name"@,
    }
}

/// A whole rule set: any number of rule definitions.
pub open spec fn meta_main() -> Pat {
    Pat::NoneOrMore { inner: Box::new(Pat::Ref { name: "rule"@ }), name: "rule"@ }
}

/// The whole bootstrap table.
pub open spec fn meta_map() -> Map<Seq<char>, Pat> {
    Map::empty().insert("ws*"@, meta_ws_star()).insert("wordChar"@, meta_word_char()).insert(
        "word"@,
        meta_word(),
    ).insert("rule"@, meta_rule()).insert("seq"@, meta_seq()).insert(
        "noMultSeq"@,
        meta_no_mult_seq(),
    ).insert("noChooseSeq"@, meta_no_choose_seq()).insert(
        "oneSuffixSeq"@,
        meta_one_suffix_seq(),
    ).insert("oneSeq"@, meta_one_seq()).insert("rawSeq"@, meta_raw_seq()).insert(
        "rangeSeq"@,
        meta_range_seq(),
    ).insert("quoteSeq"@, meta_quote_seq()).insert("fromCharsSeq"@, meta_from_chars_seq()).insert(
        "parenSeq"@,
        meta_paren_seq(),
    ).insert("optName"@, meta_opt_name()).insert("optMultName"@, meta_opt_mult_name()).insert(
        "main"@,
        meta_main(),
    )
}

/// A single-unit literal matcher.
fn raw(s: &str) -> (r: Sequence)
    ensures
        r@ == (Pat::Raw { target: s@ }),
{
    Sequence::Raw(RawSeq::new(s.to_owned()))
}

/// A named-reference matcher.
fn refer(s: &str) -> (r: Sequence)
    ensures
        r@ == (Pat::Ref { name: s@ }),
{
    Sequence::Ref(RefSeq::new(s.to_owned()))
}

/// An ordered choice over the characters of `s`.
fn chars(s: &str) -> (r: Sequence)
    ensures
        r@ == (Pat::Choose { items: chars_pats(s@) }),
{
    Sequence::Choose(ChooseSeq::from_chars(s))
}

/// A zero-or-more repetition of `inner` under `name`.
fn star_of(inner: Sequence, name: &str) -> (r: Sequence)
    ensures
        r@ == (Pat::NoneOrMore { inner: Box::new(inner@), name: name@ }),
{
    Sequence::NoneOrMore(NoneOrMoreSeq::new(Box::new(inner), name.to_owned()))
}

/// A one-or-more repetition of `inner` under `name`.
fn plus_of(inner: Sequence, name: &str) -> (r: Sequence)
    ensures
        r@ == (Pat::OneOrMore { inner: Box::new(inner@), name: name@ }),
{
    Sequence::OneOrMore(OneOrMoreSeq::new(Box::new(inner), name.to_owned()))
}

/// An optional occurrence of `inner` under `name`.
fn opt_of(inner: Sequence, name: &str) -> (r: Sequence)
    ensures
        r@ == (Pat::Opt { inner: Box::new(inner@), name: name@ }),
{
    Sequence::Opt(OptSeq::new(Box::new(inner), name.to_owned()))
}

/// A single-unit matcher for anything but the string `s`.
fn where_not(s: &str) -> (r: Sequence)
    ensures
        r@ == (Pat::Where { pred: Pred::ContentIsNot(s@) }),
{
    Sequence::Where(WhereSeq::new(Predicate::ContentIsNot(s.to_owned())))
}

/// A concatenation over the collected members.
fn mult_of(items: Vec<(Sequence, String)>) -> (r: Sequence)
    ensures
        r@ == (Pat::Mult { items: pair_pats(items@, 0) }),
{
    Sequence::Mult(MultSeq::new(items))
}

/// An ordered choice over the collected members.
fn choose_of(items: Vec<(Sequence, String)>) -> (r: Sequence)
    ensures
        r@ == (Pat::Choose { items: pair_pats(items@, 0) }),
{
    Sequence::Choose(ChooseSeq::new(items))
}

/// Collect one labelled member.
fn push_item(items: &mut Vec<(Sequence, String)>, s: Sequence, name: &str)
    ensures
        pair_pats(final(items)@, 0) == pair_pats(old(items)@, 0).push((s@, name@)),
{
    let ghost before = items@;
    let it = (s, name.to_owned());
    let ghost git = it;
    items.push(it);
    proof {
        lemma_pair_pats_push(before, git);
    }
}

/// The `rule` production.
fn build_rule() -> (r: Sequence)
    ensures
        r@ == meta_rule(),
{
    let mut items: Vec<(Sequence, String)> = Vec::new();
    push_item(&mut items, refer("ws*"), "");
    push_item(&mut items, refer("word"), "name");
    push_item(&mut items, refer("ws*"), "");
    push_item(&mut items, raw("="), "");
    push_item(&mut items, refer("ws*"), "");
    push_item(&mut items, refer("seq"), "seq");
    push_item(&mut items, refer("ws*"), "");
    proof {
        assert(pair_pats(items@, 0) =~= meta_rule()->Mult_items);
    }
    mult_of(items)
}

/// The `seq` (concatenation) production.
fn build_seq() -> (r: Sequence)
    ensures
        r@ == meta_seq(),
{
    let mut inner: Vec<(Sequence, String)> = Vec::new();
    push_item(&mut inner, refer("ws*"), "");
    push_item(&mut inner, chars("&+"), "oper");
    push_item(&mut inner, refer("ws*"), "");
    push_item(&mut inner, refer("noMultSeq"), "seq");
    push_item(&mut inner, refer("optMultName"), "name");
    proof {
        assert(pair_pats(inner@, 0) =~= seq![
            (Pat::Ref { name: "ws*"@ }, ""@),
            (Pat::Choose { items: chars_pats("&+"@) }, "oper"@),
            (Pat::Ref { name: "ws*"@ }, ""@),
            (Pat::Ref { name: "noMultSeq"@ }, "seq"@),
            (Pat::Ref { name: "optMultName"@ }, "name"@),
        ]);
    }
    let rhs = star_of(mult_of(inner), "rhs's");
    let mut items: Vec<(Sequence, String)> = Vec::new();
    push_item(&mut items, refer("noMultSeq"), "lhs");
    push_item(&mut items, refer("optMultName"), "name");
    push_item(&mut items, rhs, "rhs's");
    proof {
        assert(pair_pats(items@, 0) =~= meta_seq()->Mult_items);
    }
    mult_of(items)
}

/// The `noMultSeq` (alternation) production.
fn build_no_mult_seq() -> (r: Sequence)
    ensures
        r@ == meta_no_mult_seq(),
{
    let mut inner: Vec<(Sequence, String)> = Vec::new();
    push_item(&mut inner, refer("ws*"), "");
    push_item(&mut inner, raw("|"), "");
    push_item(&mut inner, refer("ws*"), "");
    push_item(&mut inner, refer("noChooseSeq"), "seq");
    push_item(&mut inner, refer("optName"), "name");
    proof {
        assert(pair_pats(inner@, 0) =~= seq![
            (Pat::Ref { name: "ws*"@ }, ""@),
            (Pat::Raw { target: "|"@ }, ""@),
            (Pat::Ref { name: "ws*"@ }, ""@),
            (Pat::Ref { name: "noChooseSeq"@ }, "seq"@),
            (Pat::Ref { name: "optName"@ }, "name"@),
        ]);
    }
    let rhs = star_of(mult_of(inner), "rhs's");
    let mut items: Vec<(Sequence, String)> = Vec::new();
    push_item(&mut items, refer("noChooseSeq"), "lhs");
    push_item(&mut items, refer("optName"), "name");
    push_item(&mut items, rhs, "rhs's");
    proof {
        assert(pair_pats(items@, 0) =~= meta_no_mult_seq()->Mult_items);
    }
    mult_of(items)
}

/// The `noChooseSeq` production.
fn build_no_choose_seq() -> (r: Sequence)
    ensures
        r@ == meta_no_choose_seq(),
{
    let mut items: Vec<(Sequence, String)> = Vec::new();
    push_item(&mut items, refer("oneSuffixSeq"), "oneSuffix");
    push_item(&mut items, refer("oneSeq"), "one");
    proof {
        assert(pair_pats(items@, 0) =~= meta_no_choose_seq()->Choose_items);
    }
    choose_of(items)
}

/// The `oneSuffixSeq` (suffixed term) production.
fn build_one_suffix_seq() -> (r: Sequence)
    ensures
        r@ == meta_one_suffix_seq(),
{
    let mut items: Vec<(Sequence, String)> = Vec::new();
    push_item(&mut items, refer("oneSeq"), "seq");
    push_item(&mut items, refer("optName"), "name");
    push_item(&mut items, chars("+*?!"), "plus");
    proof {
        assert(pair_pats(items@, 0) =~= meta_one_suffix_seq()->Mult_items);
    }
    mult_of(items)
}

/// The `oneSeq` (single term) production.
fn build_one_seq() -> (r: Sequence)
    ensures
        r@ == meta_one_seq(),
{
    let mut items: Vec<(Sequence, String)> = Vec::new();
    push_item(&mut items, refer("rawSeq"), "raw");
    push_item(&mut items, refer("parenSeq"), "paren");
    push_item(&mut items, refer("rangeSeq"), "range");
    push_item(&mut items, refer("word"), "ref");
    push_item(&mut items, refer("quoteSeq"), "quote");
    push_item(&mut items, refer("fromCharsSeq"), "fromChars");
    proof {
        assert(pair_pats(items@, 0) =~= meta_one_seq()->Choose_items);
    }
    choose_of(items)
}

/// The `rawSeq` (quoted single character) production.
fn build_raw_seq() -> (r: Sequence)
    ensures
        r@ == meta_raw_seq(),
{
    let mut items: Vec<(Sequence, String)> = Vec::new();
    push_item(&mut items, raw("'"), "");
    push_item(&mut items, where_not("'"), "token");
    push_item(&mut items, raw("'"), "");
    proof {
        assert(pair_pats(items@, 0) =~= meta_raw_seq()->Mult_items);
    }
    mult_of(items)
}

/// The `rangeSeq` (code-point range) production.
fn build_range_seq() -> (r: Sequence)
    ensures
        r@ == meta_range_seq(),
{
    let mut items: Vec<(Sequence, String)> = Vec::new();
    push_item(&mut items, Sequence::Any(AnySeq::new()), "start");
    push_item(&mut items, raw("."), "");
    push_item(&mut items, raw("."), "");
    push_item(&mut items, Sequence::Any(AnySeq::new()), "end");
    proof {
        assert(pair_pats(items@, 0) =~= meta_range_seq()->Mult_items);
    }
    mult_of(items)
}

/// The `quoteSeq` (braced literal) production.
fn build_quote_seq() -> (r: Sequence)
    ensures
        r@ == meta_quote_seq(),
{
    let mut items: Vec<(Sequence, String)> = Vec::new();
    push_item(&mut items, raw("{"), "");
    push_item(&mut items, plus_of(where_not("}"), ""), "chars");
    push_item(&mut items, raw("}"), "");
    proof {
        assert(pair_pats(items@, 0) =~= meta_quote_seq()->Mult_items);
    }
    mult_of(items)
}

/// The `fromCharsSeq` (character class) production.
fn build_from_chars_seq() -> (r: Sequence)
    ensures
        r@ == meta_from_chars_seq(),
{
    let mut items: Vec<(Sequence, String)> = Vec::new();
    push_item(&mut items, raw("["), "");
    push_item(&mut items, plus_of(where_not("]"), ""), "chars");
    push_item(&mut items, raw("]"), "");
    proof {
        assert(pair_pats(items@, 0) =~= meta_from_chars_seq()->Mult_items);
    }
    mult_of(items)
}

/// The `parenSeq` (grouping) production.
fn build_paren_seq() -> (r: Sequence)
    ensures
        r@ == meta_paren_seq(),
{
    let mut items: Vec<(Sequence, String)> = Vec::new();
    push_item(&mut items, raw("("), "");
    push_item(&mut items, refer("seq"), "seq");
    push_item(&mut items, raw(")"), "");
    proof {
        assert(pair_pats(items@, 0) =~= meta_paren_seq()->Mult_items);
    }
    mult_of(items)
}

/// The `optName` (`.label`) production.
fn build_opt_name() -> (r: Sequence)
    ensures
        r@ == meta_opt_name(),
{
    let mut inner: Vec<(Sequence, String)> = Vec::new();
    push_item(&mut inner, raw("."), "");
    push_item(&mut inner, refer("word"), "name");
    proof {
        assert(pair_pats(inner@, 0) =~= meta_opt_name()->Opt_inner->Mult_items);
    }
    opt_of(mult_of(inner), "name")
}

/// The `optMultName` (`:label`) production.
fn build_opt_mult_name() -> (r: Sequence)
    ensures
        r@ == meta_opt_mult_name(),
{
    let mut inner: Vec<(Sequence, String)> = Vec::new();
    push_item(&mut inner, raw(":"), "");
    push_item(&mut inner, refer("word"), "name");
    proof {
        assert(pair_pats(inner@, 0) =~= meta_opt_mult_name()->Opt_inner->Mult_items);
    }
    opt_of(mult_of(inner), "name")
}

/// Build the bootstrap table: the fixed point of the notation, written
/// once, directly from primitives, and never regenerated from text.
pub fn meta_seqs() -> (r: RefMap)
    ensures
        r@ == meta_map(),
{
    let mut map = RefMap::new();
    map.insert("ws*".to_owned(), star_of(chars(" \t\n\r"), ""));
    map.insert(
        "wordChar".to_owned(),
        chars("abcdefghijklmnopqrstuvwxyzABCDEFGHIJKLMNOPQRSTUVWXYZ1234567890_-"),
    );
    map.insert("word".to_owned(), plus_of(refer("wordChar"), ""));
    map.insert("rule".to_owned(), build_rule());
    map.insert("seq".to_owned(), build_seq());
    map.insert("noMultSeq".to_owned(), build_no_mult_seq());
    map.insert("noChooseSeq".to_owned(), build_no_choose_seq());
    map.insert("oneSuffixSeq".to_owned(), build_one_suffix_seq());
    map.insert("oneSeq".to_owned(), build_one_seq());
    map.insert("rawSeq".to_owned(), build_raw_seq());
    map.insert("rangeSeq".to_owned(), build_range_seq());
    map.insert("quoteSeq".to_owned(), build_quote_seq());
    map.insert("fromCharsSeq".to_owned(), build_from_chars_seq());
    map.insert("parenSeq".to_owned(), build_paren_seq());
    map.insert("optName".to_owned(), build_opt_name());
    map.insert("optMultName".to_owned(), build_opt_mult_name());
    map.insert("main".to_owned(), star_of(refer("rule"), "rule"));
    map
}

/// The label a concatenation or alternation member carries, read off the
/// capture of the optional-name production: the empty label when the
/// optional name is absent, `None` when the capture is malformed.
pub open spec fn member_name_spec(src: Seq<char>, t: Node) -> Option<Seq<char>> {
    match node_first_child(t, "name"@) {
        Option::None => None,
        Option::Some(n1) => match node_first_child(n1, "name"@) {
            Option::None => Some(Seq::<char>::empty()),
            Option::Some(n2) => match node_first_child(n2, "name"@) {
                Option::None => None,
                Option::Some(n3) => Some(node_content(src, n3)),
            },
        },
    }
}

/// What one rule definition capture compiles to: the rule's name and its
/// matcher.
pub open spec fn eval_rule_spec(src: Seq<char>, rule: Node, fuel: nat) -> Option<
    (Seq<char>, Pat),
>
    decreases fuel, 0int,
{
    if fuel == 0 {
        None
    } else {
        let f = (fuel - 1) as nat;
        match node_first_child(rule, "name"@) {
            Option::None => None,
            Option::Some(name_node) => match node_first_child(rule, "seq"@) {
                Option::None => None,
                Option::Some(seq_node) => match eval_seq_spec(src, seq_node, f) {
                    Option::None => None,
                    Option::Some(p) => Some((node_content(src, name_node), p)),
                },
            },
        }
    }
}

/// What a concatenation capture compiles to.  A lone member stays bare; a
/// `+` operator splices a whitespace-skip reference before its member.
pub open spec fn eval_seq_spec(src: Seq<char>, t: Node, fuel: nat) -> Option<Pat>
    decreases fuel, 0int,
{
    if fuel == 0 {
        None
    } else {
        let f = (fuel - 1) as nat;
        match node_first_child(t, "lhs"@) {
            Option::None => None,
            Option::Some(lhs) => match eval_no_mult_seq_spec(src, lhs, f) {
                Option::None => None,
                Option::Some(p0) => match member_name_spec(src, t) {
                    Option::None => None,
                    Option::Some(n0) => match node_first_child(t, "rhs's"@) {
                        Option::None => None,
                        Option::Some(rc) => match eval_seq_items_spec(
                            src,
                            node_children(rc, "rhs's"@),
                            0,
                            seq![(p0, n0)],
                            f,
                        ) {
                            Option::None => None,
                            Option::Some(items) => if items.len() == 1 {
                                Some(items[0].0)
                            } else {
                                Some(Pat::Mult { items })
                            },
                        },
                    },
                },
            },
        }
    }
}

/// The members a concatenation's tail contributes, collected onto `acc`.
pub open spec fn eval_seq_items_spec(
    src: Seq<char>,
    rhss: Seq<Node>,
    i: int,
    acc: Seq<(Pat, Seq<char>)>,
    fuel: nat,
) -> Option<Seq<(Pat, Seq<char>)>>
    decreases fuel, rhss.len() - i + 1,
{
    if i < 0 || i >= rhss.len() {
        Some(acc)
    } else {
        match node_first_child(rhss[i], "oper"@) {
            Option::None => None,
            Option::Some(oper) => {
                let acc1 = if node_content(src, oper) == "+"@ {
                    acc.push((Pat::Ref { name: "ws"@ }, Seq::<char>::empty()))
                } else {
                    acc
                };
                match node_first_child(rhss[i], "seq"@) {
                    Option::None => None,
                    Option::Some(st) => match eval_no_mult_seq_spec(src, st, fuel) {
                        Option::None => None,
                        Option::Some(p) => match member_name_spec(src, rhss[i]) {
                            Option::None => None,
                            Option::Some(nm) => eval_seq_items_spec(
                                src,
                                rhss,
                                i + 1,
                                acc1.push((p, nm)),
                                fuel,
                            ),
                        },
                    },
                }
            },
        }
    }
}

/// What an alternation capture compiles to.  A lone member stays bare.
pub open spec fn eval_no_mult_seq_spec(src: Seq<char>, t: Node, fuel: nat) -> Option<Pat>
    decreases fuel, 0int,
{
    if fuel == 0 {
        None
    } else {
        let f = (fuel - 1) as nat;
        match node_first_child(t, "lhs"@) {
            Option::None => None,
            Option::Some(lhs) => match eval_no_choose_seq_spec(src, lhs, f) {
                Option::None => None,
                Option::Some(p0) => match member_name_spec(src, t) {
                    Option::None => None,
                    Option::Some(n0) => match node_first_child(t, "rhs's"@) {
                        Option::None => None,
                        Option::Some(rc) => match eval_choice_items_spec(
                            src,
                            node_children(rc, "rhs's"@),
                            0,
                            seq![(p0, n0)],
                            f,
                        ) {
                            Option::None => None,
                            Option::Some(items) => if items.len() == 1 {
                                Some(items[0].0)
                            } else {
                                Some(Pat::Choose { items })
                            },
                        },
                    },
                },
            },
        }
    }
}

/// The members an alternation's tail contributes, collected onto `acc`.
pub open spec fn eval_choice_items_spec(
    src: Seq<char>,
    rhss: Seq<Node>,
    i: int,
    acc: Seq<(Pat, Seq<char>)>,
    fuel: nat,
) -> Option<Seq<(Pat, Seq<char>)>>
    decreases fuel, rhss.len() - i + 1,
{
    if i < 0 || i >= rhss.len() {
        Some(acc)
    } else {
        match node_first_child(rhss[i], "seq"@) {
            Option::None => None,
            Option::Some(st) => match eval_no_choose_seq_spec(src, st, fuel) {
                Option::None => None,
                Option::Some(p) => match member_name_spec(src, rhss[i]) {
                    Option::None => None,
                    Option::Some(nm) => eval_choice_items_spec(
                        src,
                        rhss,
                        i + 1,
                        acc.push((p, nm)),
                        fuel,
                    ),
                },
            },
        }
    }
}

/// What a suffixed-or-bare term capture compiles to.
pub open spec fn eval_no_choose_seq_spec(src: Seq<char>, t: Node, fuel: nat) -> Option<Pat>
    decreases fuel, 0int,
{
    if fuel == 0 {
        None
    } else {
        let f = (fuel - 1) as nat;
        match node_first_child(t, "one"@) {
            Option::Some(one) => eval_one_seq_spec(src, one, f),
            Option::None => match node_first_child(t, "oneSuffix"@) {
                Option::Some(sfx) => eval_suffix_seq_spec(src, sfx, f),
                Option::None => match node_first_child(t, "suffix"@) {
                    Option::Some(sfx) => eval_suffix_seq_spec(src, sfx, f),
                    Option::None => None,
                },
            },
        }
    }
}

/// What a suffixed term capture compiles to: the suffix character picks
/// the repetition, option or lookahead wrapper.
pub open spec fn eval_suffix_seq_spec(src: Seq<char>, t: Node, fuel: nat) -> Option<Pat>
    decreases fuel, 0int,
{
    if fuel == 0 {
        None
    } else {
        let f = (fuel - 1) as nat;
        match node_first_child(t, "seq"@) {
            Option::None => None,
            Option::Some(child) => match eval_one_seq_spec(src, child, f) {
                Option::None => None,
                Option::Some(p) => match member_name_spec(src, t) {
                    Option::None => None,
                    Option::Some(nm) => match node_first_child(t, "plus"@) {
                        Option::None => None,
                        Option::Some(plus) => {
                            let c = node_content(src, plus);
                            if c == "+"@ {
                                Some(Pat::OneOrMore { inner: Box::new(p), name: nm })
                            } else if c == "*"@ {
                                Some(Pat::NoneOrMore { inner: Box::new(p), name: nm })
                            } else if c == "?"@ {
                                Some(Pat::Opt { inner: Box::new(p), name: nm })
                            } else if c == "!"@ {
                                Some(Pat::Except { inner: Box::new(p) })
                            } else {
                                Some(p)
                            }
                        },
                    },
                },
            },
        }
    }
}

/// What a single term capture compiles to: a literal, a reference, a
/// group, a quoted literal, a character class or a code-point range.
pub open spec fn eval_one_seq_spec(src: Seq<char>, t: Node, fuel: nat) -> Option<Pat>
    decreases fuel, 0int,
{
    if fuel == 0 {
        None
    } else {
        let f = (fuel - 1) as nat;
        match node_first_child(t, "raw"@) {
            Option::Some(rawn) => match node_first_child(rawn, "token"@) {
                Option::None => None,
                Option::Some(tok) => Some(Pat::Raw { target: node_content(src, tok) }),
            },
            Option::None => match node_first_child(t, "ref"@) {
                Option::Some(rn) => Some(Pat::Ref { name: node_content(src, rn) }),
                Option::None => match node_first_child(t, "paren"@) {
                    Option::Some(pn) => match node_first_child(pn, "seq"@) {
                        Option::None => None,
                        Option::Some(sn) => eval_seq_spec(src, sn, f),
                    },
                    Option::None => match node_first_child(t, "quote"@) {
                        Option::Some(qn) => match node_first_child(qn, "chars"@) {
                            Option::None => None,
                            Option::Some(cn) => Some(
                                Pat::Mult { items: literal_pats(node_content(src, cn)) },
                            ),
                        },
                        Option::None => match node_first_child(t, "fromChars"@) {
                            Option::Some(fc) => match node_first_child(fc, "chars"@) {
                                Option::None => None,
                                Option::Some(cn) => Some(
                                    Pat::Choose { items: chars_pats(node_content(src, cn)) },
                                ),
                            },
                            Option::None => match node_first_child(t, "range"@) {
                                Option::Some(rg) => match (
                                    node_first_child(rg, "start"@),
                                    node_first_child(rg, "end"@),
                                ) {
                                    (Option::Some(s0), Option::Some(e0)) => {
                                        let cs = node_content(src, s0);
                                        let ce = node_content(src, e0);
                                        if cs.len() > 0 && ce.len() > 0 {
                                            Some(
                                                Pat::Range { lo: cs[0] as u32, hi: ce[0] as u32 },
                                            )
                                        } else {
                                            None
                                        }
                                    },
                                    _ => None,
                                },
                                Option::None => None,
                            },
                        },
                    },
                },
            },
        }
    }
}

/// The two built-in rules every compiled table starts from: a
/// whitespace-run rule and an always-succeed rule.
pub open spec fn base_map() -> Map<Seq<char>, Pat> {
    Map::empty().insert("ws"@, Pat::Whitespace).insert("_"@, Pat::Nil)
}

/// The table the rule captures `rules[i..]` compile to, over `acc`.
pub open spec fn eval_rules_spec(
    src: Seq<char>,
    rules: Seq<Node>,
    i: int,
    acc: Map<Seq<char>, Pat>,
    fuel: nat,
) -> Option<Map<Seq<char>, Pat>>
    decreases rules.len() - i,
{
    if i < 0 || i >= rules.len() {
        Some(acc)
    } else {
        match eval_rule_spec(src, rules[i], fuel) {
            Option::None => None,
            Option::Some(r) => eval_rules_spec(src, rules, i + 1, acc.insert(r.0, r.1), fuel),
        }
    }
}

/// What a rule-set text compiles to: `None` when the text does not match
/// the bootstrap's whole-rule-set production completely, or when the
/// capture walk meets a malformed shape; otherwise the compiled table over
/// the two built-in rules.
pub open spec fn rule_set_spec(src: Seq<char>) -> Option<Map<Seq<char>, Pat>> {
    match pat_match(
        meta_map()["main"@],
        src,
        corpus_nodes(src.len() as int),
        0,
        meta_map(),
        FULL_FUEL as nat,
    ) {
        Option::None => None,
        Option::Some(res) => if res.0 == src.len() {
            eval_rules_spec(src, node_children(res.1, "rule"@), 0, base_map(), FULL_FUEL as nat)
        } else {
            None
        },
    }
}

/// The member label, mirrored in execution.
fn member_name(source: &str, t: &Token) -> (r: Option<String>)
    ensures
        (match r {
            Option::Some(s) => Some(s@),
            Option::None => None::<Seq<char>>,
        }) == member_name_spec(source@, t@),
{
    match t.get_first_child("name") {
        Option::None => None,
        Option::Some(n1) => match n1.get_first_child("name") {
            Option::None => Some(String::new()),
            Option::Some(n2) => match n2.get_first_child("name") {
                Option::None => None,
                Option::Some(n3) => Some(n3.content(source).to_owned()),
            },
        },
    }
}

/// The concatenation a quoted literal compiles to: one single-character
/// literal per character of `s`, all unlabelled.
fn literal_chain(s: &str) -> (r: Sequence)
    ensures
        r@ == (Pat::Mult { items: literal_pats(s@) }),
{
    let n = s.unicode_len();
    let mut items: Vec<(Sequence, String)> = Vec::new();
    proof {
        assert(pair_pats(items@, 0) =~= literal_pats(s@).subrange(0, 0));
    }
    let mut i: usize = 0;
    while i < n
        invariant
            n == s@.len(),
            i <= n,
            pair_pats(items@, 0) == literal_pats(s@).subrange(0, i as int),
        decreases n - i,
    {
        let c = s.substring_char(i, i + 1);
        proof {
            assert(c@ =~= seq![s@[i as int]]);
        }
        push_item(&mut items, raw(c), "");
        proof {
            reveal_strlit("");
            assert(""@ =~= Seq::<char>::empty());
            assert(pair_pats(items@, 0) =~= literal_pats(s@).subrange(0, i as int + 1));
        }
        i = i + 1;
    }
    proof {
        assert(pair_pats(items@, 0) =~= literal_pats(s@));
    }
    mult_of(items)
}

/// Compile one rule definition capture, with the recursion budget `fuel`.
pub fn eval_rule(source: &str, rule: &Token, fuel: u64) -> (r: Option<(String, Sequence)>)
    ensures
        (match r {
            Option::Some(p) => Some((p.0@, p.1@)),
            Option::None => None::<(Seq<char>, Pat)>,
        }) == eval_rule_spec(source@, rule@, fuel as nat),
    decreases fuel, 0int,
{
    if fuel == 0 {
        return None;
    }
    let f = fuel - 1;
    let name_node = match rule.get_first_child("name") {
        Option::Some(t) => t,
        Option::None => return None,
    };
    let seq_node = match rule.get_first_child("seq") {
        Option::Some(t) => t,
        Option::None => return None,
    };
    match eval_seq(source, &seq_node, f) {
        Option::None => None,
        Option::Some(p) => Some((name_node.content(source).to_owned(), p)),
    }
}

/// Compile a concatenation capture.
pub fn eval_seq(source: &str, token: &Token, fuel: u64) -> (r: Option<Sequence>)
    ensures
        (match r {
            Option::Some(s) => Some(s@),
            Option::None => None::<Pat>,
        }) == eval_seq_spec(source@, token@, fuel as nat),
    decreases fuel, 0int,
{
    if fuel == 0 {
        return None;
    }
    let f = fuel - 1;
    let lhs = match token.get_first_child("lhs") {
        Option::Some(t) => t,
        Option::None => return None,
    };
    let p0 = match eval_no_mult_seq(source, &lhs, f) {
        Option::Some(p) => p,
        Option::None => return None,
    };
    let n0 = match member_name(source, token) {
        Option::Some(n) => n,
        Option::None => return None,
    };
    let rc = match token.get_first_child("rhs's") {
        Option::Some(t) => t,
        Option::None => return None,
    };
    let rhss = rc.get_children("rhs's");
    let mut items: Vec<(Sequence, String)> = Vec::new();
    let it = (p0, n0);
    let ghost git = it;
    items.push(it);
    proof {
        lemma_pair_pats_push(Seq::empty(), git);
        assert(pair_pats(items@, 0) =~= seq![(git.0@, git.1@)]);
    }
    match eval_seq_items(source, &rhss, 0, items, f) {
        Option::None => None,
        Option::Some(v) => {
            proof {
                lemma_pair_pats(v@, 0);
            }
            if v.len() == 1 {
                let mut v = v;
                let first = v.remove(0);
                Some(first.0)
            } else {
                Some(mult_of(v))
            }
        },
    }
}

/// The members a concatenation's tail contributes, mirrored in execution.
fn eval_seq_items(
    source: &str,
    rhss: &Vec<Token>,
    i: usize,
    acc: Vec<(Sequence, String)>,
    fuel: u64,
) -> (r: Option<Vec<(Sequence, String)>>)
    requires
        i <= rhss@.len(),
    ensures
        (match r {
            Option::Some(v) => Some(pair_pats(v@, 0)),
            Option::None => None::<Seq<(Pat, Seq<char>)>>,
        }) == eval_seq_items_spec(
            source@,
            tokens_nodes(rhss@),
            i as int,
            pair_pats(acc@, 0),
            fuel as nat,
        ),
    decreases fuel, rhss@.len() - i + 1,
{
    if i >= rhss.len() {
        return Some(acc);
    }
    let mut acc = acc;
    let oper = match (&rhss[i]).get_first_child("oper") {
        Option::Some(t) => t,
        Option::None => return None,
    };
    let oc = oper.content(source);
    if str_eq_str(oc, "+") {
        let ghost before = acc@;
        let it = (refer("ws"), String::new());
        let ghost git = it;
        acc.push(it);
        proof {
            lemma_pair_pats_push(before, git);
        }
    }
    let st = match (&rhss[i]).get_first_child("seq") {
        Option::Some(t) => t,
        Option::None => return None,
    };
    let p = match eval_no_mult_seq(source, &st, fuel) {
        Option::Some(p) => p,
        Option::None => return None,
    };
    let nm = match member_name(source, &rhss[i]) {
        Option::Some(n) => n,
        Option::None => return None,
    };
    let ghost before = acc@;
    let it = (p, nm);
    let ghost git = it;
    acc.push(it);
    proof {
        lemma_pair_pats_push(before, git);
    }
    eval_seq_items(source, rhss, i + 1, acc, fuel)
}

/// Compile an alternation capture.
pub fn eval_no_mult_seq(source: &str, token: &Token, fuel: u64) -> (r: Option<Sequence>)
    ensures
        (match r {
            Option::Some(s) => Some(s@),
            Option::None => None::<Pat>,
        }) == eval_no_mult_seq_spec(source@, token@, fuel as nat),
    decreases fuel, 0int,
{
    if fuel == 0 {
        return None;
    }
    let f = fuel - 1;
    let lhs = match token.get_first_child("lhs") {
        Option::Some(t) => t,
        Option::None => return None,
    };
    let p0 = match eval_no_choose_seq(source, &lhs, f) {
        Option::Some(p) => p,
        Option::None => return None,
    };
    let n0 = match member_name(source, token) {
        Option::Some(n) => n,
        Option::None => return None,
    };
    let rc = match token.get_first_child("rhs's") {
        Option::Some(t) => t,
        Option::None => return None,
    };
    let rhss = rc.get_children("rhs's");
    let mut items: Vec<(Sequence, String)> = Vec::new();
    let it = (p0, n0);
    let ghost git = it;
    items.push(it);
    proof {
        lemma_pair_pats_push(Seq::empty(), git);
        assert(pair_pats(items@, 0) =~= seq![(git.0@, git.1@)]);
    }
    match eval_choice_items(source, &rhss, 0, items, f) {
        Option::None => None,
        Option::Some(v) => {
            proof {
                lemma_pair_pats(v@, 0);
            }
            if v.len() == 1 {
                let mut v = v;
                let first = v.remove(0);
                Some(first.0)
            } else {
                Some(choose_of(v))
            }
        },
    }
}

/// The members an alternation's tail contributes, mirrored in execution.
fn eval_choice_items(
    source: &str,
    rhss: &Vec<Token>,
    i: usize,
    acc: Vec<(Sequence, String)>,
    fuel: u64,
) -> (r: Option<Vec<(Sequence, String)>>)
    requires
        i <= rhss@.len(),
    ensures
        (match r {
            Option::Some(v) => Some(pair_pats(v@, 0)),
            Option::None => None::<Seq<(Pat, Seq<char>)>>,
        }) == eval_choice_items_spec(
            source@,
            tokens_nodes(rhss@),
            i as int,
            pair_pats(acc@, 0),
            fuel as nat,
        ),
    decreases fuel, rhss@.len() - i + 1,
{
    if i >= rhss.len() {
        return Some(acc);
    }
    let mut acc = acc;
    let st = match (&rhss[i]).get_first_child("seq") {
        Option::Some(t) => t,
        Option::None => return None,
    };
    let p = match eval_no_choose_seq(source, &st, fuel) {
        Option::Some(p) => p,
        Option::None => return None,
    };
    let nm = match member_name(source, &rhss[i]) {
        Option::Some(n) => n,
        Option::None => return None,
    };
    let ghost before = acc@;
    let it = (p, nm);
    let ghost git = it;
    acc.push(it);
    proof {
        lemma_pair_pats_push(before, git);
    }
    eval_choice_items(source, rhss, i + 1, acc, fuel)
}

/// Compile a suffixed-or-bare term capture.
pub fn eval_no_choose_seq(source: &str, token: &Token, fuel: u64) -> (r: Option<Sequence>)
    ensures
        (match r {
            Option::Some(s) => Some(s@),
            Option::None => None::<Pat>,
        }) == eval_no_choose_seq_spec(source@, token@, fuel as nat),
    decreases fuel, 0int,
{
    if fuel == 0 {
        return None;
    }
    let f = fuel - 1;
    match token.get_first_child("one") {
        Option::Some(one) => eval_one_seq(source, &one, f),
        Option::None => match token.get_first_child("oneSuffix") {
            Option::Some(sfx) => eval_suffix_seq(source, &sfx, f),
            Option::None => match token.get_first_child("suffix") {
                Option::Some(sfx) => eval_suffix_seq(source, &sfx, f),
                Option::None => None,
            },
        },
    }
}

/// Compile a suffixed term capture.
pub fn eval_suffix_seq(source: &str, token: &Token, fuel: u64) -> (r: Option<Sequence>)
    ensures
        (match r {
            Option::Some(s) => Some(s@),
            Option::None => None::<Pat>,
        }) == eval_suffix_seq_spec(source@, token@, fuel as nat),
    decreases fuel, 0int,
{
    if fuel == 0 {
        return None;
    }
    let f = fuel - 1;
    let child = match token.get_first_child("seq") {
        Option::Some(t) => t,
        Option::None => return None,
    };
    let p = match eval_one_seq(source, &child, f) {
        Option::Some(p) => p,
        Option::None => return None,
    };
    let nm = match member_name(source, token) {
        Option::Some(n) => n,
        Option::None => return None,
    };
    let plus = match token.get_first_child("plus") {
        Option::Some(t) => t,
        Option::None => return None,
    };
    let c = plus.content(source);
    if str_eq_str(c, "+") {
        Some(Sequence::OneOrMore(OneOrMoreSeq::new(Box::new(p), nm)))
    } else if str_eq_str(c, "*") {
        Some(Sequence::NoneOrMore(NoneOrMoreSeq::new(Box::new(p), nm)))
    } else if str_eq_str(c, "?") {
        Some(Sequence::Opt(OptSeq::new(Box::new(p), nm)))
    } else if str_eq_str(c, "!") {
        Some(Sequence::Except(ExceptSeq::new(Box::new(p))))
    } else {
        Some(p)
    }
}

/// Compile a single term capture.
pub fn eval_one_seq(source: &str, token: &Token, fuel: u64) -> (r: Option<Sequence>)
    ensures
        (match r {
            Option::Some(s) => Some(s@),
            Option::None => None::<Pat>,
        }) == eval_one_seq_spec(source@, token@, fuel as nat),
    decreases fuel, 0int,
{
    if fuel == 0 {
        return None;
    }
    let f = fuel - 1;
    match token.get_first_child("raw") {
        Option::Some(rawn) => match rawn.get_first_child("token") {
            Option::None => None,
            Option::Some(tok) => Some(
                Sequence::Raw(RawSeq::new(tok.content(source).to_owned())),
            ),
        },
        Option::None => match token.get_first_child("ref") {
            Option::Some(rn) => Some(Sequence::Ref(RefSeq::new(rn.content(source).to_owned()))),
            Option::None => match token.get_first_child("paren") {
                Option::Some(pn) => match pn.get_first_child("seq") {
                    Option::None => None,
                    Option::Some(sn) => eval_seq(source, &sn, f),
                },
                Option::None => match token.get_first_child("quote") {
                    Option::Some(qn) => match qn.get_first_child("chars") {
                        Option::None => None,
                        Option::Some(cn) => Some(literal_chain(cn.content(source))),
                    },
                    Option::None => match token.get_first_child("fromChars") {
                        Option::Some(fc) => match fc.get_first_child("chars") {
                            Option::None => None,
                            Option::Some(cn) => Some(chars(cn.content(source))),
                        },
                        Option::None => match token.get_first_child("range") {
                            Option::Some(rg) => {
                                let s0 = match rg.get_first_child("start") {
                                    Option::Some(t) => t,
                                    Option::None => return None,
                                };
                                let e0 = match rg.get_first_child("end") {
                                    Option::Some(t) => t,
                                    Option::None => return None,
                                };
                                let cs = s0.content(source);
                                let ce = e0.content(source);
                                if !cs.is_empty() && !ce.is_empty() {
                                    let lo = cs.get_char(0) as u32;
                                    let hi = ce.get_char(0) as u32;
                                    Some(Sequence::Range(RangeSeq::new(lo, hi)))
                                } else {
                                    None
                                }
                            },
                            Option::None => None,
                        },
                    },
                },
            },
        },
    }
}

/// Compile a whole rule-set text into a rule table.  Returns `None` when
/// the text does not fully match the bootstrap grammar (a syntax error) or
/// a capture has an unexpected shape: no partial table is ever returned.
pub fn eval_rule_set(text: &str) -> (r: Option<RefMap>)
    ensures
        (match r {
            Option::Some(m) => Some(m@),
            Option::None => None::<Map<Seq<char>, Pat>>,
        }) == rule_set_spec(text@),
{
    let mut map = RefMap::new();
    map.insert("ws".to_owned(), Sequence::Whitespace(WhitespaceSeq::new()));
    map.insert("_".to_owned(), Sequence::Nil(NilSeq::new()));
    proof {
        assert(map@ == base_map());
    }
    let seqs = meta_seqs();
    let main_seq = match seqs.get("main") {
        Option::Some(s) => s,
        Option::None => return None,
    };
    let corpus = Corpus::make(text);
    let matched = main_seq.match_corpus_first(&corpus, &seqs);
    let tm = match matched {
        Option::Some(tm) => tm,
        Option::None => return None,
    };
    if tm.len != corpus.tokens.len() {
        return None;
    }
    let rules = tm.new_token.get_children("rule");
    let ghost rule_nodes = node_children(tm@.1, "rule"@);
    let mut i: usize = 0;
    while i < rules.len()
        invariant
            i <= rules@.len(),
            tokens_nodes(rules@) == rule_nodes,
            rule_set_spec(text@) == eval_rules_spec(
                text@,
                rule_nodes,
                0,
                base_map(),
                FULL_FUEL as nat,
            ),
            eval_rules_spec(text@, rule_nodes, 0, base_map(), FULL_FUEL as nat) == eval_rules_spec(
                text@,
                rule_nodes,
                i as int,
                map@,
                FULL_FUEL as nat,
            ),
        decreases rules@.len() - i,
    {
        match eval_rule(text, &rules[i], FULL_FUEL) {
            Option::None => {
                return None;
            },
            Option::Some(pair) => {
                map.insert(pair.0, pair.1);
            },
        }
        i = i + 1;
    }
    Some(map)
}

} // verus!
