use pegmatch::corpus::Corpus;
use pegmatch::matching::FULL_FUEL;
use pegmatch::rules::RefMap;
use pegmatch::sequence::{
    AnySeq, ChooseSeq, ExceptSeq, MultSeq, NilSeq, NoneOrMoreSeq, OneOrMoreSeq, OptSeq, Predicate,
    RangeSeq, RawSeq, RefSeq, Sequence, WhereSeq, WhitespaceSeq,
};
use pegmatch::token::{Token, TokenData};

fn raw(s: &str) -> Sequence {
    Sequence::Raw(RawSeq::new(s.to_string()))
}

fn match_len(seq: &Sequence, text: &str) -> Option<usize> {
    let refs = RefMap::new();
    let corpus = Corpus::make(text);
    seq.match_corpus_first(&corpus, &refs).map(|m| m.len)
}

#[test]
fn match_from_a_position() {
    let refs = RefMap::new();
    let corpus = Corpus::make("xab");
    let seq = raw("a");
    let hit = seq.match_tokens(corpus.text, &corpus.tokens, 1, &refs, FULL_FUEL);
    assert_eq!(hit.map(|m| m.len), Some(1));
    let miss = seq.match_tokens(corpus.text, &corpus.tokens, 0, &refs, FULL_FUEL);
    assert!(miss.is_none());
}

#[test]
fn corpus_one_unit_per_character() {
    let corpus = Corpus::make("abc");
    assert_eq!(corpus.tokens.len(), 3);
    assert_eq!(corpus.tokens[1].content("abc"), "b");
    assert_eq!(corpus.tokens[1].content_range(), Some((1, 2)));
}

#[test]
fn literal_matches_its_own_text_only() {
    // A literal chain for a text fully matches the corpus of that text and
    // no other.
    let lit = Sequence::Mult(MultSeq::new(vec![
        (raw("a"), "".to_string()),
        (raw("b"), "".to_string()),
        (raw("c"), "".to_string()),
    ]));
    assert_eq!(match_len(&lit, "abc"), Some(3));
    assert_eq!(match_len(&lit, "abd"), None);
    assert_eq!(match_len(&lit, "ab"), None);
    // A longer corpus gives only a prefix match, not a full one.
    assert_eq!(match_len(&lit, "abcd"), Some(3));
}

#[test]
fn repetitions_never_fail() {
    let star = Sequence::NoneOrMore(NoneOrMoreSeq::new(Box::new(raw("a")), "".to_string()));
    assert_eq!(match_len(&star, ""), Some(0));
    assert_eq!(match_len(&star, "bbb"), Some(0));
    assert_eq!(match_len(&star, "aaab"), Some(3));
    let opt = Sequence::Opt(OptSeq::new(Box::new(raw("a")), "".to_string()));
    assert_eq!(match_len(&opt, ""), Some(0));
    assert_eq!(match_len(&opt, "b"), Some(0));
    assert_eq!(match_len(&opt, "a"), Some(1));
}

#[test]
fn one_or_more_fails_exactly_when_star_consumes_nothing() {
    let plus = Sequence::OneOrMore(OneOrMoreSeq::new(Box::new(raw("a")), "".to_string()));
    assert_eq!(match_len(&plus, "bbb"), None);
    assert_eq!(match_len(&plus, ""), None);
    assert_eq!(match_len(&plus, "ab"), Some(1));
    assert_eq!(match_len(&plus, "aaa"), Some(3));
}

#[test]
fn lookahead_consumes_one_unit_or_nothing() {
    let not_j = Sequence::Except(ExceptSeq::new(Box::new(raw("j"))));
    // The inner matcher fails here, so exactly one unit is consumed.
    assert_eq!(match_len(&not_j, "kx"), Some(1));
    // The inner matcher matches here, so the lookahead fails.
    assert_eq!(match_len(&not_j, "jx"), None);
    // Nothing remains, so the lookahead fails.
    assert_eq!(match_len(&not_j, ""), None);
}

#[test]
fn any_unit_and_nil() {
    let any = Sequence::Any(AnySeq::new());
    assert_eq!(match_len(&any, "z"), Some(1));
    assert_eq!(match_len(&any, ""), None);
    let nil = Sequence::Nil(NilSeq::new());
    assert_eq!(match_len(&nil, ""), Some(0));
    assert_eq!(match_len(&nil, "abc"), Some(0));
}

#[test]
fn predicate_and_range() {
    let not_quote = Sequence::Where(WhereSeq::new(Predicate::ContentIsNot("'".to_string())));
    assert_eq!(match_len(&not_quote, "a"), Some(1));
    assert_eq!(match_len(&not_quote, "'"), None);
    let lower = Sequence::Range(RangeSeq::new('a' as u32, 'z' as u32));
    assert_eq!(match_len(&lower, "m"), Some(1));
    assert_eq!(match_len(&lower, "M"), None);
    assert_eq!(match_len(&lower, "5"), None);
}

#[test]
fn whitespace_run_is_maximal_and_total() {
    let ws = Sequence::Whitespace(WhitespaceSeq::new());
    assert_eq!(match_len(&ws, "  \t\nx"), Some(4));
    assert_eq!(match_len(&ws, "x"), Some(0));
    assert_eq!(match_len(&ws, ""), Some(0));
}

#[test]
fn choose_wraps_winner_under_its_label() {
    let seq = Sequence::Choose(ChooseSeq::new(vec![
        (raw("a"), "first".to_string()),
        (raw("b"), "second".to_string()),
    ]));
    let refs = RefMap::new();
    let corpus = Corpus::make("b");
    let m = seq.match_corpus_first(&corpus, &refs).unwrap();
    assert_eq!(m.new_token.get_children("second").len(), 1);
    assert_eq!(m.new_token.get_children("first").len(), 0);
    assert_eq!(m.new_token.content("b"), "b");
}

#[test]
fn from_chars_labels_each_character() {
    let seq = Sequence::Choose(ChooseSeq::from_chars("xyz"));
    let refs = RefMap::new();
    let corpus = Corpus::make("y");
    let m = seq.match_corpus_first(&corpus, &refs).unwrap();
    assert_eq!(m.len, 1);
    assert_eq!(m.new_token.get_children("y").len(), 1);
}

#[test]
fn references_resolve_through_the_table_at_match_time() {
    // Mutual recursion without forward declaration: `a` refers to `b`,
    // inserted later; `b` refers back to `a`.
    let mut refs = RefMap::new();
    refs.insert(
        "a".to_string(),
        Sequence::Mult(MultSeq::new(vec![
            (raw("("), "".to_string()),
            (
                Sequence::Opt(OptSeq::new(
                    Box::new(Sequence::Ref(RefSeq::new("b".to_string()))),
                    "".to_string(),
                )),
                "".to_string(),
            ),
            (raw(")"), "".to_string()),
        ])),
    );
    refs.insert("b".to_string(), Sequence::Ref(RefSeq::new("a".to_string())));
    let entry = Sequence::Ref(RefSeq::new("a".to_string()));
    let corpus = Corpus::make("(())");
    let m = entry.match_corpus_first(&corpus, &refs).unwrap();
    assert_eq!(m.len, 4);
    // An absent name is an ordinary no-match.
    let ghost_ref = Sequence::Ref(RefSeq::new("ghost".to_string()));
    assert_eq!(match_len(&ghost_ref, "x"), None);
}

#[test]
fn insert_shadows_earlier_binding() {
    let mut refs = RefMap::new();
    refs.insert("r".to_string(), raw("a"));
    refs.insert("r".to_string(), raw("b"));
    let entry = Sequence::Ref(RefSeq::new("r".to_string()));
    let corpus = Corpus::make("b");
    let m = entry.match_corpus_first(&corpus, &refs);
    assert_eq!(m.map(|t| t.len), Some(1));
    assert!(refs.get("missing").is_none());
}

#[test]
fn unlabelled_members_leave_no_child() {
    let seq = Sequence::Mult(MultSeq::new(vec![
        (raw("a"), "hi".to_string()),
        (raw("b"), "".to_string()),
    ]));
    let refs = RefMap::new();
    let corpus = Corpus::make("ab");
    let m = seq.match_corpus_first(&corpus, &refs).unwrap();
    assert_eq!(m.len, 2);
    match &m.new_token.data {
        TokenData::Branch(children) => assert_eq!(children.len(), 1),
        TokenData::Leaf(..) => panic!("a concatenation builds a branch"),
    }
    let hi = m.new_token.get_first_child("hi").unwrap();
    assert_eq!(hi.content("ab"), "a");
    assert!(m.new_token.get_first_child("lo").is_none());
}

#[test]
fn branch_content_spans_first_to_last_child() {
    let source = "hello";
    let t = Token {
        data: TokenData::Branch(vec![
            ("x".to_string(), Token { data: TokenData::Leaf(1, 2) }),
            ("".to_string(), Token { data: TokenData::Branch(vec![]) }),
            ("y".to_string(), Token { data: TokenData::Leaf(3, 4) }),
        ]),
    };
    assert_eq!(t.content_range(), Some((1, 4)));
    assert_eq!(t.content(source), "ell");
    // A branch with no descendant spans has no content.
    let empty = Token { data: TokenData::Branch(vec![]) };
    assert_eq!(empty.content_range(), None);
    assert_eq!(empty.content(source), "");
    // An empty span is skipped when the range is computed.
    let with_nil = Token {
        data: TokenData::Branch(vec![
            ("".to_string(), Token { data: TokenData::Leaf(0, 0) }),
            ("z".to_string(), Token { data: TokenData::Leaf(2, 3) }),
        ]),
    };
    assert_eq!(with_nil.content_range(), Some((2, 3)));
}

#[test]
fn graph_renders_nested_structure() {
    let t = Token {
        data: TokenData::Branch(vec![
            ("hi".to_string(), Token { data: TokenData::Leaf(0, 1) }),
            ("".to_string(), Token { data: TokenData::Leaf(1, 2) }),
        ]),
    };
    assert_eq!(t.graph("ab"), "\n{\n\thi:\n\t\"a\",\n\t\"b\",\n}");
}

#[test]
fn get_children_keeps_order_and_label() {
    let t = Token {
        data: TokenData::Branch(vec![
            ("d".to_string(), Token { data: TokenData::Leaf(0, 1) }),
            ("e".to_string(), Token { data: TokenData::Leaf(1, 2) }),
            ("d".to_string(), Token { data: TokenData::Leaf(2, 3) }),
        ]),
    };
    let ds = t.get_children("d");
    assert_eq!(ds.len(), 2);
    assert_eq!(ds[0].content_range(), Some((0, 1)));
    assert_eq!(ds[1].content_range(), Some((2, 3)));
    assert_eq!(t.get_children("f").len(), 0);
    let leaf = Token { data: TokenData::Leaf(0, 1) };
    assert_eq!(leaf.get_children("d").len(), 0);
}
