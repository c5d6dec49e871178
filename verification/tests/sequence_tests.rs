use pegmatch::corpus::Corpus;
use pegmatch::rules::RefMap;
use pegmatch::sequence::{
    ChooseSeq, MultSeq, NoneOrMoreSeq, OneOrMoreSeq, OptSeq, RawSeq, Sequence, TokenMatchTestType,
};

fn raw(s: &str) -> Sequence {
    Sequence::Raw(RawSeq::new(s.to_string()))
}

fn assert_matches(seq: &Sequence, corpus: &Corpus, refs: &RefMap, should_match: TokenMatchTestType) {
    assert!(seq.check_matches(corpus, refs, should_match));
}

#[test]
pub fn mult_test() {
    let seq = Sequence::Mult(MultSeq::new(vec![
        (raw("a"), "hi".to_string()),
        (raw("b"), "".to_string()),
    ]));
    let new_ref_map = &RefMap::new();
    assert_matches(&seq, &Corpus::make("baba"), new_ref_map, TokenMatchTestType::NoMatch);
    assert_matches(&seq, &Corpus::make("ababa"), new_ref_map, TokenMatchTestType::First);
}

#[test]
pub fn opt_test() {
    let seq = Sequence::Mult(MultSeq::new(vec![
        (raw("a"), "hi".to_string()),
        (raw("b"), "".to_string()),
        (
            Sequence::Opt(OptSeq::new(Box::new(raw("c")), "".to_string())),
            "".to_string(),
        ),
    ]));
    let new_ref_map = &RefMap::new();
    assert_matches(&seq, &Corpus::make("ababa"), new_ref_map, TokenMatchTestType::First);
    assert_matches(&seq, &Corpus::make("abcaba"), new_ref_map, TokenMatchTestType::First);
    assert_matches(&seq, &Corpus::make("acbcaba"), new_ref_map, TokenMatchTestType::NoMatch);
}

#[test]
pub fn none_or_more_test() {
    let seq = Sequence::Mult(MultSeq::new(vec![
        (raw("a"), "hi".to_string()),
        (raw("b"), "".to_string()),
        (
            Sequence::NoneOrMore(NoneOrMoreSeq::new(Box::new(raw("c")), "oh boy".to_string())),
            "".to_string(),
        ),
    ]));
    let new_ref_map = &RefMap::new();
    assert_matches(&seq, &Corpus::make("ababa"), new_ref_map, TokenMatchTestType::First);
    assert_matches(&seq, &Corpus::make("abcaba"), new_ref_map, TokenMatchTestType::First);
    assert_matches(
        &seq,
        &Corpus::make("abccccccccaba"),
        new_ref_map,
        TokenMatchTestType::First,
    );
    assert_matches(&seq, &Corpus::make("acbcaba"), new_ref_map, TokenMatchTestType::NoMatch);
}

#[test]
pub fn none_or_more_and_mult_test() {
    let seq = Sequence::Mult(MultSeq::new(vec![
        (raw("a"), "hi".to_string()),
        (raw("b"), "".to_string()),
        (
            Sequence::NoneOrMore(NoneOrMoreSeq::new(
                Box::new(Sequence::Mult(MultSeq::new(vec![
                    (raw("a"), "hi".to_string()),
                    (raw("b"), "".to_string()),
                ]))),
                "inner".to_string(),
            )),
            "mult".to_string(),
        ),
    ]));
    let new_ref_map = &RefMap::new();
    assert_matches(&seq, &Corpus::make("ababa"), new_ref_map, TokenMatchTestType::First);
    assert_matches(&seq, &Corpus::make("abcaba"), new_ref_map, TokenMatchTestType::First);
    assert_matches(
        &seq,
        &Corpus::make("abccccccccaba"),
        new_ref_map,
        TokenMatchTestType::First,
    );
    assert_matches(&seq, &Corpus::make("acbcaba"), new_ref_map, TokenMatchTestType::NoMatch);
}

#[test]
pub fn one_or_more_test() {
    let seq = Sequence::Mult(MultSeq::new(vec![
        (raw("a"), "hi".to_string()),
        (raw("b"), "".to_string()),
        (
            Sequence::OneOrMore(OneOrMoreSeq::new(
                Box::new(Sequence::Mult(MultSeq::new(vec![
                    (raw("a"), "hi".to_string()),
                    (raw("b"), "".to_string()),
                ]))),
                "inner".to_string(),
            )),
            "mult".to_string(),
        ),
    ]));
    let new_ref_map = &RefMap::new();
    assert_matches(&seq, &Corpus::make("ababa"), new_ref_map, TokenMatchTestType::First);
    assert_matches(&seq, &Corpus::make("abcaba"), new_ref_map, TokenMatchTestType::NoMatch);
    assert_matches(
        &seq,
        &Corpus::make("abccccccccaba"),
        new_ref_map,
        TokenMatchTestType::NoMatch,
    );
    assert_matches(&seq, &Corpus::make("acbcaba"), new_ref_map, TokenMatchTestType::NoMatch);
}

#[test]
pub fn choose_test() {
    let seq = Sequence::Choose(ChooseSeq::new(vec![
        (raw("a"), "first".to_string()),
        (raw("b"), "second".to_string()),
        (raw("c"), "third".to_string()),
    ]));
    let new_ref_map = &RefMap::new();
    assert_matches(&seq, &Corpus::make("a"), new_ref_map, TokenMatchTestType::All);
    assert_matches(&seq, &Corpus::make("b"), new_ref_map, TokenMatchTestType::All);
    assert_matches(&seq, &Corpus::make("c"), new_ref_map, TokenMatchTestType::All);
    assert_matches(&seq, &Corpus::make("d"), new_ref_map, TokenMatchTestType::NoMatch);
    assert_matches(&seq, &Corpus::make(""), new_ref_map, TokenMatchTestType::NoMatch);
}
