use pegmatch::corpus::Corpus;
use pegmatch::rules::RefMap;
use pegmatch::sequence::{
    ChooseSeq, MultSeq, NoneOrMoreSeq, RawSeq, RefSeq, Sequence, TokenMatchTestType,
};

fn raw(s: &str) -> Sequence {
    Sequence::Raw(RawSeq::new(s.to_string()))
}

fn refer(s: &str) -> Sequence {
    Sequence::Ref(RefSeq::new(s.to_string()))
}

fn star(inner: Sequence, name: &str) -> Sequence {
    Sequence::NoneOrMore(NoneOrMoreSeq::new(Box::new(inner), name.to_string()))
}

fn calc_seqs() -> RefMap {
    let mut map = RefMap::new();
    map.insert(
        "nonzero".to_string(),
        Sequence::Choose(ChooseSeq::from_chars("123456789")),
    );
    map.insert(
        "digit".to_string(),
        Sequence::Choose(ChooseSeq::from_chars("1234567890")),
    );
    map.insert(
        "posInt".to_string(),
        Sequence::Mult(MultSeq::new(vec![
            (refer("nonzero"), "firstDigit".to_string()),
            (star(refer("digit"), ""), "".to_string()),
        ])),
    );
    map.insert("oper".to_string(), Sequence::Choose(ChooseSeq::from_chars("+-")));
    map.insert(
        "multOper".to_string(),
        Sequence::Choose(ChooseSeq::from_chars("/*")),
    );
    map.insert(
        "ws*".to_string(),
        star(Sequence::Choose(ChooseSeq::from_chars(" \t\n\r")), ""),
    );
    map.insert(
        "expr".to_string(),
        Sequence::Mult(MultSeq::new(vec![
            (refer("multExpr"), "lhs".to_string()),
            (
                star(
                    Sequence::Mult(MultSeq::new(vec![
                        (refer("ws*"), "".to_string()),
                        (refer("oper"), "oper".to_string()),
                        (refer("ws*"), "".to_string()),
                        (refer("multExpr"), "oper".to_string()),
                    ])),
                    "rhs's",
                ),
                "rhs's".to_string(),
            ),
        ])),
    );
    map.insert(
        "multExpr".to_string(),
        Sequence::Mult(MultSeq::new(vec![
            (refer("numExpr"), "lhs".to_string()),
            (
                star(
                    Sequence::Mult(MultSeq::new(vec![
                        (refer("ws*"), "".to_string()),
                        (refer("multOper"), "oper".to_string()),
                        (refer("ws*"), "".to_string()),
                        (refer("numExpr"), "oper".to_string()),
                    ])),
                    "rhs's",
                ),
                "rhs's".to_string(),
            ),
        ])),
    );
    map.insert("numExpr".to_string(), refer("posInt"));
    map
}

fn assert_matches(seq: &Sequence, corpus: &Corpus, refs: &RefMap, should_match: TokenMatchTestType) {
    assert!(seq.check_matches(corpus, refs, should_match));
}

#[test]
pub fn calculator_int_test() {
    let seqs = calc_seqs();
    let seq = seqs.get("posInt").unwrap();
    assert_matches(seq, &Corpus::make("1"), &seqs, TokenMatchTestType::All);
    assert_matches(seq, &Corpus::make("1234"), &seqs, TokenMatchTestType::All);
    assert_matches(seq, &Corpus::make("0123"), &seqs, TokenMatchTestType::NoMatch);
    assert_matches(seq, &Corpus::make("aba"), &seqs, TokenMatchTestType::NoMatch);
}

#[test]
pub fn calculator_expr_test() {
    let seqs = calc_seqs();
    let seq = seqs.get("expr").unwrap();
    assert_matches(seq, &Corpus::make("1+1"), &seqs, TokenMatchTestType::All);
    assert_matches(
        seq,
        &Corpus::make("1683 / 4963 * 2"),
        &seqs,
        TokenMatchTestType::All,
    );
    assert_matches(seq, &Corpus::make("04 * 5"), &seqs, TokenMatchTestType::NoMatch);
    assert_matches(seq, &Corpus::make("6 + + 2"), &seqs, TokenMatchTestType::First);
}
