use pegmatch::corpus::Corpus;
use pegmatch::meta::eval_rule_set;
use pegmatch::rules::RefMap;
use pegmatch::sequence::{Sequence, TokenMatchTestType};

fn calc_seqs() -> RefMap {
    eval_rule_set(
        "
    nonzero = 1..9
    digit = 0..9
    posInt = nonzero:first & digit*
    oper = [+-]
    multOper = [*/]
    ws_s = [ \t\n\r]*
    expr =
        multExpr:lhs &
        (ws_s & oper:oper & ws_s & multExpr:oper).rhs_s*:rhs_s
    multExpr =
        numExpr:lhs &
        (ws_s & multOper:oper & ws_s & numExpr:oper).rhs_s*:rhs_s
    numExpr = posInt
    ",
    )
    .expect("the calculator rule set should compile")
}

fn assert_matches(seq: &Sequence, corpus: &Corpus, refs: &RefMap, should_match: TokenMatchTestType) {
    assert!(seq.check_matches(corpus, refs, should_match));
}

#[test]
pub fn calculator_meta_int_test() {
    let seqs = calc_seqs();
    let seq = seqs.get("posInt").unwrap();
    assert_matches(seq, &Corpus::make("1"), &seqs, TokenMatchTestType::All);
    assert_matches(seq, &Corpus::make("1234"), &seqs, TokenMatchTestType::All);
    assert_matches(seq, &Corpus::make("0123"), &seqs, TokenMatchTestType::NoMatch);
    assert_matches(seq, &Corpus::make("aba"), &seqs, TokenMatchTestType::NoMatch);
}

#[test]
pub fn calculator_meta_expr_test() {
    let seqs = calc_seqs();
    let seq = seqs.get("expr").unwrap();
    assert_matches(seq, &Corpus::make("1+1"), &seqs, TokenMatchTestType::All);
    assert_matches(
        seq,
        &Corpus::make("1683 / 4963 * 2"),
        &seqs,
        TokenMatchTestType::All,
    );
    assert_matches(seq, &Corpus::make("04 * 5"), &seqs, TokenMatchTestType::NoMatch);
    assert_matches(seq, &Corpus::make("6 + + 2"), &seqs, TokenMatchTestType::First);
}
