use pegmatch::corpus::Corpus;
use pegmatch::meta::eval_rule_set;
use pegmatch::rules::RefMap;
use pegmatch::sequence::TokenMatch;

/// Compile a rule set and match `text` against its `main` rule.
fn compile_and_match(rules: &str, text: &str) -> Option<TokenMatch> {
    let seqs: RefMap = eval_rule_set(rules).expect("the rule set should compile");
    let seq = seqs.get("main").unwrap();
    let corpus = Corpus::make(text);
    seq.match_corpus_first(&corpus, &seqs)
}

fn match_len(rules: &str, text: &str) -> Option<usize> {
    compile_and_match(rules, text).map(|m| m.len)
}

#[test]
fn one_raw_rule() {
    assert_eq!(match_len("\nmain = 'a'\n", "a"), Some(1));
    let m = compile_and_match("\nmain = 'a'\n", "a").unwrap();
    assert_eq!(m.new_token.content("a"), "a");
}

#[test]
fn one_bad_raw_rule() {
    assert_eq!(match_len("\nmain = 'a'\n", "b"), None);
}

#[test]
fn paren_rule() {
    assert_eq!(match_len("\nmain = ('a')\n", "a"), Some(1));
}

#[test]
fn one_ref_rule() {
    assert_eq!(match_len("\na = 'a'\nmain = a\n", "a"), Some(1));
}

#[test]
fn one_mult_rule() {
    let rules = "\nmain = 'a':hi & 'b'\n";
    assert_eq!(match_len(rules, "ab"), Some(2));
    // The capture branch holds exactly one child, labelled `hi`, whose
    // content is the text the first member matched.
    let m = compile_and_match(rules, "ab").unwrap();
    let children = m.new_token.get_children("hi");
    assert_eq!(children.len(), 1);
    assert_eq!(children[0].content("ab"), "a");
}

#[test]
fn one_mult_with_ws_rule() {
    assert_eq!(match_len("\nmain = 'a':hi + 'b'\n", "a b"), Some(3));
}

#[test]
fn one_or_more_rule() {
    assert_eq!(match_len("\nmain = 'a'+\n", "a"), Some(1));
}

#[test]
fn digit_rule() {
    let rules = "
digit = '1'.one | '2'.two | '3'.three | '4'.four | '5'.five | '6'.six | '7'.seven | '8'.eight | '9'.nine | '0'.zero
main = digit+
";
    let m = compile_and_match(rules, "1205").unwrap();
    assert_eq!(m.len, 4);
    // Four repetitions captured in order, one per digit.
    let reps = m.new_token.get_children("");
    assert_eq!(reps.len(), 4);
    assert_eq!(reps[0].content("1205"), "1");
    assert_eq!(reps[1].content("1205"), "2");
    assert_eq!(reps[2].content("1205"), "0");
    assert_eq!(reps[3].content("1205"), "5");
}

#[test]
fn mult_and_none_or_more() {
    assert_eq!(match_len("\nmain = 'a':hi & 'b'*\n", "a"), Some(1));
}

#[test]
fn one_quote_rule() {
    assert_eq!(match_len("\nmain = {abcde}\n", "abcde"), Some(5));
    assert_eq!(match_len("\nmain = {abcde}\n", "abcdx"), None);
}

#[test]
fn one_or_more_mult_rule() {
    // The class matches any of its characters, one unit per repetition;
    // the trailing `f` is outside the class, so only `abcde` is consumed.
    assert_eq!(match_len("\nmain = [abcde]+\n", "abcdef"), Some(5));
}

#[test]
fn range_rule() {
    // Stops before the first unit outside the range.
    assert_eq!(match_len("\nmain = a..z+\n", "abcdef65"), Some(6));
}

#[test]
fn whitespace_edges_rule() {
    let rules = "\nmain = _ + a..z+ & _ + a..z+\n";
    // The second letter run stops before the digits: a prefix match.
    assert_eq!(match_len(rules, "    abcdef    abc65"), Some(17));
    assert_eq!(match_len(rules, "    abcdef    abcde"), Some(19));
}

#[test]
fn nil_rule() {
    // The always-succeed rule consumes nothing; the whitespace text is not
    // consumed, so the match is empty.
    assert_eq!(match_len("\nmain = _\n", "\n "), Some(0));
}

#[test]
fn whitespace_surroundings() {
    assert_eq!(match_len("\nmain = _ + a..z+ + _\n", "abcdef"), Some(6));
}

#[test]
fn optional_rule() {
    let rules = "\nmain = 'a'?:opt + 'b':req\n";
    assert_eq!(match_len(rules, "b"), Some(1));
    assert_eq!(match_len(rules, "ab"), Some(2));
    assert_eq!(match_len(rules, "a b"), Some(3));
}

#[test]
fn except_rule() {
    // The lookahead consumes one unit exactly when `j` does not match
    // there, so only the leading `k` is consumed; at a `j` the optional
    // succeeds with a zero-length match.
    let rules = "\nmain = ('j'!)?:jay\n";
    assert_eq!(match_len(rules, "kjjkmj"), Some(1));
    assert_eq!(match_len(rules, "jjkmj"), Some(0));
}

#[test]
fn ill_formed_rule_set_fails() {
    // Unbalanced parentheses: compilation fails, no rule table.
    assert!(eval_rule_set("\nmain = ('a'\n").is_none());
    // A bare operator with no right-hand member.
    assert!(eval_rule_set("\nmain = 'a' &\n").is_none());
    // Not a rule definition at all.
    assert!(eval_rule_set("???").is_none());
}

#[test]
fn round_trip_full_consumption() {
    // Compiling a rule set and matching text it was designed to accept
    // consumes that text completely.
    let rules = "
word = a..z+
main = word + ',' + word
";
    let text = "hello , world";
    let m = compile_and_match(rules, text).unwrap();
    assert_eq!(m.len, text.len());
}

#[test]
fn built_in_rules_need_no_definition() {
    // `ws` and `_` are pre-seeded: usable without being defined.
    assert_eq!(match_len("\nmain = ws & 'a'\n", "   a"), Some(4));
    assert_eq!(match_len("\nmain = _ & 'a'\n", "a"), Some(1));
}

#[test]
fn undefined_reference_is_a_plain_no_match() {
    // A reference to an absent rule fails at match time, not compile time.
    assert_eq!(match_len("\nmain = ghost\n", "a"), None);
}

#[test]
fn alternation_first_match_wins() {
    // Overlapping alternatives: the earlier one wins, so only `x` is
    // consumed even though the second alternative could take both units.
    let rules = "\nmain = 'x' | {xy}\n";
    assert_eq!(match_len(rules, "xy"), Some(1));
    let m = compile_and_match(rules, "xy").unwrap();
    assert_eq!(m.new_token.content("xy"), "x");
}
