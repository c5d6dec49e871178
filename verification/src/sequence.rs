//! The matcher family ("sequences"): a closed set of combinator kinds that
//! consume atomic units and build capture trees.  The set is fixed, so the
//! polymorphic family is a sum type with one dispatch function (in
//! `matching`), and each kind keeps its own small record of parameters.

use vstd::prelude::*;

use crate::token::Node;

verus! {

/// The result of a successful match: how many atomic units were consumed,
/// and the capture node that was built.  Consumption is independent of the
/// capture's own span: a matcher may consume units without content.
pub struct TokenMatch {
    pub len: usize,
    pub new_token: crate::token::Token,
}

impl View for TokenMatch {
    type V = (int, Node);

    open spec fn view(&self) -> (int, Node) {
        (self.len as int, self.new_token@)
    }
}

/// The expected outcome of a match, for checking a matcher against a corpus:
/// no match at all, a match of some prefix, or a match of the whole corpus.
pub enum TokenMatchTestType {
    NoMatch,
    First,
    All,
}

/// A boolean test over the content of a single atomic unit.
pub enum Predicate {
    /// Holds when the unit's content differs from the given string.
    ContentIsNot(String),
}

/// Ghost model of a content predicate.
pub enum Pred {
    ContentIsNot(Seq<char>),
}

impl View for Predicate {
    type V = Pred;

    open spec fn view(&self) -> Pred {
        match self {
            Predicate::ContentIsNot(s) => Pred::ContentIsNot(s@),
        }
    }
}

/// Matches one unit whose content equals a fixed target string.
pub struct RawSeq {
    pub target: String,
}

/// Matches an ordered list of members one after another; fails atomically
/// when any member fails.  Members with a non-empty label contribute a
/// labelled child; unlabelled members advance the position only.
pub struct MultSeq {
    pub seqs: Vec<(Sequence, String)>,
}

/// Matches its inner matcher if it can, else succeeds consuming nothing.
pub struct OptSeq {
    pub seq: Box<Sequence>,
    pub match_name: String,
}

/// Repeats its inner matcher as often as it succeeds; never fails.
pub struct NoneOrMoreSeq {
    pub match_name: String,
    pub seq: Box<Sequence>,
}

/// Repeats its inner matcher as often as it succeeds; fails when no unit
/// was consumed.
pub struct OneOrMoreSeq {
    pub match_name: String,
    pub seq: Box<Sequence>,
}

/// Ordered choice: tries its members in order and commits to the first that
/// matches, wrapping the result under that member's label.
pub struct ChooseSeq {
    pub seqs: Vec<(Sequence, String)>,
}

/// Delegates to the rule of the given name, looked up in the rule table at
/// match time.  This is the sole recursion mechanism.
pub struct RefSeq {
    pub name: String,
}

/// Matches any single unit.
pub struct AnySeq {}

/// Matches one unit whose content satisfies a predicate.
pub struct WhereSeq {
    pub predicate: Predicate,
}

/// Matches one unit whose content's first code point lies in an inclusive
/// numeric range.
pub struct RangeSeq {
    pub start: u32,
    pub end: u32,
}

/// Consumes a maximal (possibly empty) run of units whose content is
/// entirely whitespace; never fails.
pub struct WhitespaceSeq {}

/// Matches zero units unconditionally.
pub struct NilSeq {}

/// Negative lookahead: consumes exactly one unit when its inner matcher
/// does not match here; fails when it does, or when no unit remains.
pub struct ExceptSeq {
    pub except: Box<Sequence>,
}

/// A matcher: the closed sum of all matcher kinds.
pub enum Sequence {
    Raw(RawSeq),
    Mult(MultSeq),
    Opt(OptSeq),
    NoneOrMore(NoneOrMoreSeq),
    OneOrMore(OneOrMoreSeq),
    Choose(ChooseSeq),
    Ref(RefSeq),
    Any(AnySeq),
    Where(WhereSeq),
    Range(RangeSeq),
    Whitespace(WhitespaceSeq),
    Nil(NilSeq),
    Except(ExceptSeq),
}

/// Ghost model of a matcher.
pub enum Pat {
    Raw { target: Seq<char> },
    Mult { items: Seq<(Pat, Seq<char>)> },
    Opt { inner: Box<Pat>, name: Seq<char> },
    NoneOrMore { inner: Box<Pat>, name: Seq<char> },
    OneOrMore { inner: Box<Pat>, name: Seq<char> },
    Choose { items: Seq<(Pat, Seq<char>)> },
    Ref { name: Seq<char> },
    Any,
    Where { pred: Pred },
    Range { lo: u32, hi: u32 },
    Whitespace,
    Nil,
    Except { inner: Box<Pat> },
}

/// Model of a matcher.
pub open spec fn seq_pat(s: Sequence) -> Pat
    decreases s, 1int,
{
    match s {
        Sequence::Raw(x) => Pat::Raw { target: x.target@ },
        Sequence::Mult(x) => Pat::Mult { items: pair_pats(x.seqs@, 0) },
        Sequence::Opt(x) => Pat::Opt { inner: Box::new(seq_pat(*x.seq)), name: x.match_name@ },
        Sequence::NoneOrMore(x) => Pat::NoneOrMore {
            inner: Box::new(seq_pat(*x.seq)),
            name: x.match_name@,
        },
        Sequence::OneOrMore(x) => Pat::OneOrMore {
            inner: Box::new(seq_pat(*x.seq)),
            name: x.match_name@,
        },
        Sequence::Choose(x) => Pat::Choose { items: pair_pats(x.seqs@, 0) },
        Sequence::Ref(x) => Pat::Ref { name: x.name@ },
        Sequence::Any(_) => Pat::Any,
        Sequence::Where(x) => Pat::Where { pred: x.predicate@ },
        Sequence::Range(x) => Pat::Range { lo: x.start, hi: x.end },
        Sequence::Whitespace(_) => Pat::Whitespace,
        Sequence::Nil(_) => Pat::Nil,
        Sequence::Except(x) => Pat::Except { inner: Box::new(seq_pat(*x.except)) },
    }
}

/// Models of the labelled members `items[i..]`.
pub open spec fn pair_pats(items: Seq<(Sequence, String)>, i: int) -> Seq<(Pat, Seq<char>)>
    decreases items, items.len() - i,
{
    if i < 0 || i >= items.len() {
        Seq::empty()
    } else {
        seq![(seq_pat(items[i].0), items[i].1@)] + pair_pats(items, i + 1)
    }
}

impl View for Sequence {
    type V = Pat;

    open spec fn view(&self) -> Pat {
        seq_pat(*self)
    }
}

/// The members of an ordered choice over the individual characters of
/// `cs`: one single-character literal per character, labelled with it.
pub open spec fn chars_pats(cs: Seq<char>) -> Seq<(Pat, Seq<char>)> {
    Seq::new(cs.len(), |i: int| (Pat::Raw { target: seq![cs[i]] }, seq![cs[i]]))
}

/// The members of a concatenation over the individual characters of `cs`:
/// one single-character literal per character, all unlabelled.
pub open spec fn literal_pats(cs: Seq<char>) -> Seq<(Pat, Seq<char>)> {
    Seq::new(cs.len(), |i: int| (Pat::Raw { target: seq![cs[i]] }, Seq::<char>::empty()))
}

/// `pair_pats(items, i)` is the pointwise model of `items[i..]`.
pub proof fn lemma_pair_pats(items: Seq<(Sequence, String)>, i: int)
    requires
        0 <= i <= items.len(),
    ensures
        pair_pats(items, i).len() == items.len() - i,
        forall|j: int|
            0 <= j < items.len() - i ==> pair_pats(items, i)[j] == (
            seq_pat(items[i + j].0),
            items[i + j].1@,
            ),
    decreases items.len() - i,
{
    if i < items.len() {
        lemma_pair_pats(items, i + 1);
    }
}

/// Appending a member appends its model.
pub proof fn lemma_pair_pats_push(items: Seq<(Sequence, String)>, x: (Sequence, String))
    ensures
        pair_pats(items.push(x), 0) == pair_pats(items, 0).push((seq_pat(x.0), x.1@)),
{
    lemma_pair_pats(items.push(x), 0);
    lemma_pair_pats(items, 0);
    assert(pair_pats(items.push(x), 0) =~= pair_pats(items, 0).push((seq_pat(x.0), x.1@)));
}

impl RawSeq {
    pub fn new(target: String) -> (r: Self)
        ensures
            r == (RawSeq { target }),
    {
        Self { target }
    }
}

impl MultSeq {
    pub fn new(seqs: Vec<(Sequence, String)>) -> (r: Self)
        ensures
            r == (MultSeq { seqs }),
    {
        Self { seqs }
    }
}

impl OptSeq {
    pub fn new(seq: Box<Sequence>, match_name: String) -> (r: Self)
        ensures
            r == (OptSeq { seq, match_name }),
    {
        Self { seq, match_name }
    }
}

impl NoneOrMoreSeq {
    pub fn new(seq: Box<Sequence>, match_name: String) -> (r: Self)
        ensures
            r == (NoneOrMoreSeq { seq, match_name }),
    {
        Self { seq, match_name }
    }
}

impl OneOrMoreSeq {
    pub fn new(seq: Box<Sequence>, match_name: String) -> (r: Self)
        ensures
            r == (OneOrMoreSeq { seq, match_name }),
    {
        Self { seq, match_name }
    }
}

impl ChooseSeq {
    pub fn new(seqs: Vec<(Sequence, String)>) -> (r: Self)
        ensures
            r == (ChooseSeq { seqs }),
    {
        Self { seqs }
    }

    /// An ordered choice over the individual characters of `chars`: each
    /// member matches one character and is labelled with that character.
    pub fn from_chars(chars: &str) -> (r: Self)
        ensures
            pair_pats(r.seqs@, 0) == chars_pats(chars@),
    {
        let n = chars.unicode_len();
        let mut seqs: Vec<(Sequence, String)> = Vec::new();
        let mut i: usize = 0;
        while i < n
            invariant
                n == chars@.len(),
                i <= n,
                seqs@.len() == i,
                forall|j: int|
                    0 <= j < i as int ==> #[trigger] seqs@[j].0 == Sequence::Raw(
                        RawSeq { target: seqs@[j].1 },
                    ) && seqs@[j].1@ == seq![chars@[j]],
            decreases n - i,
        {
            let c: String = chars.substring_char(i, i + 1).to_owned();
            proof {
                assert(c@ =~= seq![chars@[i as int]]);
            }
            let c2: String = c.clone();
            seqs.push((Sequence::Raw(RawSeq { target: c }), c2));
            i = i + 1;
        }
        proof {
            lemma_pair_pats(seqs@, 0);
            assert(pair_pats(seqs@, 0) =~= chars_pats(chars@));
        }
        Self { seqs }
    }
}

impl RefSeq {
    pub fn new(name: String) -> (r: Self)
        ensures
            r == (RefSeq { name }),
    {
        Self { name }
    }
}

impl AnySeq {
    pub fn new() -> (r: Self)
        ensures
            r == (AnySeq {  }),
    {
        Self {  }
    }
}

impl Default for AnySeq {
    fn default() -> (r: Self)
        ensures
            r == (AnySeq {  }),
    {
        Self::new()
    }
}

impl WhereSeq {
    pub fn new(predicate: Predicate) -> (r: Self)
        ensures
            r == (WhereSeq { predicate }),
    {
        Self { predicate }
    }
}

impl RangeSeq {
    pub fn new(start: u32, end: u32) -> (r: Self)
        ensures
            r == (RangeSeq { start, end }),
    {
        Self { start, end }
    }
}

impl WhitespaceSeq {
    pub fn new() -> (r: Self)
        ensures
            r == (WhitespaceSeq {  }),
    {
        Self {  }
    }
}

impl Default for WhitespaceSeq {
    fn default() -> (r: Self)
        ensures
            r == (WhitespaceSeq {  }),
    {
        Self::new()
    }
}

impl NilSeq {
    pub fn new() -> (r: Self)
        ensures
            r == (NilSeq {  }),
    {
        Self {  }
    }
}

impl Default for NilSeq {
    fn default() -> (r: Self)
        ensures
            r == (NilSeq {  }),
    {
        Self::new()
    }
}

impl ExceptSeq {
    pub fn new(except: Box<Sequence>) -> (r: Self)
        ensures
            r == (ExceptSeq { except }),
    {
        Self { except }
    }
}

} // verus!
