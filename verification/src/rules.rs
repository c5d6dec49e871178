//! The rule table: a mapping from rule name to matcher.  Named references
//! resolve against it lazily at match time, which is what lets two rules
//! reference each other, or a rule reference itself, without the table
//! existing before the matchers are built.
//!
//! The table is an association list keyed by name; a later insertion of the
//! same name shadows the earlier one, so its model is a finite map.

use vstd::prelude::*;

use crate::sequence::{Sequence, Pat, seq_pat};
use crate::token::str_eq_string;

verus! {

/// A rule table.  Built once per grammar; read-only during matching.
pub struct RefMap {
    pub entries: Vec<(String, Sequence)>,
}

/// The map modelled by an entry list: each entry inserted in order.
pub open spec fn entries_map(es: Seq<(String, Sequence)>) -> Map<Seq<char>, Pat>
    decreases es.len(),
{
    if es.len() == 0 {
        Map::empty()
    } else {
        entries_map(es.drop_last()).insert(es.last().0@, seq_pat(es.last().1))
    }
}

impl View for RefMap {
    type V = Map<Seq<char>, Pat>;

    open spec fn view(&self) -> Map<Seq<char>, Pat> {
        entries_map(self.entries@)
    }
}

/// When `es[i]` is the last entry named `k`, the modelled map holds `k` and
/// maps it to that entry's matcher.
proof fn lemma_entries_map_found(es: Seq<(String, Sequence)>, k: Seq<char>, i: int)
    requires
        0 <= i < es.len(),
        es[i].0@ == k,
        forall|j: int| i < j < es.len() ==> #[trigger] es[j].0@ != k,
    ensures
        entries_map(es).contains_key(k),
        entries_map(es)[k] == seq_pat(es[i].1),
    decreases es.len(),
{
    if i == es.len() - 1 {
    } else {
        lemma_entries_map_found(es.drop_last(), k, i);
    }
}

/// A name no entry carries is not in the modelled map.
proof fn lemma_entries_map_absent(es: Seq<(String, Sequence)>, k: Seq<char>)
    requires
        forall|j: int| 0 <= j < es.len() ==> #[trigger] es[j].0@ != k,
    ensures
        !entries_map(es).contains_key(k),
    decreases es.len(),
{
    if es.len() > 0 {
        lemma_entries_map_absent(es.drop_last(), k);
    }
}

impl RefMap {
    /// An empty rule table.
    pub fn new() -> (r: Self)
        ensures
            r@ == Map::<Seq<char>, Pat>::empty(),
    {
        RefMap { entries: Vec::new() }
    }

    /// Bind `name` to `seq`, shadowing any earlier binding of the name.
    pub fn insert(&mut self, name: String, seq: Sequence)
        ensures
            final(self)@ == old(self)@.insert(name@, seq@),
    {
        let ghost before = self.entries@;
        self.entries.push((name, seq));
        proof {
            assert(self.entries@.drop_last() =~= before);
        }
    }

    /// Look a rule up by name.
    pub fn get(&self, name: &str) -> (r: Option<&Sequence>)
        ensures
            match r {
                Option::Some(s) => self@.contains_key(name@) && s@ == self@[name@],
                Option::None => !self@.contains_key(name@),
            },
    {
        let n = self.entries.len();
        let mut i: usize = n;
        while i > 0
            invariant
                n == self.entries@.len(),
                i <= n,
                forall|j: int| i as int <= j < n as int ==> #[trigger] self.entries@[j].0@ != name@,
            decreases i,
        {
            i = i - 1;
            if str_eq_string(name, &self.entries[i].0) {
                proof {
                    lemma_entries_map_found(self.entries@, name@, i as int);
                }
                return Some(&self.entries[i].1);
            }
        }
        proof {
            lemma_entries_map_absent(self.entries@, name@);
        }
        None
    }
}

} // verus!
