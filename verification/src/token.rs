//! The capture tree: the result data model of every successful match.
//!
//! A node is either a *span* (a half-open character range into the source
//! text) or a *branch* (an ordered list of name-tagged child nodes).  Nodes
//! never copy text: a span is a pair of offsets, and the textual content of a
//! node is computed on demand against the source it was matched from.

use vstd::prelude::*;

verus! {

/// Mathematical model of a capture node.
pub enum Node {
    /// A span of character offsets `[lo, hi)` into the source text.
    Leaf { lo: int, hi: int },
    /// Labelled children in match order; the empty label marks a child that
    /// is structural only.
    Branch { children: Seq<(Seq<char>, Node)> },
}

/// A capture node as built by matching.  Offsets count characters of the
/// source text, not bytes.
pub enum TokenData {
    Leaf(usize, usize),
    Branch(Vec<(String, Token)>),
}

/// A node of the capture tree.  Its model is a `Node`.
pub struct Token {
    pub data: TokenData,
}

/// Model of a token.
pub open spec fn token_node(t: Token) -> Node
    decreases t, 1int,
{
    match t.data {
        TokenData::Leaf(lo, hi) => Node::Leaf { lo: lo as int, hi: hi as int },
        TokenData::Branch(children) => Node::Branch { children: children_nodes(children@, 0) },
    }
}

/// Models of the labelled children `children[i..]`.
pub open spec fn children_nodes(children: Seq<(String, Token)>, i: int) -> Seq<(Seq<char>, Node)>
    decreases children, children.len() - i,
{
    if i < 0 || i >= children.len() {
        Seq::empty()
    } else {
        seq![(children[i].0@, token_node(children[i].1))] + children_nodes(children, i + 1)
    }
}

impl View for Token {
    type V = Node;

    open spec fn view(&self) -> Node {
        token_node(*self)
    }
}

/// `children_nodes(children, i)` is the pointwise model of `children[i..]`.
pub proof fn lemma_children_nodes(children: Seq<(String, Token)>, i: int)
    requires
        0 <= i <= children.len(),
    ensures
        children_nodes(children, i).len() == children.len() - i,
        forall|j: int|
            0 <= j < children.len() - i ==> children_nodes(children, i)[j] == (
            children[i + j].0@,
            token_node(children[i + j].1),
            ),
    decreases children.len() - i,
{
    if i < children.len() {
        lemma_children_nodes(children, i + 1);
    }
}

/// Models of a whole token sequence.
pub open spec fn tokens_nodes(tokens: Seq<Token>) -> Seq<Node> {
    Seq::new(tokens.len(), |i: int| token_node(tokens[i]))
}

/// The content range of a node: the span from the start of its first
/// descendant span to the end of its last one, skipping children without
/// content.  An empty span has no content.
pub open spec fn node_content_range(n: Node) -> Option<(int, int)>
    decreases n, 0int,
{
    match n {
        Node::Leaf { lo, hi } => if lo < hi {
            Some((lo, hi))
        } else {
            None
        },
        Node::Branch { children } => children_content_range(children, 0),
    }
}

/// The combined content range of the children `children[i..]`.
pub open spec fn children_content_range(children: Seq<(Seq<char>, Node)>, i: int) -> Option<
    (int, int),
>
    decreases children, children.len() - i,
{
    if i < 0 || i >= children.len() {
        None
    } else {
        let head = node_content_range(children[i].1);
        let rest = children_content_range(children, i + 1);
        match head {
            Option::None => rest,
            Option::Some(h) => match rest {
                Option::None => Some(h),
                Option::Some(r) => Some((h.0, r.1)),
            },
        }
    }
}

/// The textual content of a node, read against the source text it was
/// matched from.  A node without a content range, or with a range that does
/// not fit the source, has empty content.
pub open spec fn node_content(src: Seq<char>, n: Node) -> Seq<char> {
    match node_content_range(n) {
        Option::Some((lo, hi)) => if 0 <= lo && lo <= hi && hi <= src.len() {
            src.subrange(lo, hi)
        } else {
            Seq::empty()
        },
        Option::None => Seq::empty(),
    }
}

/// The models of the children of `n` that carry the label `key`, in order,
/// starting at child `i`.
pub open spec fn labelled_children(
    children: Seq<(Seq<char>, Node)>,
    key: Seq<char>,
    i: int,
) -> Seq<Node>
    decreases children.len() - i,
{
    if i < 0 || i >= children.len() {
        Seq::empty()
    } else if children[i].0 == key {
        seq![children[i].1] + labelled_children(children, key, i + 1)
    } else {
        labelled_children(children, key, i + 1)
    }
}

/// All children of `n` under the label `key`, in order.
pub open spec fn node_children(n: Node, key: Seq<char>) -> Seq<Node> {
    match n {
        Node::Leaf { .. } => Seq::empty(),
        Node::Branch { children } => labelled_children(children, key, 0),
    }
}

/// The first child of `n` under the label `key`, if any.
pub open spec fn node_first_child(n: Node, key: Seq<char>) -> Option<Node> {
    if node_children(n, key).len() > 0 {
        Some(node_children(n, key)[0])
    } else {
        None
    }
}

impl Clone for Token {
    /// A clone has the same model.
    fn clone(&self) -> (r: Self)
        ensures
            r@ == self@,
        decreases *self, 1int,
    {
        Token {
            data: match &self.data {
                TokenData::Leaf(lo, hi) => TokenData::Leaf(*lo, *hi),
                TokenData::Branch(children) => TokenData::Branch(clone_children(children)),
            },
        }
    }
}

/// Deep copy of a labelled child list, preserving every child's model.
fn clone_children(children: &Vec<(String, Token)>) -> (r: Vec<(String, Token)>)
    ensures
        r@.len() == children@.len(),
        forall|j: int|
            0 <= j < children@.len() ==> #[trigger] r@[j].0@ == children@[j].0@ && r@[j].1@
                == children@[j].1@,
        children_nodes(r@, 0) == children_nodes(children@, 0),
    decreases *children, 0int,
{
    let mut out: Vec<(String, Token)> = Vec::new();
    let n = children.len();
    let mut i: usize = 0;
    while i < n
        invariant
            n == children@.len(),
            i <= n,
            out@.len() == i,
            forall|j: int|
                0 <= j < i as int ==> #[trigger] out@[j].0@ == children@[j].0@ && out@[j].1@
                    == children@[j].1@,
        decreases n - i,
    {
        let pair = (children[i].0.clone(), children[i].1.clone());
        out.push(pair);
        i = i + 1;
    }
    proof {
        lemma_children_nodes_pointwise(out@, children@);
    }
    out
}

/// Two child lists with equal labels and equal child models have equal
/// children models.
proof fn lemma_children_nodes_pointwise(a: Seq<(String, Token)>, b: Seq<(String, Token)>)
    requires
        a.len() == b.len(),
        forall|j: int| 0 <= j < a.len() ==> #[trigger] a[j].0@ == b[j].0@ && a[j].1@ == b[j].1@,
    ensures
        children_nodes(a, 0) == children_nodes(b, 0),
{
    lemma_children_nodes(a, 0);
    lemma_children_nodes(b, 0);
    assert(children_nodes(a, 0) =~= children_nodes(b, 0));
}

impl Token {
    /// The content range of this token, as character offsets into the source
    /// text: from the start of the first descendant span to the end of the
    /// last one.  `None` when no descendant has content.
    pub fn content_range(&self) -> (r: Option<(usize, usize)>)
        ensures
            match r {
                Option::Some(p) => node_content_range(self@) == Some((p.0 as int, p.1 as int)),
                Option::None => node_content_range(self@) is None,
            },
        decreases *self, 1int,
    {
        match &self.data {
            TokenData::Leaf(lo, hi) => if lo < hi {
                Some((*lo, *hi))
            } else {
                None
            },
            TokenData::Branch(children) => {
                proof {
                    lemma_children_nodes(children@, 0);
                }
                children_range(children, 0)
            },
        }
    }

    /// The textual content of this token, read from the source text it was
    /// matched against.  Empty when the token has no content range or the
    /// range does not fit the source.
    pub fn content<'a>(&self, source: &'a str) -> (r: &'a str)
        ensures
            r@ == node_content(source@, self@),
    {
        proof {
            reveal_strlit("");
        }
        match self.content_range() {
            Option::Some((lo, hi)) => {
                let n = source.unicode_len();
                if lo <= hi && hi <= n {
                    source.substring_char(lo, hi)
                } else {
                    ""
                }
            },
            Option::None => "",
        }
    }

    /// Render a human-readable nested dump of this capture tree, read
    /// against the source text it was matched from.
    pub fn graph(&self, source: &str) -> (r: String)
        ensures
            r@ == "\n"@ + node_graph(source@, self@, 0),
    {
        let mut out = String::new();
        out.append("\n");
        write_graph(self, source, 0, &mut out);
        proof {
            assert(out@ =~= "\n"@ + node_graph(source@, self@, 0));
        }
        out
    }

    /// All children of this token under the label `key`, in order.
    pub fn get_children(&self, key: &str) -> (r: Vec<Token>)
        ensures
            tokens_nodes(r@) == node_children(self@, key@),
    {
        let mut out: Vec<Token> = Vec::new();
        match &self.data {
            TokenData::Leaf(..) => {
                proof {
                    assert(tokens_nodes(out@) =~= node_children(self@, key@));
                }
            },
            TokenData::Branch(children) => {
                let n = children.len();
                let mut i: usize = 0;
                while i < n
                    invariant
                        n == children@.len(),
                        i <= n,
                        tokens_nodes(out@) + labelled_children(
                            children_nodes(children@, 0),
                            key@,
                            i as int,
                        ) =~= labelled_children(children_nodes(children@, 0), key@, 0),
                    decreases n - i,
                {
                    proof {
                        lemma_children_nodes(children@, 0);
                        lemma_labelled_children_step(children_nodes(children@, 0), key@, i as int);
                    }
                    let ghost prev = out@;
                    if str_eq_string(key, &children[i].0) {
                        out.push(children[i].1.clone());
                        proof {
                            assert(tokens_nodes(out@) =~= tokens_nodes(prev).push(
                                token_node(children@[i as int].1),
                            ));
                            assert(tokens_nodes(prev).push(token_node(children@[i as int].1))
                                + labelled_children(
                                children_nodes(children@, 0),
                                key@,
                                i as int + 1,
                            ) =~= tokens_nodes(prev) + labelled_children(
                                children_nodes(children@, 0),
                                key@,
                                i as int,
                            ));
                        }
                    }
                    i = i + 1;
                }
                proof {
                    lemma_children_nodes(children@, 0);
                    assert(tokens_nodes(out@) =~= node_children(self@, key@));
                }
            },
        }
        out
    }

    /// The first child under the label `key`, if any.
    pub fn get_first_child(&self, key: &str) -> (r: Option<Token>)
        ensures
            match r {
                Option::Some(t) => node_first_child(self@, key@) == Some(t@),
                Option::None => node_first_child(self@, key@) is None,
            },
    {
        let mut v = self.get_children(key);
        if v.len() > 0 {
            Some(v.remove(0))
        } else {
            None
        }
    }
}

/// `depth` tab characters.
pub open spec fn tabs(depth: int) -> Seq<char>
    decreases depth,
{
    if depth <= 0 {
        Seq::empty()
    } else {
        "\t"@ + tabs(depth - 1)
    }
}

/// One more level of indentation, staying within the machine's range.
pub open spec fn deeper(depth: int) -> int {
    if depth < usize::MAX as int {
        depth + 1
    } else {
        depth
    }
}

/// The rendering of a node at an indentation depth: a quoted content for a
/// span, a brace-enclosed list of labelled children for a branch.
pub open spec fn node_graph(src: Seq<char>, n: Node, depth: int) -> Seq<char>
    decreases n, 0int,
{
    match n {
        Node::Leaf { .. } => tabs(depth) + "\""@ + node_content(src, n) + "\""@,
        Node::Branch { children } => tabs(depth) + "{\n"@ + children_graph(
            src,
            children,
            0,
            deeper(depth),
        ) + tabs(depth) + "}"@,
    }
}

/// The rendering of the children `children[i..]`, one line each: a
/// labelled child under a `label:` line, an unlabelled one bare.
pub open spec fn children_graph(
    src: Seq<char>,
    children: Seq<(Seq<char>, Node)>,
    i: int,
    depth: int,
) -> Seq<char>
    decreases children, children.len() - i,
{
    if i < 0 || i >= children.len() {
        Seq::empty()
    } else {
        let head = if children[i].0.len() > 0 {
            tabs(depth) + children[i].0 + ":\n"@ + node_graph(src, children[i].1, depth) + ",\n"@
        } else {
            node_graph(src, children[i].1, depth) + ",\n"@
        };
        head + children_graph(src, children, i + 1, depth)
    }
}

/// Unfolding step of `labelled_children` at index `i`.
proof fn lemma_labelled_children_step(children: Seq<(Seq<char>, Node)>, key: Seq<char>, i: int)
    requires
        0 <= i < children.len(),
    ensures
        labelled_children(children, key, i) == if children[i].0 == key {
            seq![children[i].1] + labelled_children(children, key, i + 1)
        } else {
            labelled_children(children, key, i + 1)
        },
{
}

/// The combined content range of `children[i..]`, mirrored in execution.
fn children_range(children: &Vec<(String, Token)>, i: usize) -> (r: Option<(usize, usize)>)
    requires
        i <= children@.len(),
    ensures
        match r {
            Option::Some(p) => children_content_range(children_nodes(children@, 0), i as int)
                == Some((p.0 as int, p.1 as int)),
            Option::None => children_content_range(children_nodes(children@, 0), i as int)
                is None,
        },
    decreases *children, children@.len() - i,
{
    proof {
        lemma_children_nodes(children@, 0);
    }
    if i >= children.len() {
        None
    } else {
        let head = children[i].1.content_range();
        let rest = children_range(children, i + 1);
        match head {
            Option::None => rest,
            Option::Some(h) => match rest {
                Option::None => Some(h),
                Option::Some(r) => Some((h.0, r.1)),
            },
        }
    }
}

/// Appending one tab deepens the indentation by one.
proof fn lemma_tabs_snoc(d: int)
    requires
        d >= 0,
    ensures
        tabs(d) + "\t"@ == tabs(d + 1),
    decreases d,
{
    if d == 0 {
        assert(tabs(0) + "\t"@ =~= "\t"@ + tabs(0));
    } else {
        lemma_tabs_snoc(d - 1);
        assert(tabs(d) + "\t"@ =~= "\t"@ + (tabs(d - 1) + "\t"@));
    }
}

/// Write `depth` tabs onto `out`.
fn write_tabs(depth: usize, out: &mut String)
    ensures
        final(out)@ == old(out)@ + tabs(depth as int),
{
    proof {
        assert(out@ =~= out@ + tabs(0));
    }
    let mut i: usize = 0;
    while i < depth
        invariant
            i <= depth,
            out@ == old(out)@ + tabs(i as int),
        decreases depth - i,
    {
        out.append("\t");
        proof {
            lemma_tabs_snoc(i as int);
            assert((old(out)@ + tabs(i as int)) + "\t"@ =~= old(out)@ + (tabs(i as int) + "\t"@));
        }
        i = i + 1;
    }
}

/// Write the rendering of one token onto `out`.
fn write_graph(t: &Token, source: &str, depth: usize, out: &mut String)
    ensures
        final(out)@ == old(out)@ + node_graph(source@, t@, depth as int),
    decreases *t, 1int,
{
    match &t.data {
        TokenData::Leaf(..) => {
            write_tabs(depth, out);
            out.append("\"");
            let c = t.content(source);
            out.append(c);
            out.append("\"");
            proof {
                assert(out@ =~= old(out)@ + node_graph(source@, t@, depth as int));
            }
        },
        TokenData::Branch(children) => {
            write_tabs(depth, out);
            out.append("{\n");
            let d1 = if depth < usize::MAX {
                depth + 1
            } else {
                depth
            };
            write_children(children, source, 0, d1, out);
            write_tabs(depth, out);
            out.append("}");
            proof {
                assert(out@ =~= old(out)@ + node_graph(source@, t@, depth as int));
            }
        },
    }
}

/// Write the renderings of the children `children[i..]` onto `out`.
fn write_children(
    children: &Vec<(String, Token)>,
    source: &str,
    i: usize,
    depth: usize,
    out: &mut String,
)
    requires
        i <= children@.len(),
    ensures
        final(out)@ == old(out)@ + children_graph(
            source@,
            children_nodes(children@, 0),
            i as int,
            depth as int,
        ),
    decreases *children, children@.len() - i,
{
    proof {
        lemma_children_nodes(children@, 0);
    }
    if i >= children.len() {
        proof {
            assert(out@ =~= out@ + children_graph(
                source@,
                children_nodes(children@, 0),
                i as int,
                depth as int,
            ));
        }
        return ;
    }
    if !children[i].0.as_str().is_empty() {
        write_tabs(depth, out);
        out.append(children[i].0.as_str());
        out.append(":\n");
        write_graph(&children[i].1, source, depth, out);
        out.append(",\n");
    } else {
        write_graph(&children[i].1, source, depth, out);
        out.append(",\n");
    }
    write_children(children, source, i + 1, depth, out);
    proof {
        assert(out@ =~= old(out)@ + children_graph(
            source@,
            children_nodes(children@, 0),
            i as int,
            depth as int,
        ));
    }
}

/// Equality of two string slices, by their character sequences.
pub fn str_eq_string(a: &str, b: &String) -> (r: bool)
    ensures
        r == (a@ == b@),
{
    let owned: String = a.to_owned();
    owned.eq(b)
}

/// Equality of two string slices, by their character sequences.
pub fn str_eq_str(a: &str, b: &str) -> (r: bool)
    ensures
        r == (a@ == b@),
{
    let bo: String = b.to_owned();
    str_eq_string(a, &bo)
}

} // verus!
