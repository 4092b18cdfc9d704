//! A plain document model for the hierarchical configuration file:
//! string, integer and mapping nodes, with everything else collapsed
//! into an `Other` node that the schema rejects wherever it appears.

use vstd::prelude::*;

verus! {

/// One node of a loosely-typed hierarchical document (a YAML-style tree),
/// reduced to the shapes the configuration schema distinguishes.
pub enum Node {
    /// A scalar string.
    Str(String),
    /// A scalar integer.
    Int(i64),
    /// A mapping, as a list of key/value pairs in document order.
    Mapping(Vec<(Node, Node)>),
    /// Any other shape (sequence, boolean, null, ...): never valid
    /// where the schema wants a string, an integer or a mapping.
    Other,
}

/// The mathematical model of a `Node`.
pub enum NodeV {
    Str(Seq<char>),
    Int(i64),
    Mapping(Seq<(NodeV, NodeV)>),
    Other,
}

impl Node {
    /// The model of this node, child nodes taken to their models too.
    pub open spec fn node_view(&self) -> NodeV
        decreases self,
    {
        match self {
            Node::Str(s) => NodeV::Str(s@),
            Node::Int(i) => NodeV::Int(*i),
            Node::Mapping(entries) => NodeV::Mapping(
                Seq::new(
                    entries@.len(),
                    |i: int|
                        if 0 <= i < entries@.len() {
                            (entries@[i].0.node_view(), entries@[i].1.node_view())
                        } else {
                            (NodeV::Other, NodeV::Other)
                        },
                ),
            ),
            Node::Other => NodeV::Other,
        }
    }
}

impl DeepView for Node {
    type V = NodeV;

    open spec fn deep_view(&self) -> NodeV {
        self.node_view()
    }
}

/// A mapping node's model is exactly the deep view of its entry list.
pub proof fn lemma_mapping_deep_view(entries: Vec<(Node, Node)>)
    ensures
        Node::Mapping(entries).deep_view() == NodeV::Mapping(entries.deep_view()),
{
    let dv = Node::Mapping(entries).node_view();
    assert(dv->Mapping_0 =~= entries.deep_view());
}

/// The value bound to a string key in a mapping: the latest entry whose key
/// is the string wins, so a repeated key in the source document silently
/// overwrites the earlier one.
pub open spec fn spec_map_get(entries: Seq<(NodeV, NodeV)>, key: Seq<char>) -> Option<NodeV>
    decreases entries.len(),
{
    if entries.len() == 0 {
        None
    } else if entries.last().0 == NodeV::Str(key) {
        Some(entries.last().1)
    } else {
        spec_map_get(entries.drop_last(), key)
    }
}

/// Looks a string key up in a mapping's entry list, latest entry first.
pub fn map_get<'a>(entries: &'a Vec<(Node, Node)>, key: &String) -> (r: Option<&'a Node>)
    ensures
        match r {
            Some(v) => spec_map_get(entries.deep_view(), key@) == Some(v.deep_view()),
            None => spec_map_get(entries.deep_view(), key@) is None,
        },
{
    let ghost m = entries.deep_view();
    let mut i: usize = entries.len();
    proof {
        assert(m.take(i as int) =~= m);
    }
    while i > 0
        invariant
            i <= entries.len(),
            m == entries.deep_view(),
            spec_map_get(m, key@) == spec_map_get(m.take(i as int), key@),
        decreases i,
    {
        i = i - 1;
        proof {
            assert(m.take(i + 1).last() == m[i as int]);
            assert(m.take(i + 1).drop_last() =~= m.take(i as int));
        }
        let pair = &entries[i];
        if let Node::Str(s) = &pair.0 {
            if *s == *key {
                return Some(&pair.1);
            }
        }
    }
    proof {
        assert(m.take(0) =~= Seq::<(NodeV, NodeV)>::empty());
    }
    None
}

/// A character with the Unicode white-space property: the set that
/// surrounding white space is stripped from around a credential-file path.
pub open spec fn spec_is_space(c: char) -> bool {
    let u = c as u32;
    u == 0x20 || (0x09 <= u && u <= 0x0D) || u == 0x85 || u == 0xA0 || u == 0x1680 || (0x2000
        <= u && u <= 0x200A) || u == 0x2028 || u == 0x2029 || u == 0x202F || u == 0x205F || u
        == 0x3000
}

/// Decides whether a character counts as white space for trimming.
pub fn is_space_char(c: char) -> (r: bool)
    ensures
        r == spec_is_space(c),
{
    let u = c as u32;
    u == 0x20 || (0x09 <= u && u <= 0x0D) || u == 0x85 || u == 0xA0 || u == 0x1680 || (0x2000 <= u
        && u <= 0x200A) || u == 0x2028 || u == 0x2029 || u == 0x202F || u == 0x205F || u == 0x3000
}

/// The sequence without its leading white space.
pub open spec fn spec_drop_leading(s: Seq<char>) -> Seq<char>
    decreases s.len(),
{
    if s.len() > 0 && spec_is_space(s[0]) {
        spec_drop_leading(s.drop_first())
    } else {
        s
    }
}

/// The sequence without its trailing white space.
pub open spec fn spec_drop_trailing(s: Seq<char>) -> Seq<char>
    decreases s.len(),
{
    if s.len() > 0 && spec_is_space(s.last()) {
        spec_drop_trailing(s.drop_last())
    } else {
        s
    }
}

/// The sequence without its surrounding white space.
pub open spec fn spec_trim(s: Seq<char>) -> Seq<char> {
    spec_drop_trailing(spec_drop_leading(s))
}

proof fn lemma_drop_leading_subrange(s: Seq<char>, k: int)
    requires
        0 <= k <= s.len(),
        forall|i: int| 0 <= i < k ==> spec_is_space(s[i]),
        k == s.len() || !spec_is_space(s[k]),
    ensures
        spec_drop_leading(s) == s.subrange(k, s.len() as int),
    decreases k,
{
    if k == 0 {
        assert(s.subrange(0, s.len() as int) =~= s);
    } else {
        assert(spec_is_space(s[0]));
        let t = s.drop_first();
        assert(forall|i: int| 0 <= i < k - 1 ==> spec_is_space(#[trigger] t[i]));
        lemma_drop_leading_subrange(t, k - 1);
        assert(t.subrange(k - 1, t.len() as int) =~= s.subrange(k, s.len() as int));
    }
}

proof fn lemma_drop_trailing_subrange(s: Seq<char>, k: int)
    requires
        0 <= k <= s.len(),
        forall|i: int| k <= i < s.len() ==> spec_is_space(s[i]),
        k == 0 || !spec_is_space(s[k - 1]),
    ensures
        spec_drop_trailing(s) == s.subrange(0, k),
    decreases s.len(),
{
    if k == s.len() {
        assert(s.subrange(0, k) =~= s);
    } else {
        assert(spec_is_space(s.last()));
        let t = s.drop_last();
        assert(forall|i: int| k <= i < t.len() ==> spec_is_space(#[trigger] t[i]));
        lemma_drop_trailing_subrange(t, k);
        assert(t.subrange(0, k) =~= s.subrange(0, k));
    }
}

/// A copy of the string without its surrounding white space.
pub fn trim_str(s: &str) -> (r: String)
    ensures
        r@ == spec_trim(s@),
{
    let n = s.unicode_len();
    let mut start: usize = 0;
    while start < n && is_space_char(s.get_char(start))
        invariant
            start <= n,
            n == s@.len(),
            forall|i: int| 0 <= i < start ==> spec_is_space(s@[i]),
        decreases n - start,
    {
        start = start + 1;
    }
    let mut end: usize = n;
    while end > start && is_space_char(s.get_char(end - 1))
        invariant
            start <= end <= n,
            n == s@.len(),
            start == n || !spec_is_space(s@[start as int]),
            forall|i: int| end <= i < n ==> spec_is_space(s@[i]),
        decreases end,
    {
        end = end - 1;
    }
    proof {
        lemma_drop_leading_subrange(s@, start as int);
        let t = s@.subrange(start as int, n as int);
        assert(forall|j: int|
            end - start <= j < t.len() ==> spec_is_space(#[trigger] t[j]));
        lemma_drop_trailing_subrange(t, end - start);
        assert(t.subrange(0, end - start) =~= s@.subrange(start as int, end as int));
    }
    String::from_str(s.substring_char(start, end))
}

} // verus!
