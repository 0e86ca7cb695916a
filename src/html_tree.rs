//! Clean-up of a rendered HTML document for a site that accepts only part of
//! HTML5. The document is an arena of nodes addressed by index, each with the
//! index of its parent and the indices of its children.
//!
//! Three rewrites run in turn: a `<p>` whose only child is an inline element
//! (`img`, `a`, `span`, `code`, `em`, `strong`) is replaced by that child; a
//! list directly inside an `<li>` of a list moves out to follow that `<li>`;
//! text loses its trailing line feeds, and text right after a `<code>` its
//! leading ones.
use vstd::prelude::*;
use crate::text::{trim_end_chars, trim_start_chars, trimmed_end, trimmed_start};

verus! {

/// What a node is.
pub enum NodeData {
    Document,
    /// An element, by its local name.
    Element(String),
    Text(String),
    /// Comments, doctypes and the like: kept as they are.
    Other,
}

pub struct Node {
    pub data: NodeData,
    pub parent: Option<usize>,
    pub children: Vec<usize>,
}

pub struct HtmlTree {
    pub nodes: Vec<Node>,
}

/// The local names of the inline elements that a `<p>` may not wrap alone.
pub open spec fn is_inline_name(n: Seq<char>) -> bool {
    n == "img"@ || n == "a"@ || n == "span"@ || n == "code"@ || n == "em"@ || n == "strong"@
}

pub open spec fn is_list_name(n: Seq<char>) -> bool {
    n == "ul"@ || n == "ol"@
}

/// `k` is the first position of `x` in `s`.
pub open spec fn is_first_index(s: Seq<usize>, x: usize, k: int) -> bool {
    0 <= k < s.len() && s[k] == x && forall|m: int| 0 <= m < k ==> s[m] != x
}

impl HtmlTree {
    /// Every parent and child index names a node of the arena.
    pub open spec fn wf(&self) -> bool {
        &&& forall|i: int, j: int|
            0 <= i < self.nodes@.len() && 0 <= j < self.nodes@[i].children@.len()
                ==> #[trigger] self.nodes@[i].children@[j] < self.nodes@.len()
        &&& forall|i: int|
            0 <= i < self.nodes@.len() ==> match (#[trigger] self.nodes@[i]).parent {
                Some(p) => p < self.nodes@.len(),
                None => true,
            }
    }

    pub open spec fn kids(&self, i: int) -> Seq<usize> {
        self.nodes@[i].children@
    }

    pub open spec fn is_element(&self, i: int, name: Seq<char>) -> bool {
        self.nodes@[i].data matches NodeData::Element(n) && n@ == name
    }

    pub open spec fn is_inline(&self, i: int) -> bool {
        self.nodes@[i].data matches NodeData::Element(n) && is_inline_name(n@)
    }

    pub open spec fn is_list(&self, i: int) -> bool {
        self.nodes@[i].data matches NodeData::Element(n) && is_list_name(n@)
    }

    /// Node `p` is a `<p>` with a parent and a single child, an inline element.
    pub open spec fn is_wrapping_p(&self, p: int) -> bool {
        &&& self.is_element(p, "p"@)
        &&& self.kids(p).len() == 1
        &&& self.is_inline(self.kids(p)[0] as int)
        &&& self.nodes@[p].parent is Some
    }

    /// Node `li` is an `<li>` whose parent is a list.
    pub open spec fn is_list_item_in_list(&self, li: int) -> bool {
        &&& self.is_element(li, "li"@)
        &&& self.nodes@[li].parent matches Some(p) && self.is_list(p as int)
    }

    /// `post` differs from `pre` at most in the children and parent of the given nodes.
    pub open spec fn same_except(pre: &HtmlTree, post: &HtmlTree, a: int, b: int) -> bool {
        &&& post.nodes@.len() == pre.nodes@.len()
        &&& forall|i: int|
            0 <= i < pre.nodes@.len() ==> #[trigger] post.nodes@[i].data == pre.nodes@[i].data
        &&& forall|i: int|
            0 <= i < pre.nodes@.len() && i != a && i != b ==> #[trigger] post.nodes@[i].children@
                == pre.nodes@[i].children@ && post.nodes@[i].parent == pre.nodes@[i].parent
    }
}

/// `s` without the occurrences of `x`, in order.
pub open spec fn without(s: Seq<usize>, x: usize) -> Seq<usize>
    decreases s.len(),
{
    if s.len() == 0 {
        s
    } else {
        without(s.drop_last(), x) + (if s.last() == x {
            Seq::empty()
        } else {
            seq![s.last()]
        })
    }
}

/// Some entry of `r` names the `<li>` `li` and its child `c`.
pub open spec fn listed(r: Seq<(usize, usize, usize)>, li: int, c: usize) -> bool {
    exists|k: int| 0 <= k < r.len() && (#[trigger] r[k]).1 == li && r[k].2 == c
}

proof fn lemma_listed_push(r: Seq<(usize, usize, usize)>, x: (usize, usize, usize), li: int, c: usize)
    requires
        listed(r, li, c),
    ensures
        listed(r.push(x), li, c),
{
    let k = choose|k: int| 0 <= k < r.len() && (#[trigger] r[k]).1 == li && r[k].2 == c;
    assert(r.push(x)[k] == r[k]);
}

/// The text of a text node, or nothing for another node.
pub open spec fn text_of(d: NodeData) -> Option<Seq<char>> {
    match d {
        NodeData::Text(t) => Some(t@),
        _ => None,
    }
}

/// `after` is `before`, or for a text node possibly its text without leading
/// line feeds.
pub open spec fn lead_maybe_trimmed(before: NodeData, after: NodeData) -> bool {
    match text_of(before) {
        Some(t) => text_of(after) == Some(t) || text_of(after) == Some(
            trimmed_start(t, '\n', '\n'),
        ),
        None => after == before,
    }
}

/// `after` is `before`, or for a text node its text without trailing line
/// feeds, and possibly without leading ones too.
pub open spec fn text_cleaned(before: NodeData, after: NodeData) -> bool {
    match text_of(before) {
        Some(t) => text_of(after) == Some(trimmed_end(t, '\n', '\n')) || text_of(after) == Some(
            trimmed_end(trimmed_start(t, '\n', '\n'), '\n', '\n'),
        ),
        None => after == before,
    }
}

/// Whether `name` is one of the given literal names.
fn name_is(name: &String, lit: &str) -> (r: bool)
    ensures
        r == (name@ == lit@),
{
    let other = String::from_str(lit);
    *name == other
}

fn is_inline_element(data: &NodeData) -> (r: bool)
    ensures
        r == (data matches NodeData::Element(n) && is_inline_name(n@)),
{
    match data {
        NodeData::Element(n) => name_is(n, "img") || name_is(n, "a") || name_is(n, "span") || name_is(
            n,
            "code",
        ) || name_is(n, "em") || name_is(n, "strong"),
        _ => false,
    }
}

fn is_list_element(data: &NodeData) -> (r: bool)
    ensures
        r == (data matches NodeData::Element(n) && is_list_name(n@)),
{
    match data {
        NodeData::Element(n) => name_is(n, "ul") || name_is(n, "ol"),
        _ => false,
    }
}

fn is_named(data: &NodeData, lit: &str) -> (r: bool)
    ensures
        r == (data matches NodeData::Element(n) && n@ == lit@),
{
    match data {
        NodeData::Element(n) => name_is(n, lit),
        _ => false,
    }
}

/// The first position of `x` in `s`.
fn position_of(s: &Vec<usize>, x: usize) -> (r: Option<usize>)
    ensures
        match r {
            Some(k) => is_first_index(s@, x, k as int),
            None => !s@.contains(x),
        },
{
    let mut i: usize = 0;
    while i < s.len()
        invariant
            i <= s@.len(),
            forall|m: int| 0 <= m < i ==> s@[m] != x,
        decreases s@.len() - i,
    {
        if s[i] == x {
            return Some(i);
        }
        i = i + 1;
    }
    assert(!s@.contains(x));
    None
}

impl HtmlTree {
    /// Every `<p>` that wraps a single inline element, as
    /// `(parent, p, child)`, in the order of the arena.
    pub fn collect_nodes_to_unwrap(&self) -> (r: Vec<(usize, usize, usize)>)
        requires
            self.wf(),
        ensures
            forall|k: int|
                0 <= k < r@.len() ==> {
                    let (a, p, c) = #[trigger] r@[k];
                    &&& p < self.nodes@.len()
                    &&& self.is_wrapping_p(p as int)
                    &&& self.nodes@[p as int].parent == Some(a)
                    &&& self.kids(p as int)[0] == c
                },
            forall|p: int|
                0 <= p < self.nodes@.len() && self.is_wrapping_p(p) ==> exists|k: int|
                    0 <= k < r@.len() && (#[trigger] r@[k]).1 == p,
    {
        let mut out: Vec<(usize, usize, usize)> = Vec::new();
        let mut i: usize = 0;
        while i < self.nodes.len()
            invariant
                self.wf(),
                i <= self.nodes@.len(),
                forall|k: int|
                    0 <= k < out@.len() ==> {
                        let (a, p, c) = #[trigger] out@[k];
                        &&& p < i
                        &&& self.is_wrapping_p(p as int)
                        &&& self.nodes@[p as int].parent == Some(a)
                        &&& self.kids(p as int)[0] == c
                    },
                forall|p: int|
                    0 <= p < i && self.is_wrapping_p(p) ==> exists|k: int|
                        0 <= k < out@.len() && (#[trigger] out@[k]).1 == p,
            decreases self.nodes@.len() - i,
        {
            let node = &self.nodes[i];
            if is_named(&node.data, "p") && node.children.len() == 1 {
                let child = node.children[0];
                assert(child < self.nodes@.len());
                if is_inline_element(&self.nodes[child].data) {
                    match node.parent {
                        Some(parent) => {
                            let ghost before = out@;
                            out.push((parent, i, child));
                            assert(out@[out@.len() - 1].1 == i);
                            assert forall|q: int|
                                0 <= q < i && self.is_wrapping_p(q) implies exists|k: int|
                                    0 <= k < out@.len() && (#[trigger] out@[k]).1 == q by {
                                let k = choose|k: int| 0 <= k < before.len() && (#[trigger] before[k]).1 == q;
                                assert(out@[k] == before[k]);
                            }
                        },
                        None => {},
                    }
                }
            }
            i = i + 1;
        }
        out
    }

    /// Puts `child` where `p` stands among the children of `parent` (at its
    /// first position there) and makes `parent` the parent of `child`; where
    /// `p` is not a child of `parent`, nothing changes.
    pub fn unwrap_p_tag(&mut self, parent: usize, p: usize, child: usize)
        requires
            old(self).wf(),
            parent < old(self).nodes@.len(),
            p < old(self).nodes@.len(),
            child < old(self).nodes@.len(),
        ensures
            final(self).wf(),
            HtmlTree::same_except(old(self), final(self), parent as int, child as int),
            !old(self).kids(parent as int).contains(p) ==> final(self).nodes@ == old(self).nodes@,
            old(self).kids(parent as int).contains(p) ==> exists|k: int|
                is_first_index(old(self).kids(parent as int), p, k) && final(self).kids(parent as int)
                    == #[trigger] old(self).kids(parent as int).update(k, child),
            old(self).kids(parent as int).contains(p) ==> final(self).nodes@[child as int].parent
                == Some(parent),
            old(self).kids(parent as int).contains(p) && child != parent ==> final(self).kids(
                child as int,
            ) == old(self).kids(child as int),
    {
        match position_of(&self.nodes[parent].children, p) {
            Some(pos) => {
                self.nodes[child].parent = Some(parent);
                self.nodes[parent].children[pos] = child;
                assert(self.kids(parent as int) == old(self).kids(parent as int).update(
                    pos as int,
                    child,
                ));
                assert(forall|i: int, j: int|
                    0 <= i < self.nodes@.len() && 0 <= j < self.nodes@[i].children@.len()
                        ==> #[trigger] self.nodes@[i].children@[j] < self.nodes@.len()) by {
                    assert forall|i: int, j: int|
                        0 <= i < self.nodes@.len() && 0 <= j < self.nodes@[i].children@.len()
                            implies #[trigger] self.nodes@[i].children@[j] < self.nodes@.len() by {
                        if i != parent {
                            assert(self.nodes@[i].children@ == old(self).nodes@[i].children@);
                        }
                    }
                }
            },
            None => {},
        }
    }

    /// Every list directly inside an `<li>` whose parent is a list, as
    /// `(list holding the li, li, nested list)`: by `<li>` in the order of
    /// the arena, and by the order of its children within one `<li>`.
    pub fn collect_nested_lists(&self) -> (r: Vec<(usize, usize, usize)>)
        requires
            self.wf(),
        ensures
            forall|k: int|
                0 <= k < r@.len() ==> {
                    let (a, li, c) = #[trigger] r@[k];
                    &&& li < self.nodes@.len()
                    &&& self.is_list_item_in_list(li as int)
                    &&& self.nodes@[li as int].parent == Some(a)
                    &&& self.kids(li as int).contains(c)
                    &&& self.is_list(c as int)
                },
            forall|li: int, j: int|
                0 <= li < self.nodes@.len() && 0 <= j < self.kids(li).len()
                    && self.is_list_item_in_list(li) && self.is_list(
                    #[trigger] self.nodes@[li].children@[j] as int,
                ) ==> listed(r@, li, self.nodes@[li].children@[j]),
    {
        let mut out: Vec<(usize, usize, usize)> = Vec::new();
        let mut i: usize = 0;
        while i < self.nodes.len()
            invariant
                self.wf(),
                i <= self.nodes@.len(),
                forall|k: int|
                    0 <= k < out@.len() ==> {
                        let (a, li, c) = #[trigger] out@[k];
                        &&& li < self.nodes@.len()
                        &&& self.is_list_item_in_list(li as int)
                        &&& self.nodes@[li as int].parent == Some(a)
                        &&& self.kids(li as int).contains(c)
                        &&& self.is_list(c as int)
                    },
                forall|li: int, j: int|
                    0 <= li < i && 0 <= j < self.kids(li).len() && self.is_list_item_in_list(li)
                        && self.is_list(#[trigger] self.nodes@[li].children@[j] as int) ==> listed(
                        out@,
                        li,
                        self.nodes@[li].children@[j],
                    ),
            decreases self.nodes@.len() - i,
        {
            let node = &self.nodes[i];
            if is_named(&node.data, "li") {
                match node.parent {
                    Some(parent) => {
                        if is_list_element(&self.nodes[parent].data) {
                            let mut j: usize = 0;
                            while j < node.children.len()
                                invariant
                                    self.wf(),
                                    i < self.nodes@.len(),
                                    node == self.nodes@[i as int],
                                    self.is_list_item_in_list(i as int),
                                    node.parent == Some(parent),
                                    j <= node.children@.len(),
                                    forall|k: int|
                                        0 <= k < out@.len() ==> {
                                            let (a, li, c) = #[trigger] out@[k];
                                            &&& li < self.nodes@.len()
                                            &&& self.is_list_item_in_list(li as int)
                                            &&& self.nodes@[li as int].parent == Some(a)
                                            &&& self.kids(li as int).contains(c)
                                            &&& self.is_list(c as int)
                                        },
                                    forall|li: int, m: int|
                                        0 <= li < i && 0 <= m < self.kids(li).len()
                                            && self.is_list_item_in_list(li) && self.is_list(
                                            #[trigger] self.nodes@[li].children@[m] as int,
                                        ) ==> listed(out@, li, self.nodes@[li].children@[m]),
                                    forall|m: int|
                                        0 <= m < j && self.is_list(
                                            #[trigger] self.nodes@[i as int].children@[m] as int,
                                        ) ==> listed(out@, i as int, self.nodes@[i as int].children@[m]),
                                decreases node.children@.len() - j,
                            {
                                let c = node.children[j];
                                assert(c < self.nodes@.len());
                                if is_list_element(&self.nodes[c].data) {
                                    let ghost before = out@;
                                    out.push((parent, i, c));
                                    assert(self.kids(i as int)[j as int] == c);
                                    assert(out@[before.len() as int] == (parent, i, c));
                                    assert forall|li: int, c2: usize| listed(before, li, c2) implies listed(
                                        out@,
                                        li,
                                        c2,
                                    ) by {
                                        lemma_listed_push(before, (parent, i, c), li, c2);
                                    }
                                }
                                j = j + 1;
                            }
                        }
                    },
                    None => {},
                }
            }
            i = i + 1;
        }
        out
    }
}

impl HtmlTree {
    /// Moves the list `list` out of the children of `li` (every occurrence)
    /// and, where `li` is a child of `parent_ul`, puts it right after the
    /// first occurrence of `li` there, with `parent_ul` as its parent.
    pub fn move_nested_list_to_sibling(&mut self, parent_ul: usize, li: usize, list: usize)
        requires
            old(self).wf(),
            parent_ul < old(self).nodes@.len(),
            li < old(self).nodes@.len(),
            list < old(self).nodes@.len(),
            parent_ul != li,
        ensures
            final(self).wf(),
            final(self).nodes@.len() == old(self).nodes@.len(),
            forall|i: int|
                0 <= i < old(self).nodes@.len() ==> #[trigger] final(self).nodes@[i].data == old(self).nodes@[i].data,
            forall|i: int|
                0 <= i < old(self).nodes@.len() && i != li && i != parent_ul ==> #[trigger] final(self).kids(i) == old(self).kids(i),
            forall|i: int|
                0 <= i < old(self).nodes@.len() && i != list ==> #[trigger] final(self).nodes@[i].parent
                    == old(self).nodes@[i].parent,
            final(self).kids(li as int) == without(old(self).kids(li as int), list),
            !old(self).kids(parent_ul as int).contains(li) ==> final(self).kids(parent_ul as int)
                == old(self).kids(parent_ul as int),
            old(self).kids(parent_ul as int).contains(li) ==> exists|k: int|
                is_first_index(old(self).kids(parent_ul as int), li, k) && final(self).kids(
                    parent_ul as int,
                ) == #[trigger] old(self).kids(parent_ul as int).insert(k + 1, list),
    {
        let ghost n = self.nodes@.len();
        let mut kept: Vec<usize> = Vec::new();
        let mut i: usize = 0;
        while i < self.nodes[li].children.len()
            invariant
                self.wf(),
                self.nodes@ == old(self).nodes@,
                li < n == self.nodes@.len(),
                i <= self.kids(li as int).len(),
                kept@ == without(self.kids(li as int).subrange(0, i as int), list),
                forall|j: int| 0 <= j < kept@.len() ==> #[trigger] kept@[j] < n,
            decreases self.kids(li as int).len() - i,
        {
            let c = self.nodes[li].children[i];
            assert(self.kids(li as int).subrange(0, i + 1).drop_last() =~= self.kids(
                li as int,
            ).subrange(0, i as int));
            if c != list {
                kept.push(c);
            }
            i = i + 1;
        }
        assert(self.kids(li as int).subrange(0, i as int) =~= self.kids(li as int));
        self.nodes[li].children = kept;
        assert(self.wf()) by {
            assert forall|a: int, b: int|
                0 <= a < self.nodes@.len() && 0 <= b < self.nodes@[a].children@.len()
                    implies #[trigger] self.nodes@[a].children@[b] < self.nodes@.len() by {
                if a != li {
                    assert(self.nodes@[a] == old(self).nodes@[a]);
                }
            }
        }
        let ghost mid = self.nodes@;
        match position_of(&self.nodes[parent_ul].children, li) {
            Some(pos) => {
                let count = self.nodes[parent_ul].children.len();
                assert(pos < count);
                self.nodes[list].parent = Some(parent_ul);
                self.nodes[parent_ul].children.insert(pos + 1, list);
                assert(self.kids(parent_ul as int) == mid[parent_ul as int].children@.insert(
                    pos + 1,
                    list,
                ));
                assert(self.wf()) by {
                    assert forall|a: int, b: int|
                        0 <= a < self.nodes@.len() && 0 <= b < self.nodes@[a].children@.len()
                            implies #[trigger] self.nodes@[a].children@[b] < self.nodes@.len() by {
                        if a != parent_ul {
                            assert(self.nodes@[a].children@ == mid[a].children@);
                        } else {
                            let old_kids = mid[a].children@;
                            assert(b < pos + 1 ==> self.nodes@[a].children@[b] == old_kids[b]);
                            assert(b > pos + 1 ==> self.nodes@[a].children@[b] == old_kids[b - 1]);
                        }
                    }
                }
            },
            None => {},
        }
    }

    /// Moves every list found directly inside an `<li>` of a list out to
    /// follow that `<li>`, in the order `collect_nested_lists` gives.
    pub fn restructure_nested_lists(&mut self)
        requires
            old(self).wf(),
        ensures
            final(self).wf(),
            final(self).nodes@.len() == old(self).nodes@.len(),
            forall|i: int|
                0 <= i < old(self).nodes@.len() ==> #[trigger] final(self).nodes@[i].data == old(self).nodes@[i].data,
    {
        let moves = self.collect_nested_lists();
        let ghost n = self.nodes@.len();
        assert forall|k: int| 0 <= k < moves@.len() implies (#[trigger] moves@[k]).0 < n && moves@[k].1
            < n && moves@[k].2 < n && moves@[k].0 != moves@[k].1 by {
            let (a, li, c) = moves@[k];
            assert(self.nodes@[li as int].parent == Some(a));
            let j = choose|j: int| 0 <= j < self.kids(li as int).len() && self.kids(li as int)[j] == c;
            assert(self.nodes@[li as int].children@[j] < n);
            assert(a != li) by {
                if a == li {
                    assert(self.is_element(li as int, "li"@));
                    assert(self.is_list(li as int));
                    reveal_strlit("li");
                    reveal_strlit("ul");
                    reveal_strlit("ol");
                    assert("li"@ != "ul"@ && "li"@ != "ol"@) by {
                        assert("li"@[1] != "ul"@[1]);
                        assert("li"@[0] != "ol"@[0]);
                    }
                }
            }
        }
        let mut k: usize = 0;
        while k < moves.len()
            invariant
                self.wf(),
                self.nodes@.len() == n,
                k <= moves@.len(),
                forall|m: int| 0 <= m < moves@.len() ==> (#[trigger] moves@[m]).0 < n && moves@[m].1
                    < n && moves@[m].2 < n && moves@[m].0 != moves@[m].1,
                forall|i: int| 0 <= i < n ==> #[trigger] self.nodes@[i].data == old(self).nodes@[i].data,
            decreases moves@.len() - k,
        {
            let (parent_ul, li, list) = moves[k];
            self.move_nested_list_to_sibling(parent_ul, li, list);
            k = k + 1;
        }
    }
}

impl HtmlTree {
    /// The text node right after each `<code>` element among the children of
    /// its parent loses its leading line feeds.
    pub fn trim_text_after_code(&mut self)
        requires
            old(self).wf(),
        ensures
            final(self).wf(),
            final(self).nodes@.len() == old(self).nodes@.len(),
            forall|i: int|
                0 <= i < old(self).nodes@.len() ==> (#[trigger] final(self).nodes@[i]).children@
                    == old(self).nodes@[i].children@ && final(self).nodes@[i].parent == old(self).nodes@[i].parent,
            forall|i: int|
                0 <= i < old(self).nodes@.len() ==> lead_maybe_trimmed(
                    old(self).nodes@[i].data,
                    #[trigger] final(self).nodes@[i].data,
                ),
    {
        let ghost n = self.nodes@.len();
        let mut i: usize = 0;
        while i < self.nodes.len()
            invariant
                self.wf(),
                n == self.nodes@.len() == old(self).nodes@.len(),
                i <= n,
                forall|j: int|
                    0 <= j < n ==> (#[trigger] self.nodes@[j]).children@ == old(self).nodes@[j].children@
                        && self.nodes@[j].parent == old(self).nodes@[j].parent,
                forall|j: int|
                    0 <= j < n ==> lead_maybe_trimmed(
                        old(self).nodes@[j].data,
                        #[trigger] self.nodes@[j].data,
                    ),
            decreases n - i,
        {
            if is_named(&self.nodes[i].data, "code") {
                match self.nodes[i].parent {
                    Some(parent) => {
                        match position_of(&self.nodes[parent].children, i) {
                            Some(pos) => {
                                if pos < self.nodes[parent].children.len() - 1 {
                                    let sib = self.nodes[parent].children[pos + 1];
                                    let trimmed = match &self.nodes[sib].data {
                                        NodeData::Text(t) => Some(trim_start_chars(t.as_str(), '\n', '\n')),
                                        _ => None,
                                    };
                                    match trimmed {
                                        Some(t) => {
                                            proof {
                                                lemma_trim_start_idempotent(
                                                    text_of(old(self).nodes@[sib as int].data)->Some_0,
                                                );
                                            }
                                            self.nodes[sib].data = NodeData::Text(t);
                                        },
                                        None => {},
                                    }
                                }
                            },
                            None => {},
                        }
                    },
                    None => {},
                }
            }
            i = i + 1;
        }
    }

    /// Every text node loses its trailing line feeds.
    pub fn trim_trailing_line_feeds(&mut self)
        requires
            old(self).wf(),
        ensures
            final(self).wf(),
            final(self).nodes@.len() == old(self).nodes@.len(),
            forall|i: int|
                0 <= i < old(self).nodes@.len() ==> (#[trigger] final(self).nodes@[i]).children@
                    == old(self).nodes@[i].children@ && final(self).nodes@[i].parent == old(self).nodes@[i].parent,
            forall|i: int|
                0 <= i < old(self).nodes@.len() ==> #[trigger] text_of(final(self).nodes@[i].data)
                    == match text_of(old(self).nodes@[i].data) {
                    Some(t) => Some(trimmed_end(t, '\n', '\n')),
                    None => None,
                },
            forall|i: int|
                0 <= i < old(self).nodes@.len() && text_of(old(self).nodes@[i].data) is None
                    ==> #[trigger] final(self).nodes@[i].data == old(self).nodes@[i].data,
    {
        let ghost n = self.nodes@.len();
        let mut i: usize = 0;
        while i < self.nodes.len()
            invariant
                self.wf(),
                n == self.nodes@.len() == old(self).nodes@.len(),
                i <= n,
                forall|j: int|
                    0 <= j < n ==> (#[trigger] self.nodes@[j]).children@ == old(self).nodes@[j].children@
                        && self.nodes@[j].parent == old(self).nodes@[j].parent,
                forall|j: int|
                    0 <= j < i ==> #[trigger] text_of(self.nodes@[j].data) == match text_of(
                        old(self).nodes@[j].data,
                    ) {
                        Some(t) => Some(trimmed_end(t, '\n', '\n')),
                        None => None,
                    },
                forall|j: int| i <= j < n ==> #[trigger] self.nodes@[j].data == old(self).nodes@[j].data,
                forall|j: int|
                    0 <= j < n && text_of(old(self).nodes@[j].data) is None
                        ==> #[trigger] self.nodes@[j].data == old(self).nodes@[j].data,
            decreases n - i,
        {
            let trimmed = match &self.nodes[i].data {
                NodeData::Text(t) => Some(trim_end_chars(t.as_str(), '\n', '\n')),
                _ => None,
            };
            match trimmed {
                Some(t) => {
                    self.nodes[i].data = NodeData::Text(t);
                },
                None => {},
            }
            i = i + 1;
        }
    }

    /// Text loses its trailing line feeds, and text right after a `<code>`
    /// its leading ones; the shape of the tree does not change.
    pub fn clean_text_nodes(&mut self)
        requires
            old(self).wf(),
        ensures
            final(self).wf(),
            final(self).nodes@.len() == old(self).nodes@.len(),
            forall|i: int|
                0 <= i < old(self).nodes@.len() ==> (#[trigger] final(self).nodes@[i]).children@
                    == old(self).nodes@[i].children@ && final(self).nodes@[i].parent == old(self).nodes@[i].parent,
            forall|i: int|
                0 <= i < old(self).nodes@.len() ==> text_cleaned(
                    old(self).nodes@[i].data,
                    #[trigger] final(self).nodes@[i].data,
                ),
    {
        self.trim_text_after_code();
        self.trim_trailing_line_feeds();
    }

    /// Runs the three rewrites in turn: unwrapping, list moves, text
    /// trimming. Only the texts of text nodes change among node contents.
    pub fn clean_html_structure(&mut self)
        requires
            old(self).wf(),
        ensures
            final(self).wf(),
            final(self).nodes@.len() == old(self).nodes@.len(),
            forall|i: int|
                0 <= i < old(self).nodes@.len() ==> text_cleaned(
                    old(self).nodes@[i].data,
                    #[trigger] final(self).nodes@[i].data,
                ),
    {
        let targets = self.collect_nodes_to_unwrap();
        let ghost n = self.nodes@.len();
        assert forall|k: int| 0 <= k < targets@.len() implies (#[trigger] targets@[k]).0 < n
            && targets@[k].1 < n && targets@[k].2 < n by {
            let (a, p, c) = targets@[k];
            assert(self.nodes@[p as int].parent == Some(a));
            assert(self.nodes@[p as int].children@[0] == c);
        }
        let mut k: usize = 0;
        while k < targets.len()
            invariant
                self.wf(),
                self.nodes@.len() == n,
                k <= targets@.len(),
                forall|m: int| 0 <= m < targets@.len() ==> (#[trigger] targets@[m]).0 < n
                    && targets@[m].1 < n && targets@[m].2 < n,
                forall|i: int| 0 <= i < n ==> #[trigger] self.nodes@[i].data == old(self).nodes@[i].data,
            decreases targets@.len() - k,
        {
            let (parent, p, child) = targets[k];
            self.unwrap_p_tag(parent, p, child);
            k = k + 1;
        }
        self.restructure_nested_lists();
        self.clean_text_nodes();
    }
}

/// Trimming leading characters twice is trimming them once.
pub proof fn lemma_trim_start_idempotent(s: Seq<char>)
    ensures
        trimmed_start(trimmed_start(s, '\n', '\n'), '\n', '\n') == trimmed_start(s, '\n', '\n'),
    decreases s.len(),
{
    if s.len() > 0 && s[0] == '\n' {
        lemma_trim_start_idempotent(s.drop_first());
    }
}

} // verus!
