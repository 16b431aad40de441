//! The route tree: a tree of path segments that leads from a path to its
//! handler. A node has a child for each literal segment below it and at most
//! one child that stands for any segment and captures it under a name.
//! Where both fit, the literal child is taken.

use crate::list_map::{key_index, listing_insert};
use crate::request::{RoutePathValues, TextMap};
use crate::text::{
    chars_of, find_char, find_from, pieces_from, same_text, segments,
    separate_path_segments, split_text, string_of, texts,
};
use vstd::prelude::*;

verus! {

/// A node of the route tree.
pub struct RouteNode<H> {
    handler: Option<H>,
    dynamic_child: Option<Box<RouteNode<H>>>,
    dynamic_id: Option<String>,
    children: Vec<(String, RouteNode<H>)>,
}

/// What a route tree is, as a mathematical value: the view of `RouteNode`.
pub struct RouteTree<H> {
    pub handler: Option<H>,
    /// The child that stands for any segment.
    pub dynamic_child: Option<Box<RouteTree<H>>>,
    /// The name under which this node, as such a child, captures its
    /// segment.
    pub dynamic_id: Option<Seq<char>>,
    /// The children for literal segments, each under its segment.
    pub children: Seq<(Seq<char>, RouteTree<H>)>,
}

/// A path with a handler that it led to and the values it bound.
pub struct RouteMatch<H> {
    pub handler: H,
    pub params: Seq<(Seq<char>, Seq<char>)>,
}

/// Whether a segment of a pattern captures: it is written in braces.
pub open spec fn is_capture(segment: Seq<char>) -> bool {
    segment.len() > 0 && segment.first() == '{' && segment.last() == '}'
}

/// The name between the braces of a capturing segment.
pub open spec fn capture_name(segment: Seq<char>) -> Seq<char> {
    segment.subrange(1, segment.len() - 1)
}

impl<H> RouteTree<H> {
    /// The tree with no route.
    pub open spec fn empty() -> RouteTree<H> {
        RouteTree { handler: None, dynamic_child: None, dynamic_id: None, children: Seq::empty() }
    }

    /// The tree with one more route: `handler` at the end of the pattern
    /// whose segments from `from` on are `pattern`.
    pub open spec fn with_route(
        self,
        pattern: Seq<Seq<char>>,
        from: int,
        handler: H,
    ) -> RouteTree<H>
        decreases pattern.len() - from,
    {
        if from < 0 || from >= pattern.len() {
            RouteTree {
                handler: Some(handler),
                dynamic_child: self.dynamic_child,
                dynamic_id: self.dynamic_id,
                children: self.children,
            }
        } else if is_capture(pattern[from]) {
            let child = match self.dynamic_child {
                Some(child) => *child,
                None => RouteTree::empty(),
            };
            let named = RouteTree {
                handler: child.handler,
                dynamic_child: child.dynamic_child,
                dynamic_id: Some(capture_name(pattern[from])),
                children: child.children,
            };
            RouteTree {
                handler: self.handler,
                dynamic_child: Some(Box::new(named.with_route(pattern, from + 1, handler))),
                dynamic_id: self.dynamic_id,
                children: self.children,
            }
        } else {
            let at = key_index(self.children, pattern[from], 0);
            let below = if at < self.children.len() {
                self.children[at].1
            } else {
                RouteTree::empty()
            };
            let child = (pattern[from], below.with_route(pattern, from + 1, handler));
            RouteTree {
                handler: self.handler,
                dynamic_child: self.dynamic_child,
                dynamic_id: self.dynamic_id,
                children: if at < self.children.len() {
                    self.children.update(at, child)
                } else {
                    self.children.push(child)
                },
            }
        }
    }

    /// Where the segments of a path from `from` on lead, with the values
    /// bound on the way added to `params`. At each node the literal child for
    /// the segment is taken if there is one, else the capturing child.
    pub open spec fn lookup(
        self,
        path: Seq<Seq<char>>,
        from: int,
        params: Seq<(Seq<char>, Seq<char>)>,
    ) -> Option<RouteMatch<H>>
        decreases path.len() - from,
    {
        if from < 0 || from >= path.len() {
            match self.handler {
                Some(handler) => Some(RouteMatch { handler, params }),
                None => None,
            }
        } else {
            let at = key_index(self.children, path[from], 0);
            if at < self.children.len() {
                self.children[at].1.lookup(path, from + 1, params)
            } else {
                match self.dynamic_child {
                    Some(child) => match child.dynamic_id {
                        Some(name) => child.lookup(
                            path,
                            from + 1,
                            listing_insert(params, name, path[from]),
                        ),
                        None => None,
                    },
                    None => None,
                }
            }
        }
    }
}

/// A path with the handler it leads to, the values captured from it and the
/// pairs of its query.
pub struct FoundRoute<H> {
    pub handler: H,
    pub params: Seq<(Seq<char>, Seq<char>)>,
    pub queries: Seq<(Seq<char>, Seq<char>)>,
}

/// The segments of a path that are looked up in the tree: the segments of
/// the path, the last of them only up to its first question mark.
pub open spec fn route_segments(path: Seq<char>) -> Seq<Seq<char>> {
    let all = segments(path);
    if all.len() == 0 {
        all
    } else {
        let last = all.last();
        let mark = find_from(last, '?', 0);
        if mark < last.len() {
            all.drop_last().push(last.subrange(0, mark))
        } else {
            all
        }
    }
}

/// The query of a path: what follows the first question mark of its last
/// segment. A path without a question mark there, or with nothing after it,
/// has none.
pub open spec fn query_text(path: Seq<char>) -> Option<Seq<char>> {
    let all = segments(path);
    if all.len() == 0 {
        None
    } else {
        let last = all.last();
        let mark = find_from(last, '?', 0);
        if mark + 1 < last.len() {
            Some(last.subrange(mark + 1, last.len() as int))
        } else {
            None
        }
    }
}

/// The key of a pair of a query: what stands before its first equals sign.
pub open spec fn pair_key(pair: Seq<char>) -> Seq<char> {
    pair.subrange(0, find_from(pair, '=', 0))
}

/// The value of a pair of a query: what stands between its first equals
/// sign and its second, or its end.
pub open spec fn pair_value(pair: Seq<char>) -> Seq<char> {
    let first = find_from(pair, '=', 0);
    if first < pair.len() {
        pair.subrange(first + 1, find_from(pair, '=', first + 1))
    } else {
        Seq::empty()
    }
}

/// Whether every one of the pairs has an equals sign.
pub open spec fn pairs_well_formed(pairs: Seq<Seq<char>>) -> bool {
    forall|i: int| 0 <= i < pairs.len() ==> find_from(#[trigger] pairs[i], '=', 0) < pairs[i].len()
}

/// The keys and values of the first `n` pairs. A key that comes again keeps
/// its place and takes the later value.
pub open spec fn pairs_upto(pairs: Seq<Seq<char>>, n: int) -> Seq<(Seq<char>, Seq<char>)>
    decreases n,
{
    if n <= 0 || n > pairs.len() {
        Seq::empty()
    } else {
        listing_insert(pairs_upto(pairs, n - 1), pair_key(pairs[n - 1]), pair_value(pairs[n - 1]))
    }
}

/// Whether the query of a path, if it has one, is made of pairs of the form
/// `key=value` with `&` between them.
pub open spec fn well_formed_query(path: Seq<char>) -> bool {
    match query_text(path) {
        Some(query) => pairs_well_formed(pieces_from(query, '&', 0)),
        None => true,
    }
}

/// The keys and values of the query of a path.
pub open spec fn query_pairs(path: Seq<char>) -> Seq<(Seq<char>, Seq<char>)> {
    match query_text(path) {
        Some(query) => pairs_upto(pieces_from(query, '&', 0), pieces_from(query, '&', 0).len() as int),
        None => Seq::empty(),
    }
}

impl<H> RouteTree<H> {
    /// What a path leads to: the handler at the end of its segments, with
    /// the values captured on the way and the pairs of its query.
    pub open spec fn find(self, path: Seq<char>) -> Option<FoundRoute<H>> {
        match self.lookup(route_segments(path), 0, Seq::empty()) {
            Some(found) => Some(
                FoundRoute { handler: found.handler, params: found.params, queries: query_pairs(path) },
            ),
            None => None,
        }
    }
}

/// A route that was found for a path.
pub struct RouteHandlerPath<'a, H> {
    pub handler: &'a H,
    pub params: TextMap,
    pub queries: TextMap,
}

impl<'a, H> RouteHandlerPath<'a, H> {
    /// What the route bound, without its handler.
    pub fn into_path_values(self) -> (values: RoutePathValues)
        ensures
            values.params == self.params,
            values.queries == self.queries,
    {
        RoutePathValues { params: self.params, queries: self.queries }
    }
}

/// The pairs of a query, or nothing if one of them has no equals sign.
fn parse_query(query: &[char]) -> (parsed: Option<TextMap>)
    ensures
        parsed is Some == pairs_well_formed(pieces_from(query@, '&', 0)),
        parsed matches Some(queries) ==> queries.listing() == pairs_upto(
            pieces_from(query@, '&', 0),
            pieces_from(query@, '&', 0).len() as int,
        ),
{
    let pairs = split_text(query, '&');
    let ghost all = pieces_from(query@, '&', 0);
    assert(all.len() == pairs@.len());
    let mut queries = TextMap::new();
    let mut i: usize = 0;
    while i < pairs.len()
        invariant
            i <= pairs@.len(),
            texts(pairs@) == all,
            all == pieces_from(query@, '&', 0),
            all.len() == pairs@.len(),
            queries.listing() == pairs_upto(all, i as int),
            forall|j: int| 0 <= j < i ==> find_from(#[trigger] all[j], '=', 0) < all[j].len(),
        decreases pairs@.len() - i,
    {
        let pair = chars_of(pairs[i].as_str());
        assert(pair@ == all[i as int]);
        let first = find_char(pair.as_slice(), '=', 0);
        if first >= pair.len() {
            assert(!(find_from(all[i as int], '=', 0) < all[i as int].len()));
            return None;
        }
        let second = find_char(pair.as_slice(), '=', first + 1);
        let key = string_of(vstd::slice::slice_subrange(pair.as_slice(), 0, first));
        let value = string_of(vstd::slice::slice_subrange(pair.as_slice(), first + 1, second));
        queries.insert(key, value);
        i += 1;
    }
    Some(queries)
}

/// The segments to look up and the pairs of the query of a path, or nothing
/// if the query is not well formed.
fn analyze_path(path: &str) -> (target: Option<(Vec<String>, TextMap)>)
    ensures
        target is Some == well_formed_query(path@),
        target matches Some(t) ==> texts(t.0@) == route_segments(path@) && t.1.listing()
            == query_pairs(path@),
{
    let mut found = separate_path_segments(path);
    let ghost all = segments(path@);
    assert(all.len() == found@.len());
    if found.len() == 0 {
        return Some((found, TextMap::new()));
    }
    let last = chars_of(found[found.len() - 1].as_str());
    assert(last@ == all.last());
    let mark = find_char(last.as_slice(), '?', 0);
    if mark >= last.len() {
        return Some((found, TextMap::new()));
    }
    let cut = string_of(vstd::slice::slice_subrange(last.as_slice(), 0, mark));
    found.pop();
    found.push(cut);
    assert(texts(found@) == all.drop_last().push(last@.subrange(0, mark as int)));
    if mark + 1 < last.len() {
        let query = vstd::slice::slice_subrange(last.as_slice(), mark + 1, last.len());
        match parse_query(query) {
            Some(queries) => Some((found, queries)),
            None => None,
        }
    } else {
        Some((found, TextMap::new()))
    }
}

/// Whether the query of a path, if it has one, is made of pairs of the form
/// `key=value` with `&` between them. Only such a path can be looked up.
pub fn has_well_formed_query(path: &str) -> (b: bool)
    ensures
        b == well_formed_query(path@),
{
    analyze_path(path).is_some()
}

impl<H> RouteNode<H> {
    pub closed spec fn view(&self) -> RouteTree<H>
        decreases self,
    {
        RouteTree {
            handler: self.handler,
            dynamic_child: match self.dynamic_child {
                Some(child) => Some(Box::new(child.view())),
                None => None,
            },
            dynamic_id: match self.dynamic_id {
                Some(name) => Some(name@),
                None => None,
            },
            children: Seq::new(
                self.children@.len(),
                |i: int|
                    if 0 <= i < self.children@.len() {
                        (self.children@[i].0@, self.children@[i].1.view())
                    } else {
                        arbitrary()
                    },
            ),
        }
    }

    /// The handler and the capture name of a node are those of its view.
    proof fn lemma_view(&self)
        ensures
            self@.handler == self.handler,
            self@.dynamic_id == (match self.dynamic_id {
                Some(name) => Some(name@),
                None => None,
            }),
    {
    }

    pub fn new() -> (node: Self)
        ensures
            node@ == RouteTree::<H>::empty(),
    {
        let node = Self {
            handler: None,
            dynamic_child: None,
            dynamic_id: None,
            children: Vec::new(),
        };
        assert(node@.children == Seq::<(Seq<char>, RouteTree<H>)>::empty());
        node
    }

    /// The place of the literal child for a segment.
    fn child_position(&self, segment: &str) -> (at: usize)
        ensures
            at == key_index(self@.children, segment@, 0),
            at <= self.children@.len(),
            self@.children.len() == self.children@.len(),
    {
        let mut i: usize = 0;
        while i < self.children.len()
            invariant
                i <= self.children@.len(),
                self@.children.len() == self.children@.len(),
                key_index(self@.children, segment@, 0) == key_index(
                    self@.children,
                    segment@,
                    i as int,
                ),
            decreases self.children@.len() - i,
        {
            if same_text(self.children[i].0.as_str(), segment) {
                return i;
            }
            i += 1;
        }
        i
    }

    /// Adds the route whose pattern has the segments of `pattern` from
    /// `from` on.
    fn insert_segments(&mut self, pattern: &Vec<String>, from: usize, handler: H)
        requires
            from <= pattern@.len(),
        ensures
            final(self)@ == old(self)@.with_route(texts(pattern@), from as int, handler),
        decreases pattern@.len() - from,
    {
        let ghost tree = old(self)@;
        let ghost pat = texts(pattern@);
        assert(pat.len() == pattern@.len());
        if from >= pattern.len() {
            self.handler = Some(handler);
            assert(self@.children == tree.children);
            assert(self@.handler == Some(handler));
            assert(self@ == tree.with_route(pat, from as int, handler));
            assert(tree == old(self)@);
            assert(self@ == old(self)@.with_route(texts(pattern@), from as int, handler));
            return ;
        }
        assert(pat[from as int] == pattern@[from as int]@);
        let segment = chars_of(pattern[from].as_str());
        let n = segment.len();
        if n > 0 && segment[0] == '{' && segment[n - 1] == '}' {
            assert(segment@.first() == segment@[0] && segment@.last() == segment@[n - 1]);
            if self.dynamic_child.is_none() {
                self.dynamic_child = Some(Box::new(RouteNode::new()));
            }
            let name = string_of(vstd::slice::slice_subrange(segment.as_slice(), 1, n - 1));
            match &mut self.dynamic_child {
                Some(child) => {
                    let ghost unnamed = child@;
                    child.dynamic_id = Some(name);
                    assert(child@.children == unnamed.children);
                    assert(child@.dynamic_id == Some(name@));
                    child.insert_segments(pattern, from + 1, handler);
                },
                None => {},
            }
            assert(self@.children == tree.children);
        } else {
            assert(!is_capture(pat[from as int]));
            let at = self.child_position(pattern[from].as_str());
            proof {
                crate::list_map::lemma_key_index(tree.children, pat[from as int], 0);
            }
            if at >= self.children.len() {
                self.children.push((pattern[from].clone(), RouteNode::new()));
            }
            let ghost before = self.children@;
            self.children[at].1.insert_segments(pattern, from + 1, handler);
            assert(self.children@.len() == before.len());
            assert(forall|j: int| 0 <= j < before.len() && j != at ==> self.children@[j] == before[j]);
            assert(self.children@[at as int].0 == before[at as int].0);
            assert(self.children@[at as int].1@ == before[at as int].1@.with_route(
                pat,
                from + 1,
                handler,
            ));
            assert(self@.children == tree.with_route(pat, from as int, handler).children);
        }
    }

    /// Follows the segments of `path` from the root.
    fn find_segments<'a>(&'a self, path: &Vec<String>) -> (found: Option<(&'a H, TextMap)>)
        ensures
            match self@.lookup(texts(path@), 0, Seq::empty()) {
                Some(m) => found matches Some(f) && *f.0 == m.handler && f.1.listing() == m.params,
                None => found is None,
            },
    {
        let ghost segs = texts(path@);
        assert(segs.len() == path@.len());
        let mut current: &'a RouteNode<H> = self;
        let mut params = TextMap::new();
        let mut i: usize = 0;
        while i < path.len()
            invariant
                i <= path@.len(),
                segs == texts(path@),
                segs.len() == path@.len(),
                current@.lookup(segs, i as int, params.listing()) == self@.lookup(
                    segs,
                    0,
                    Seq::empty(),
                ),
            decreases path@.len() - i,
        {
            assert(segs[i as int] == path@[i as int]@);
            let at = current.child_position(path[i].as_str());
            if at < current.children.len() {
                assert(current@.children[at as int].1 == current.children@[at as int].1@);
                current = &current.children[at].1;
            } else {
                match &current.dynamic_child {
                    Some(child) => match &child.dynamic_id {
                        Some(name) => {
                            proof {
                                child.lemma_view();
                            }
                            assert(current@.dynamic_child->0.dynamic_id == Some(name@));
                            params.insert(name.clone(), path[i].clone());
                            current = child;
                        },
                        None => {
                            proof {
                                child.lemma_view();
                            }
                            assert(current@.dynamic_child->0.dynamic_id is None);
                            return None;
                        },
                    },
                    None => {
                        return None;
                    },
                }
            }
            i += 1;
        }
        match &current.handler {
            Some(handler) => Some((handler, params)),
            None => None,
        }
    }

    /// Looks a path up. The segments of the path are followed from the root;
    /// at each node the child for the literal segment is taken if there is
    /// one, else the capturing child, which binds the segment to its name.
    /// What follows a question mark in the last segment is the query.
    pub fn find<'a>(&'a self, path: &str) -> (found: Option<RouteHandlerPath<'a, H>>)
        requires
            well_formed_query(path@),
        ensures
            match self@.find(path@) {
                Some(route) => found matches Some(f) && *f.handler == route.handler
                    && f.params.listing() == route.params && f.queries.listing() == route.queries,
                None => found is None,
            },
    {
        match analyze_path(path) {
            Some((wanted, queries)) => match self.find_segments(&wanted) {
                Some((handler, params)) => Some(RouteHandlerPath { handler, params, queries }),
                None => None,
            },
            None => None,
        }
    }

    /// Registers a handler under a pattern. A segment in braces captures the
    /// segment of a path under the name between the braces. A handler that
    /// was registered under the same pattern is replaced.
    pub fn insert(&mut self, path: &str, handler: H)
        ensures
            final(self)@ == old(self)@.with_route(segments(path@), 0, handler),
    {
        let pattern = separate_path_segments(path);
        self.insert_segments(&pattern, 0, handler);
    }
}

} // verus!
