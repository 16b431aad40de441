//! What holds of every route tree: a route without captures is always found
//! by its own path, whatever else is registered.

use crate::list_map::{key_index, lemma_key_index, lemma_key_index_is};
use crate::router::tree::{is_capture, FoundRoute, RouteMatch, RouteTree};
use crate::text::{find_from, segments};
use vstd::prelude::*;

verus! {

/// Whether none of the segments of a pattern from `from` on captures.
pub open spec fn all_literal(pattern: Seq<Seq<char>>, from: int) -> bool {
    forall|i: int| from <= i < pattern.len() ==> !is_capture(#[trigger] pattern[i])
}

impl<H> RouteTree<H> {
    /// The handler that the segments of a path from `from` on lead to by
    /// literal children alone.
    pub open spec fn literal_handler(self, path: Seq<Seq<char>>, from: int) -> Option<H>
        decreases path.len() - from,
    {
        if from < 0 || from >= path.len() {
            self.handler
        } else {
            let at = key_index(self.children, path[from], 0);
            if at < self.children.len() {
                self.children[at].1.literal_handler(path, from + 1)
            } else {
                None
            }
        }
    }
}

/// The empty tree has no handler on any path.
pub proof fn lemma_empty_tree_finds_nothing<H>(path: Seq<Seq<char>>, from: int, params: Seq<(Seq<char>, Seq<char>)>)
    ensures
        RouteTree::<H>::empty().lookup(path, from, params) is None,
        RouteTree::<H>::empty().literal_handler(path, from) is None,
{
}

/// No path finds anything in the empty tree.
pub proof fn lemma_empty_tree_matches_no_path<H>(path: Seq<char>)
    ensures
        RouteTree::<H>::empty().find(path) is None,
{
    lemma_empty_tree_finds_nothing::<H>(crate::router::tree::route_segments(path), 0, Seq::empty());
}

/// Literal precedence: where literal children alone lead to a handler, the
/// lookup finds that handler and binds nothing, whatever capturing children
/// there are on the way.
pub proof fn lemma_literal_wins<H>(
    tree: RouteTree<H>,
    path: Seq<Seq<char>>,
    from: int,
    params: Seq<(Seq<char>, Seq<char>)>,
)
    requires
        0 <= from <= path.len(),
        tree.literal_handler(path, from) is Some,
    ensures
        tree.lookup(path, from, params) == Some(
            RouteMatch { handler: tree.literal_handler(path, from)->0, params },
        ),
    decreases path.len() - from,
{
    if from < path.len() {
        let at = key_index(tree.children, path[from], 0);
        lemma_key_index(tree.children, path[from], 0);
        lemma_literal_wins(tree.children[at].1, path, from + 1, params);
    }
}

/// After a route without captures was registered, literal children alone
/// lead to its handler.
pub proof fn lemma_registered_literal_is_reached<H>(
    tree: RouteTree<H>,
    pattern: Seq<Seq<char>>,
    from: int,
    handler: H,
)
    requires
        0 <= from <= pattern.len(),
        all_literal(pattern, from),
    ensures
        tree.with_route(pattern, from, handler).literal_handler(pattern, from) == Some(handler),
    decreases pattern.len() - from,
{
    if from < pattern.len() {
        let key = pattern[from];
        assert(!is_capture(key));
        let at = key_index(tree.children, key, 0);
        lemma_key_index(tree.children, key, 0);
        let below = if at < tree.children.len() {
            tree.children[at].1
        } else {
            RouteTree::empty()
        };
        let after = tree.with_route(pattern, from, handler);
        let child = (key, below.with_route(pattern, from + 1, handler));
        assert forall|j: int| 0 <= j < at implies (#[trigger] after.children[j]).0 != key by {
            assert(tree.children[j].0 != key);
        }
        lemma_key_index_is(after.children, key, 0, at);
        assert(after.children[at] == child);
        lemma_registered_literal_is_reached(below, pattern, from + 1, handler);
    }
}

/// A route without captures is found by its own path, with nothing bound,
/// whatever the tree held before.
pub proof fn lemma_literal_route_is_found<H>(
    tree: RouteTree<H>,
    pattern: Seq<Seq<char>>,
    handler: H,
    params: Seq<(Seq<char>, Seq<char>)>,
)
    requires
        all_literal(pattern, 0),
    ensures
        tree.with_route(pattern, 0, handler).lookup(pattern, 0, params) == Some(
            RouteMatch { handler, params },
        ),
{
    lemma_registered_literal_is_reached(tree, pattern, 0, handler);
    lemma_literal_wins(tree.with_route(pattern, 0, handler), pattern, 0, params);
}

/// Registering a route changes nothing of what literal children alone lead
/// to on the paths that differ from its pattern.
pub proof fn lemma_other_route_keeps_literal<H>(
    tree: RouteTree<H>,
    path: Seq<Seq<char>>,
    other: Seq<Seq<char>>,
    from: int,
    handler: H,
)
    requires
        0 <= from <= path.len(),
        from <= other.len(),
        path.subrange(from, path.len() as int) != other.subrange(from, other.len() as int),
    ensures
        tree.with_route(other, from, handler).literal_handler(path, from) == tree.literal_handler(
            path,
            from,
        ),
    decreases path.len() - from,
{
    let after = tree.with_route(other, from, handler);
    if from >= path.len() {
        if from >= other.len() {
            assert(path.subrange(from, path.len() as int) =~= other.subrange(
                from,
                other.len() as int,
            ));
        }
    } else if from < other.len() && !is_capture(other[from]) {
        let key = path[from];
        let at = key_index(tree.children, other[from], 0);
        let k = key_index(tree.children, key, 0);
        lemma_key_index(tree.children, other[from], 0);
        lemma_key_index(tree.children, key, 0);
        let below = if at < tree.children.len() {
            tree.children[at].1
        } else {
            RouteTree::empty()
        };
        let child = (other[from], below.with_route(other, from + 1, handler));
        if other[from] == key {
            assert(at == k);
            assert forall|j: int| 0 <= j < at implies (#[trigger] after.children[j]).0 != key by {
                assert(tree.children[j].0 != key);
            }
            lemma_key_index_is(after.children, key, 0, at);
            assert(after.children[at] == child);
            assert(path.subrange(from + 1, path.len() as int) != other.subrange(
                from + 1,
                other.len() as int,
            )) by {
                if path.subrange(from + 1, path.len() as int) == other.subrange(
                    from + 1,
                    other.len() as int,
                ) {
                    let a = path.subrange(from, path.len() as int);
                    let b = other.subrange(from, other.len() as int);
                    assert(path.subrange(from + 1, path.len() as int).len() == path.len() - from - 1);
                    assert(other.subrange(from + 1, other.len() as int).len() == other.len() - from
                        - 1);
                    assert(a.len() == b.len());
                    assert forall|i: int| 0 <= i < a.len() implies a[i] == b[i] by {
                        if i > 0 {
                            assert(a[i] == path.subrange(from + 1, path.len() as int)[i - 1]);
                            assert(b[i] == other.subrange(from + 1, other.len() as int)[i - 1]);
                        }
                    }
                    assert(a =~= b);
                }
            }
            lemma_other_route_keeps_literal(below, path, other, from + 1, handler);
            if at >= tree.children.len() {
                lemma_empty_tree_finds_nothing::<H>(path, from + 1, Seq::empty());
            }
        } else {
            if k < tree.children.len() {
                assert forall|j: int| 0 <= j < k implies (#[trigger] after.children[j]).0 != key by {
                    assert(tree.children[j].0 != key);
                }
                assert(after.children[k] == tree.children[k]);
                lemma_key_index_is(after.children, key, 0, k);
            } else {
                assert forall|j: int| 0 <= j < after.children.len() implies (
                #[trigger] after.children[j]).0 != key by {
                    if j < tree.children.len() && j != at {
                        assert(tree.children[j].0 != key);
                    }
                }
                lemma_key_index_is(after.children, key, 0, after.children.len() as int);
            }
        }
    }
}

/// A route without captures stays found by its own path, with nothing
/// bound, when another route is registered after it.
pub proof fn lemma_literal_route_survives<H>(
    tree: RouteTree<H>,
    pattern: Seq<Seq<char>>,
    handler: H,
    other: Seq<Seq<char>>,
    later: H,
    params: Seq<(Seq<char>, Seq<char>)>,
)
    requires
        all_literal(pattern, 0),
        other != pattern,
    ensures
        tree.with_route(pattern, 0, handler).with_route(other, 0, later).lookup(pattern, 0, params)
            == Some(RouteMatch { handler, params }),
{
    let first = tree.with_route(pattern, 0, handler);
    lemma_registered_literal_is_reached(tree, pattern, 0, handler);
    assert(pattern.subrange(0, pattern.len() as int) == pattern);
    assert(other.subrange(0, other.len() as int) == other);
    lemma_other_route_keeps_literal(first, pattern, other, 0, later);
    lemma_literal_wins(first.with_route(other, 0, later), pattern, 0, params);
}

/// Whether a path has a question mark in its last segment.
pub open spec fn has_question_mark(path: Seq<char>) -> bool {
    segments(path).len() > 0 && find_from(segments(path).last(), '?', 0) < segments(path).last().len()
}

/// A handler that is registered under a pattern without captures and
/// without a question mark is what the lookup of the pattern itself finds,
/// with nothing bound, whatever else the tree holds and whatever is
/// registered after it under another pattern.
pub proof fn lemma_registered_path_is_found<H>(
    tree: RouteTree<H>,
    path: Seq<char>,
    handler: H,
    other: Seq<char>,
    later: H,
)
    requires
        all_literal(segments(path), 0),
        !has_question_mark(path),
        segments(other) != segments(path),
    ensures
        tree.with_route(segments(path), 0, handler).find(path) == Some(
            FoundRoute { handler, params: Seq::empty(), queries: Seq::empty() },
        ),
        tree.with_route(segments(path), 0, handler).with_route(segments(other), 0, later).find(path)
            == Some(FoundRoute { handler, params: Seq::empty(), queries: Seq::empty() }),
{
    lemma_literal_route_is_found(tree, segments(path), handler, Seq::empty());
    lemma_literal_route_survives(tree, segments(path), handler, segments(other), later, Seq::empty());
}

} // verus!
