//! The extension protocol: a capability that transforms a registry by
//! appending its own callbacks.
//!
//! Extensions compose by plain functional application. Each receives a
//! registry that already holds the callbacks of the extensions applied
//! before it, may only append, and returns the augmented registry; so the
//! order of application fixes the relative dispatch order of different
//! extensions' callbacks for the same kind.

use crate::client::handler::{CallbackId, EventHandler, EventKind};
use vstd::prelude::*;

verus! {

/// `post` holds everything `pre` holds, in the same order, with this
/// extension's own callbacks appended: for every kind and every
/// unknown-event tag, `pre`'s list is a prefix of `post`'s.
pub open spec fn extends(post: EventHandler, pre: EventHandler) -> bool {
    &&& forall|k: EventKind| #[trigger] pre.callbacks(k).is_prefix_of(post.callbacks(k))
    &&& forall|t: Seq<char>| #[trigger] pre.tag_view(t).is_prefix_of(post.tag_view(t))
}

/// The callbacks that stepping from `pre` to `post` appended under kind `k`.
pub open spec fn added(post: EventHandler, pre: EventHandler, k: EventKind) -> Seq<CallbackId> {
    post.callbacks(k).skip(pre.callbacks(k).len() as int)
}

/// The callbacks that stepping from `pre` to `post` appended under the
/// unknown-event tag `t`.
pub open spec fn added_tag(post: EventHandler, pre: EventHandler, t: Seq<char>) -> Seq<
    CallbackId,
> {
    post.tag_view(t).skip(pre.tag_view(t).len() as int)
}

/// A component that contributes callbacks to a registry. Implementors take
/// the registry by value, append their own callbacks through the
/// registration methods, and return it; they cannot observe or remove what
/// earlier extensions registered.
pub trait Extension {
    /// Return `event_handler` with this extension's callbacks appended.
    fn event_handler(&self, event_handler: EventHandler) -> (r: EventHandler)
        ensures
            extends(r, event_handler),
    ;
}

/// Applying two extensions in order concatenates their contributions: when
/// `mid` extends `base` and `end` extends `mid`, `end` extends `base`, and
/// for every kind `k` and tag `t` the final list is the base list, then what
/// the first step appended, then what the second step appended, in that
/// order. On an empty base the list is exactly the two contributions, one
/// after the other.
pub proof fn lemma_extension_composition(
    base: EventHandler,
    mid: EventHandler,
    end: EventHandler,
    k: EventKind,
    t: Seq<char>,
)
    requires
        extends(mid, base),
        extends(end, mid),
    ensures
        extends(end, base),
        end.callbacks(k) == base.callbacks(k) + added(mid, base, k) + added(end, mid, k),
        end.tag_view(t) == base.tag_view(t) + added_tag(mid, base, t) + added_tag(end, mid, t),
        base.is_empty() ==> end.callbacks(k) == added(mid, base, k) + added(end, mid, k),
        base.is_empty() ==> end.tag_view(t) == added_tag(mid, base, t) + added_tag(end, mid, t),
{
    assert forall|k2: EventKind| #[trigger]
        base.callbacks(k2).is_prefix_of(end.callbacks(k2)) by {
        lemma_prefix_trans(base.callbacks(k2), mid.callbacks(k2), end.callbacks(k2));
    }
    assert forall|t2: Seq<char>| #[trigger] base.tag_view(t2).is_prefix_of(end.tag_view(t2)) by {
        lemma_prefix_trans(base.tag_view(t2), mid.tag_view(t2), end.tag_view(t2));
    }
    lemma_prefix_split(base.callbacks(k), mid.callbacks(k));
    lemma_prefix_split(mid.callbacks(k), end.callbacks(k));
    assert((base.callbacks(k) + added(mid, base, k)) + added(end, mid, k) =~= base.callbacks(k)
        + added(mid, base, k) + added(end, mid, k));
    lemma_prefix_split(base.tag_view(t), mid.tag_view(t));
    lemma_prefix_split(mid.tag_view(t), end.tag_view(t));
    assert((base.tag_view(t) + added_tag(mid, base, t)) + added_tag(end, mid, t) =~= base.tag_view(
        t,
    ) + added_tag(mid, base, t) + added_tag(end, mid, t));
    if base.is_empty() {
        assert(base.callbacks(k) + added(mid, base, k) =~= added(mid, base, k));
        assert(base.tag_view(t) + added_tag(mid, base, t) =~= added_tag(mid, base, t));
    }
}

/// Prefixes compose: a prefix of a prefix is a prefix.
proof fn lemma_prefix_trans(a: Seq<CallbackId>, b: Seq<CallbackId>, c: Seq<CallbackId>)
    requires
        a.is_prefix_of(b),
        b.is_prefix_of(c),
    ensures
        a.is_prefix_of(c),
{
    assert forall|i: int| 0 <= i < a.len() implies a[i] == c.subrange(0, a.len() as int)[i] by {
        assert(a[i] == b.subrange(0, a.len() as int)[i]);
        assert(b[i] == c.subrange(0, b.len() as int)[i]);
    }
    assert(a =~= c.subrange(0, a.len() as int));
}

/// A sequence with a prefix is that prefix followed by the rest.
proof fn lemma_prefix_split(a: Seq<CallbackId>, b: Seq<CallbackId>)
    requires
        a.is_prefix_of(b),
    ensures
        b == a + b.skip(a.len() as int),
{
    assert(b =~= a + b.skip(a.len() as int));
}

} // verus!
