use crate::completable::{Completable, Incomplete};
use crate::computable::Computable;
use crate::generatable::Generatable;
use std::collections::HashSet;
use std::hash::Hash;
use vstd::prelude::*;

verus! {

broadcast use vstd::std_specs::hash::group_hash_axioms;

/// A collection capable of starting empty and folding in items one at a
/// time: the capability a [`Collector`] accumulates into.
///
/// An implementation describes itself through [`Accumulator::models`], which
/// says when a collection value holds exactly the items of a sequence, and
/// through [`Accumulator::folds`], which says what folding one item in may
/// do. An order-preserving collection models the sequence itself; a set-like
/// collection models it with duplicates collapsed.
pub trait Accumulator<ITEM>: Sized {
    /// Whether this collection holds exactly the items of `items`, folded in
    /// from the left in that order.
    spec fn models(&self, items: Seq<ITEM>) -> bool;

    /// What folding one item into a collection may do: relates the
    /// collection before to the collection after.
    spec fn folds(pre: Self, item: ITEM, post: Self) -> bool;

    /// Folding extends whatever a collection models by the folded item.
    proof fn folds_extend(pre: Self, item: ITEM, post: Self, items: Seq<ITEM>)
        requires
            Self::folds(pre, item, post),
            pre.models(items),
        ensures
            post.models(items.push(item)),
    ;

    /// The empty collection.
    fn empty() -> (r: Self)
        ensures
            r.models(Seq::empty()),
    ;

    /// Fold one item into the collection.
    fn fold_item(&mut self, item: ITEM)
        ensures
            Self::folds(*old(self), item, *final(self)),
    ;
}

impl<ITEM> Accumulator<ITEM> for Vec<ITEM> {
    open spec fn models(&self, items: Seq<ITEM>) -> bool {
        self@ == items
    }

    open spec fn folds(pre: Self, item: ITEM, post: Self) -> bool {
        post@ == pre@.push(item)
    }

    proof fn folds_extend(pre: Self, item: ITEM, post: Self, items: Seq<ITEM>) {
    }

    fn empty() -> (r: Self) {
        Vec::new()
    }

    fn fold_item(&mut self, item: ITEM) {
        self.push(item);
    }
}

/// What a sequence of items looks like with duplicates collapsed: the model
/// of a set-like accumulator.
pub open spec fn collapsed<ITEM>(items: Seq<ITEM>) -> Set<ITEM> {
    items.to_set()
}

impl<ITEM: Eq + Hash> Accumulator<ITEM> for HashSet<ITEM> {
    /// Meaningful under the standard hashing assumptions; see
    /// `vstd::std_specs::hash::obeys_key_model`.
    open spec fn models(&self, items: Seq<ITEM>) -> bool {
        vstd::std_specs::hash::obeys_key_model::<ITEM>() ==> self@ == collapsed(items)
    }

    open spec fn folds(pre: Self, item: ITEM, post: Self) -> bool {
        vstd::std_specs::hash::obeys_key_model::<ITEM>() ==> post@ == pre@.insert(item)
    }

    proof fn folds_extend(pre: Self, item: ITEM, post: Self, items: Seq<ITEM>) {
        if vstd::std_specs::hash::obeys_key_model::<ITEM>() {
            assert(collapsed(items.push(item)) =~= collapsed(items).insert(item)) by {
                assert forall|x: ITEM| #[trigger] items.push(item).contains(x)
                    <==> (items.contains(x) || x == item) by {
                    if items.push(item).contains(x) {
                        let i = choose|i: int|
                            0 <= i < items.push(item).len() && items.push(item)[i] == x;
                        if i < items.len() {
                            assert(items[i] == x);
                        }
                    }
                    if items.contains(x) {
                        let i = choose|i: int| 0 <= i < items.len() && items[i] == x;
                        assert(items.push(item)[i] == x);
                    }
                    if x == item {
                        assert(items.push(item)[items.len() as int] == x);
                    }
                }
            }
        }
    }

    fn empty() -> (r: Self) {
        let r = HashSet::new();
        proof {
            assert(Seq::<ITEM>::empty().to_set() =~= Set::<ITEM>::empty());
        }
        r
    }

    fn fold_item(&mut self, item: ITEM) {
        self.insert(item);
    }
}

/// A [`Computable`] that collects all items from a [`Generatable`] into a
/// collection.
///
/// Each poll pulls at most one item from the stream and folds it into the
/// owned accumulator, returning `Err(Incomplete::Suspended)`: one
/// accumulation per poll bounds the work done per call. A suspended stream
/// poll is propagated without touching the accumulator; a cancellation is
/// propagated and discards the partially built accumulator. Once the stream
/// signals termination, the accumulator is handed out exactly once as the
/// final value, and every later poll returns `Err(Incomplete::Exhausted)`.
pub struct Collector<ITEM, COLLECTION, G> where
    COLLECTION: Accumulator<ITEM>,
    G: Generatable<ITEM>,
 {
    /// The stream the items are pulled from.
    pub generator: G,
    /// The accumulator, until it has been handed out.
    pub collector: Option<COLLECTION>,
    /// Pins the item type; carries no value.
    pub item_marker: Ghost<Option<ITEM>>,
}

impl<ITEM, COLLECTION, G> Collector<ITEM, COLLECTION, G> where
    COLLECTION: Accumulator<ITEM>,
    G: Generatable<ITEM>,
 {
    /// Create a new collector for the given generator, with an empty
    /// accumulator.
    pub fn new(generator: G) -> (r: Self)
        ensures
            r.generator == generator,
            r.collector matches Some(acc) && acc.models(Seq::<ITEM>::empty()),
            r.item_marker@ == None::<ITEM>,
    {
        Collector { generator, collector: Some(COLLECTION::empty()), item_marker: Ghost(None) }
    }
}

impl<ITEM, COLLECTION, G> Computable<COLLECTION> for Collector<ITEM, COLLECTION, G> where
    COLLECTION: Accumulator<ITEM>,
    G: Generatable<ITEM>,
 {
    open spec fn poll_rel(pre: Self, r: Completable<COLLECTION>, post: Self) -> bool {
        &&& post.item_marker == pre.item_marker
        &&& exists|go: Option<Completable<ITEM>>|
            {
                &&& #[trigger] G::next_rel(pre.generator, go, post.generator)
                &&& match go {
                    None => match pre.collector {
                        Some(acc) => r == Ok::<COLLECTION, Incomplete>(acc) && post.collector
                            is None,
                        None => r == Err::<COLLECTION, Incomplete>(Incomplete::Exhausted)
                            && post.collector is None,
                    },
                    Some(Ok(item)) => match pre.collector {
                        Some(acc) => {
                            &&& r == Err::<COLLECTION, Incomplete>(Incomplete::Suspended)
                            &&& exists|acc2: COLLECTION|
                                #[trigger] COLLECTION::folds(acc, item, acc2) && post.collector
                                    == Some(acc2)
                        },
                        None => r == Err::<COLLECTION, Incomplete>(Incomplete::Exhausted)
                            && post.collector is None,
                    },
                    Some(Err(Incomplete::Cancelled(c))) => r == Err::<COLLECTION, Incomplete>(
                        Incomplete::Cancelled(c),
                    ) && post.collector is None,
                    Some(Err(e)) => r == Err::<COLLECTION, Incomplete>(e) && post.collector
                        == pre.collector,
                }
            }
    }

    fn try_compute(&mut self) -> (r: Completable<COLLECTION>) {
        let ghost pre: Self = *self;
        let go = self.generator.try_next();
        let ghost ggo: Option<Completable<ITEM>> = go;
        match go {
            None => {
                match self.collector.take() {
                    Some(acc) => {
                        let ghost gacc: COLLECTION = acc;
                        proof {
                            assert(G::next_rel(pre.generator, ggo, self.generator));
                            assert(Self::poll_rel(pre, Ok::<COLLECTION, Incomplete>(gacc), *self));
                        }
                        Ok(acc)
                    },
                    None => {
                        proof {
                            assert(G::next_rel(pre.generator, ggo, self.generator));
                            assert(Self::poll_rel(
                                pre,
                                Err::<COLLECTION, Incomplete>(Incomplete::Exhausted),
                                *self,
                            ));
                        }
                        Err(Incomplete::Exhausted)
                    },
                }
            },
            Some(Ok(item)) => {
                let ghost gitem: ITEM = item;
                if self.collector.is_some() {
                    let mut acc = self.collector.take().unwrap();
                    let ghost acc0: COLLECTION = acc;
                    acc.fold_item(item);
                    let ghost acc1: COLLECTION = acc;
                    self.collector = Some(acc);
                    proof {
                        assert(G::next_rel(pre.generator, ggo, self.generator));
                        assert(COLLECTION::folds(acc0, gitem, acc1));
                        assert(Self::poll_rel(
                            pre,
                            Err::<COLLECTION, Incomplete>(Incomplete::Suspended),
                            *self,
                        ));
                    }
                    Err(Incomplete::Suspended)
                } else {
                    proof {
                        assert(G::next_rel(pre.generator, ggo, self.generator));
                        assert(Self::poll_rel(
                            pre,
                            Err::<COLLECTION, Incomplete>(Incomplete::Exhausted),
                            *self,
                        ));
                    }
                    Err(Incomplete::Exhausted)
                }
            },
            Some(Err(Incomplete::Cancelled(c))) => {
                let ghost gc: cancel_this::Cancelled = c;
                self.collector = None;
                proof {
                    assert(G::next_rel(pre.generator, ggo, self.generator));
                    assert(Self::poll_rel(
                        pre,
                        Err::<COLLECTION, Incomplete>(Incomplete::Cancelled(gc)),
                        *self,
                    ));
                }
                Err(Incomplete::Cancelled(c))
            },
            Some(Err(e)) => {
                let ghost ge: Incomplete = e;
                proof {
                    assert(G::next_rel(pre.generator, ggo, self.generator));
                    assert(Self::poll_rel(pre, Err::<COLLECTION, Incomplete>(ge), *self));
                }
                Err(e)
            },
        }
    }
}

} // verus!
