//! Properties of the cache operations, stated over their models and proved.
use crate::session::{
    merged, reduced_cache, with_cache, LayerCache, ModelRunState, PromptSessionView,
};
use vstd::prelude::*;

verus! {

/// A reduced cache for a run at layer `start` holds exactly the layers of the
/// session's cache in `[start, start + width)`, with their values.
pub proof fn lemma_reduced_holds_window(
    cache: Map<usize, LayerCache>,
    start: usize,
    width: nat,
)
    ensures
        forall|l: usize|
            #[trigger] reduced_cache(cache, ModelRunState::Steps(start), width).contains_key(l)
                <==> (cache.contains_key(l) && start <= l < start + width),
        forall|l: usize|
            #[trigger] reduced_cache(cache, ModelRunState::Steps(start), width).contains_key(l)
                ==> reduced_cache(cache, ModelRunState::Steps(start), width)[l] == cache[l],
{
}

/// A run that is finishing, or finished, needs no cached layer.
pub proof fn lemma_reduced_empty_when_finishing(
    cache: Map<usize, LayerCache>,
    state: ModelRunState,
    width: nat,
)
    requires
        state is Finish || state is Finished,
    ensures
        reduced_cache(cache, state, width) == Map::<usize, LayerCache>::empty(),
{
}

/// Merging the same update a second time changes nothing.
pub proof fn lemma_merge_idempotent(a: PromptSessionView, b: PromptSessionView)
    ensures
        merged(merged(a, b), b) == merged(a, b),
{
    assert(merged(merged(a, b), b).cache =~= merged(a, b).cache);
}

/// A merge keeps every layer of either side: the update's value where the
/// update has the layer, the base's value otherwise.
pub proof fn lemma_merge_keeps_layers(a: PromptSessionView, b: PromptSessionView)
    ensures
        forall|l: usize|
            #[trigger] merged(a, b).cache.contains_key(l) <==> (a.cache.contains_key(l)
                || b.cache.contains_key(l)),
        forall|l: usize| b.cache.contains_key(l) ==> #[trigger] merged(a, b).cache[l] == b.cache[l],
        forall|l: usize|
            a.cache.contains_key(l) && !b.cache.contains_key(l) ==> #[trigger] merged(a, b).cache[l]
                == a.cache[l],
        merged(a, b).logit_processor == a.logit_processor,
        merged(a, b).tos == a.tos,
{
}

/// The caches of `updates` folded in order, a later one overwriting an
/// earlier one layer by layer.
pub open spec fn overwrite_all(updates: Seq<PromptSessionView>) -> Map<usize, LayerCache>
    decreases updates.len(),
{
    if updates.len() == 0 {
        Map::empty()
    } else {
        overwrite_all(updates.drop_last()).union_prefer_right(updates.last().cache)
    }
}

/// The session that the forward loop holds after merging `updates`, one per
/// forward call, into `base`.
pub open spec fn merge_each(base: PromptSessionView, updates: Seq<PromptSessionView>) -> PromptSessionView
    decreases updates.len(),
{
    if updates.len() == 0 {
        base
    } else {
        merged(merge_each(base, updates.drop_last()), updates.last())
    }
}

/// However many forward calls a chunk takes, the session it ends with is the
/// starting session whose cache is overwritten by the union, later over
/// earlier, of every call's returned cache.
pub proof fn lemma_forward_accumulates(base: PromptSessionView, updates: Seq<PromptSessionView>)
    ensures
        merge_each(base, updates) == with_cache(
            base,
            base.cache.union_prefer_right(overwrite_all(updates)),
        ),
    decreases updates.len(),
{
    if updates.len() == 0 {
        assert(base.cache.union_prefer_right(Map::empty()) =~= base.cache);
    } else {
        lemma_forward_accumulates(base, updates.drop_last());
        let prev = overwrite_all(updates.drop_last());
        assert(base.cache.union_prefer_right(prev).union_prefer_right(updates.last().cache)
            =~= base.cache.union_prefer_right(prev.union_prefer_right(updates.last().cache)));
    }
}

} // verus!
