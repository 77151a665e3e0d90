//! Session state and the per-layer key/value cache operations.
use std::collections::HashMap;
use vstd::prelude::*;

verus! {

broadcast use vstd::std_specs::hash::group_hash_axioms;

/// Element payload of a tensor. Floating-point elements are held as their
/// IEEE-754 bit patterns.
#[derive(Clone, Debug)]
pub enum TensorData {
    F32(Vec<u32>),
    U8(Vec<u8>),
}

/// A typed, shaped numeric buffer, carried through the protocol unread.
#[derive(Clone, Debug)]
pub struct Tensor {
    pub data: TensorData,
    pub shape: Vec<usize>,
}

/// A cached (key, value) tensor pair for one layer.
pub type LayerCache = (Tensor, Tensor);

/// Sampling configuration; temperatures and probabilities are held as the bit
/// patterns of `f64` values.
#[derive(Clone, Copy, Debug, PartialEq, Eq, Structural)]
pub enum Sampling {
    ArgMax,
    All { temperature: u64 },
    TopK { k: usize, temperature: u64 },
    TopP { p: u64, temperature: u64 },
    TopKThenTopP { k: usize, p: u64, temperature: u64 },
}

/// Sampling state: the configuration and an opaque random-number-generator
/// checkpoint.
#[derive(Clone, Debug)]
pub struct LogitProcessor {
    pub rng: String,
    pub sampling: Sampling,
}

/// Tokenization progress, carried intact across calls.
#[derive(Clone, Debug)]
pub struct TokenOutputStream {
    pub tokens: Vec<u32>,
    pub prev_index: usize,
    pub current_index: usize,
    pub prompt_index: usize,
    pub prompt: Vec<u32>,
}

/// Model of a `TokenOutputStream`.
pub struct TokenOutputStreamView {
    pub tokens: Seq<u32>,
    pub prev_index: usize,
    pub current_index: usize,
    pub prompt_index: usize,
    pub prompt: Seq<u32>,
}

impl View for TokenOutputStream {
    type V = TokenOutputStreamView;

    open spec fn view(&self) -> TokenOutputStreamView {
        TokenOutputStreamView {
            tokens: self.tokens@,
            prev_index: self.prev_index,
            current_index: self.current_index,
            prompt_index: self.prompt_index,
            prompt: self.prompt@,
        }
    }
}

impl TokenOutputStream {
    /// A copy of this stream.
    pub fn copy(&self) -> (r: TokenOutputStream)
        ensures
            r@ == self@,
    {
        TokenOutputStream {
            tokens: self.tokens.clone(),
            prev_index: self.prev_index,
            current_index: self.current_index,
            prompt_index: self.prompt_index,
            prompt: self.prompt.clone(),
        }
    }
}

impl LogitProcessor {
    /// A copy of this state.
    pub fn copy(&self) -> (r: LogitProcessor)
        ensures
            r == *self,
    {
        LogitProcessor { rng: self.rng.clone(), sampling: self.sampling }
    }
}

/// The unit of state threaded through the whole protocol.
#[derive(Clone, Debug)]
pub struct PromptSession {
    pub logit_processor: LogitProcessor,
    pub tos: TokenOutputStream,
    pub k_v_caches: HashMap<usize, LayerCache>,
}

/// Model of a `PromptSession`: its cache as a map from layer to tensor pair.
pub struct PromptSessionView {
    pub logit_processor: LogitProcessor,
    pub tos: TokenOutputStreamView,
    pub cache: Map<usize, LayerCache>,
}

impl PromptSession {
    /// A copy of this session, cache included.
    pub fn copy(&self) -> (r: PromptSession)
        ensures
            r@ == self@,
    {
        PromptSession {
            logit_processor: self.logit_processor.copy(),
            tos: self.tos.copy(),
            k_v_caches: self.k_v_caches.clone(),
        }
    }
}

impl View for PromptSession {
    type V = PromptSessionView;

    open spec fn view(&self) -> PromptSessionView {
        PromptSessionView {
            logit_processor: self.logit_processor,
            tos: self.tos@,
            cache: self.k_v_caches@,
        }
    }
}

/// Where a chunk of forward computation stands.
#[derive(Clone, Copy, Debug, PartialEq, Eq, Structural)]
pub enum ModelRunState {
    Steps(usize),
    Finish,
    Finished,
}

/// One chunk of forward computation.
#[derive(Clone, Debug)]
pub struct ModelRun {
    pub index_pos: usize,
    pub layer_in: Tensor,
    pub mask: Option<Tensor>,
    pub seq_len: usize,
    pub state: ModelRunState,
}

/// Whether `layer` lies in the half-open window `[start, start + width)`.
pub open spec fn in_window(layer: usize, start: usize, width: nat) -> bool {
    start <= layer < start + width
}

/// The entries of `cache` that a call on a run in `state` needs, for chunks of
/// `width` layers.
pub open spec fn reduced_cache(
    cache: Map<usize, LayerCache>,
    state: ModelRunState,
    width: nat,
) -> Map<usize, LayerCache> {
    match state {
        ModelRunState::Steps(start) => cache.restrict(Set::new(|l: usize| in_window(l, start, width))),
        _ => Map::empty(),
    }
}

/// The session with its cache replaced by `cache`.
pub open spec fn with_cache(s: PromptSessionView, cache: Map<usize, LayerCache>) -> PromptSessionView {
    PromptSessionView { cache, ..s }
}

/// The cache of `base` overwritten, layer by layer, by that of `update`; all
/// other fields from `base`.
pub open spec fn merged(base: PromptSessionView, update: PromptSessionView) -> PromptSessionView {
    with_cache(base, base.cache.union_prefer_right(update.cache))
}

/// Returns a copy of `session` whose cache holds only the layers that the next
/// call on `run`, in chunks of `steps_n` layers, needs.
pub fn get_reduced_session(session: &PromptSession, run: &ModelRun, steps_n: u8) -> (r: PromptSession)
    ensures
        r@ == with_cache(session@, reduced_cache(session@.cache, run.state, steps_n as nat)),
{
    let mut full = session.k_v_caches.clone();
    let mut kept: HashMap<usize, LayerCache> = HashMap::new();
    match run.state {
        ModelRunState::Steps(current_step) => {
            let ghost window = Set::new(|l: usize| in_window(l, current_step, steps_n as nat));
            let mut i: u8 = 0;
            while i < steps_n
                invariant
                    i <= steps_n,
                    full@ == session@.cache.remove_keys(
                        Set::new(|l: usize| in_window(l, current_step, i as nat)),
                    ),
                    kept@ == session@.cache.restrict(
                        Set::new(|l: usize| in_window(l, current_step, i as nat)),
                    ),
                decreases steps_n - i,
            {
                let ghost before = Set::new(|l: usize| in_window(l, current_step, i as nat));
                let ghost after = Set::new(|l: usize| in_window(l, current_step, (i + 1) as nat));
                if i as usize <= usize::MAX - current_step {
                    let layer = current_step + i as usize;
                    assert(after == before.insert(layer));
                    match full.remove(&layer) {
                        Some(entry) => {
                            kept.insert(layer, entry);
                        },
                        None => {},
                    }
                    assert(full@ =~= session@.cache.remove_keys(after));
                    assert(kept@ =~= session@.cache.restrict(after));
                } else {
                    assert(after =~= before);
                }
                i = i + 1;
            }
            assert(kept@ =~= session@.cache.restrict(window));
        },
        _ => {},
    }
    PromptSession {
        logit_processor: session.logit_processor.copy(),
        tos: session.tos.copy(),
        k_v_caches: kept,
    }
}

/// The elements among the first `n` of `s`.
pub open spec fn prefix_set(s: Seq<usize>, n: int) -> Set<usize> {
    Set::new(|l: usize| exists|j: int| 0 <= j < n && s[j] == l)
}

/// Returns a copy of `session` with an empty cache.
pub fn get_simple_session(session: &PromptSession) -> (r: PromptSession)
    ensures
        r@ == with_cache(session@, Map::empty()),
{
    PromptSession {
        logit_processor: session.logit_processor.copy(),
        tos: session.tos.copy(),
        k_v_caches: HashMap::new(),
    }
}

/// Folds the cache of `update` into `base`: a layer present in `update` takes
/// its value from there, every other field comes from `base`.
pub fn update_session(base: PromptSession, update: PromptSession) -> (r: PromptSession)
    ensures
        r@ == merged(base@, update@),
{
    let mut layers: Vec<usize> = Vec::new();
    for layer in it: update.k_v_caches.keys()
        invariant
            forall|j: int| 0 <= j < layers.len() ==> update@.cache.contains_key(#[trigger] layers@[j]),
            layers@.len() == it.index(),
            forall|j: int| 0 <= j < it.index() ==> layers@[j] == *it.seq()[j],
    {
        layers.push(*layer);
    }
    let ghost all = layers@.to_set();
    assert(all =~= update@.cache.dom());
    let mut base = base;
    let mut update = update;
    let ghost base0 = base@;
    let ghost update0 = update@.cache;
    assert(update0.restrict(prefix_set(layers@, 0)) =~= Map::empty());
    assert(base0.cache.union_prefer_right(Map::empty()) =~= base0.cache);
    assert(update0.remove_keys(prefix_set(layers@, 0)) =~= update0);
    let mut i: usize = 0;
    while i < layers.len()
        invariant
            i <= layers.len(),
            layers@.to_set() == update0.dom(),
            base@ == with_cache(
                base0,
                base0.cache.union_prefer_right(update0.restrict(prefix_set(layers@, i as int))),
            ),
            update@.cache == update0.remove_keys(prefix_set(layers@, i as int)),
        decreases layers.len() - i,
    {
        let layer = layers[i];
        let ghost done = prefix_set(layers@, i as int);
        let ghost done2 = prefix_set(layers@, i + 1);
        assert(done2 =~= done.insert(layer)) by {
            assert(layers@[i as int] == layer);
        }
        match update.k_v_caches.remove(&layer) {
            Some(entry) => {
                base.k_v_caches.insert(layer, entry);
            },
            None => {},
        }
        assert(update@.cache =~= update0.remove_keys(done2));
        assert(base@.cache =~= base0.cache.union_prefer_right(update0.restrict(done2)));
        i = i + 1;
    }
    assert(prefix_set(layers@, layers.len() as int) =~= update0.dom()) by {
        assert forall|l: usize| update0.dom().contains(l) implies prefix_set(
            layers@,
            layers.len() as int,
        ).contains(l) by {
            assert(layers@.to_set().contains(l));
        }
    }
    assert(update0.restrict(update0.dom()) =~= update0);
    base
}

} // verus!
