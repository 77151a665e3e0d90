use deai_client::session::{
    get_reduced_session, get_simple_session, update_session, LogitProcessor, ModelRun,
    ModelRunState, PromptSession, Sampling, Tensor, TensorData, TokenOutputStream,
};
use std::collections::HashMap;

fn tensor(tag: u8) -> Tensor {
    Tensor { data: TensorData::U8(vec![tag]), shape: vec![1] }
}

fn tag_of(t: &Tensor) -> u8 {
    match &t.data {
        TensorData::U8(v) => v[0],
        TensorData::F32(_) => panic!("unexpected element type"),
    }
}

fn session(layers: &[(usize, u8)], rng: &str) -> PromptSession {
    let mut k_v_caches = HashMap::new();
    for (layer, tag) in layers {
        k_v_caches.insert(*layer, (tensor(*tag), tensor(tag.wrapping_add(100))));
    }
    PromptSession {
        logit_processor: LogitProcessor {
            rng: rng.to_string(),
            sampling: Sampling::TopK { k: 40, temperature: 0.7f64.to_bits() },
        },
        tos: TokenOutputStream {
            tokens: vec![1, 2, 3],
            prev_index: 1,
            current_index: 2,
            prompt_index: 3,
            prompt: vec![7, 8],
        },
        k_v_caches,
    }
}

fn run(state: ModelRunState) -> ModelRun {
    ModelRun { index_pos: 0, layer_in: tensor(0), mask: None, seq_len: 1, state }
}

fn sorted_layers(s: &PromptSession) -> Vec<(usize, u8)> {
    let mut v: Vec<(usize, u8)> = s.k_v_caches.iter().map(|(k, (t, _))| (*k, tag_of(t))).collect();
    v.sort();
    v
}

fn same_fields(a: &PromptSession, b: &PromptSession) -> bool {
    a.logit_processor.rng == b.logit_processor.rng
        && a.logit_processor.sampling == b.logit_processor.sampling
        && a.tos.tokens == b.tos.tokens
        && a.tos.prev_index == b.tos.prev_index
        && a.tos.current_index == b.tos.current_index
        && a.tos.prompt_index == b.tos.prompt_index
        && a.tos.prompt == b.tos.prompt
}

#[test]
fn reduce_keeps_exactly_the_window() {
    let s = session(&[(0, 10), (3, 13), (4, 14), (8, 18), (12, 22), (13, 23)], "seed");
    let r = get_reduced_session(&s, &run(ModelRunState::Steps(3)), 10);
    assert_eq!(sorted_layers(&r), vec![(3, 13), (4, 14), (8, 18), (12, 22)]);
    assert!(same_fields(&r, &s));
    assert_eq!(s.k_v_caches.len(), 6);
}

#[test]
fn reduce_with_empty_window_is_empty() {
    let s = session(&[(0, 10), (1, 11)], "seed");
    let r = get_reduced_session(&s, &run(ModelRunState::Steps(0)), 0);
    assert!(r.k_v_caches.is_empty());
}

#[test]
fn reduce_window_at_the_top_of_the_index_range() {
    let top = usize::MAX;
    let s = session(&[(top - 1, 1), (top, 2), (top - 5, 3)], "seed");
    let r = get_reduced_session(&s, &run(ModelRunState::Steps(top - 1)), 5);
    assert_eq!(sorted_layers(&r), vec![(top - 1, 1), (top, 2)]);
}

#[test]
fn reduce_of_finishing_run_is_empty() {
    let s = session(&[(0, 10), (1, 11), (2, 12)], "seed");
    let r = get_reduced_session(&s, &run(ModelRunState::Finish), 10);
    assert!(r.k_v_caches.is_empty());
    assert!(same_fields(&r, &s));
    let r = get_reduced_session(&s, &run(ModelRunState::Finished), 5);
    assert!(r.k_v_caches.is_empty());
}

#[test]
fn strip_empties_the_cache_only() {
    let s = session(&[(0, 10), (5, 15)], "checkpoint");
    let r = get_simple_session(&s);
    assert!(r.k_v_caches.is_empty());
    assert!(same_fields(&r, &s));
    assert_eq!(s.k_v_caches.len(), 2);
}

#[test]
fn merge_overwrites_and_keeps_layers() {
    let a = session(&[(0, 10), (1, 11), (2, 12)], "base");
    let b = session(&[(2, 42), (3, 43)], "update");
    let m = update_session(a.clone(), b);
    assert_eq!(sorted_layers(&m), vec![(0, 10), (1, 11), (2, 42), (3, 43)]);
    assert!(same_fields(&m, &a));
    assert_eq!(m.logit_processor.rng, "base");
}

#[test]
fn merge_twice_is_merge_once() {
    let a = session(&[(0, 10), (1, 11)], "base");
    let b = session(&[(1, 21), (7, 27)], "update");
    let once = update_session(a.clone(), b.clone());
    let twice = update_session(once.clone(), b);
    assert_eq!(sorted_layers(&once), sorted_layers(&twice));
    assert!(same_fields(&once, &twice));
}

#[test]
fn merge_with_empty_update_is_base() {
    let a = session(&[(4, 14)], "base");
    let b = session(&[], "update");
    let m = update_session(a.clone(), b);
    assert_eq!(sorted_layers(&m), vec![(4, 14)]);
}
