use gguf_engine::error::EngineError;
use gguf_engine::generation::{BatchItem, FinishReason, Generation};
use gguf_engine::output::finalize_output;
use gguf_engine::sizing::kv_cache_size;

#[test]
fn kv_cache_budget_formula() {
    assert_eq!(kv_cache_size(4096, 512), 4096 + 512);
    assert_eq!(kv_cache_size(4096, 0), 4096);
    assert_eq!(kv_cache_size(100, 50), 4096);
    assert_eq!(kv_cache_size(0, 0), 4096);
    assert_eq!(kv_cache_size(u32::MAX, u32::MAX), 2 * (u32::MAX as u64));
}

#[test]
fn prompt_too_long_is_rejected() {
    let r = Generation::new(vec![1, 2, 3, 4, 5], 4, 16, 8192);
    match r {
        Err(EngineError::PromptTooLong { token_count, limit }) => {
            assert_eq!(token_count, 5);
            assert_eq!(limit, 4);
        }
        _ => panic!("expected PromptTooLong"),
    }
}

#[test]
fn prompt_at_limit_is_accepted() {
    let r = Generation::new(vec![1, 2, 3, 4], 4, 16, 8192);
    assert!(r.is_ok());
}

#[test]
fn single_batch_prefill_marks_only_last_token() {
    let mut g = Generation::new(vec![11, 22, 33], 4096, 8, 8192).unwrap();
    assert!(g.is_prefilling());
    let chunk = g.next_prefill_chunk();
    assert_eq!(chunk.len(), 3);
    assert_eq!(chunk[0], BatchItem { token: 11, pos: 0, wants_logits: false });
    assert_eq!(chunk[1], BatchItem { token: 22, pos: 1, wants_logits: false });
    assert_eq!(chunk[2], BatchItem { token: 33, pos: 2, wants_logits: true });
    assert!(!g.is_prefilling());
    assert!(g.wants_token());
}

#[test]
fn chunked_prefill_matches_single_batch() {
    let prompt = vec![1, 2, 3, 4, 5];

    let mut single = Generation::new(prompt.clone(), 4096, 4, 8192).unwrap();
    let mut whole: Vec<BatchItem> = Vec::new();
    while single.is_prefilling() {
        whole.extend(single.next_prefill_chunk());
    }

    let mut chunked = Generation::new(prompt, 4096, 4, 2).unwrap();
    let mut pieces: Vec<BatchItem> = Vec::new();
    let mut chunk_sizes: Vec<usize> = Vec::new();
    while chunked.is_prefilling() {
        let chunk = chunked.next_prefill_chunk();
        chunk_sizes.push(chunk.len());
        pieces.extend(chunk);
    }

    assert_eq!(chunk_sizes, vec![2, 2, 1]);
    assert_eq!(whole, pieces);
    assert_eq!(whole.len(), 5);
    for (i, item) in whole.iter().enumerate() {
        assert_eq!(item.pos, i as u64);
        assert_eq!(item.wants_logits, i == 4);
    }
    assert!(chunked.wants_token());
}

#[test]
fn decode_loop_appends_and_advances() {
    let mut g = Generation::new(vec![10, 20], 4096, 5, 8192).unwrap();
    g.next_prefill_chunk();
    assert!(g.wants_token());

    let b1 = g.accept_token(100, false).unwrap();
    assert_eq!(b1, BatchItem { token: 100, pos: 2, wants_logits: true });
    let b2 = g.accept_token(101, false).unwrap();
    assert_eq!(b2, BatchItem { token: 101, pos: 3, wants_logits: true });

    let none = g.accept_token(7, true);
    assert!(none.is_none());
    assert!(g.is_finished());
    assert_eq!(g.finish_reason(), Some(FinishReason::EndMarker));
    assert_eq!(g.into_tokens(), vec![100, 101]);
}

#[test]
fn end_marker_is_not_kept() {
    let mut g = Generation::new(vec![1], 4096, 5, 8192).unwrap();
    g.next_prefill_chunk();
    g.accept_token(9, true);
    assert_eq!(g.produced_count(), 0);
}

#[test]
fn max_tokens_bounds_the_loop() {
    let mut g = Generation::new(vec![1], 4096, 2, 8192).unwrap();
    g.next_prefill_chunk();
    assert!(g.accept_token(5, false).is_some());
    assert!(g.wants_token());
    assert!(g.accept_token(6, false).is_some());
    assert!(!g.wants_token());
    assert!(g.is_finished());
    assert_eq!(g.finish_reason(), Some(FinishReason::MaxTokens));
    assert_eq!(g.into_tokens(), vec![5, 6]);
}

#[test]
fn no_candidates_stops_naturally() {
    let mut g = Generation::new(vec![1], 4096, 5, 8192).unwrap();
    g.next_prefill_chunk();
    g.accept_token(5, false);
    g.note_no_candidates();
    assert!(g.is_finished());
    assert_eq!(g.finish_reason(), Some(FinishReason::NoCandidates));
    assert_eq!(g.into_tokens(), vec![5]);
}

#[test]
fn zero_max_tokens_finishes_after_prefill() {
    let mut g = Generation::new(vec![1, 2], 4096, 0, 8192).unwrap();
    let chunk = g.next_prefill_chunk();
    assert_eq!(chunk.len(), 2);
    assert!(g.is_finished());
    assert_eq!(g.finish_reason(), Some(FinishReason::MaxTokens));
}

#[test]
fn empty_prompt_skips_prefill() {
    let g = Generation::new(Vec::new(), 4096, 3, 8192).unwrap();
    assert!(!g.is_prefilling());
    assert!(g.wants_token());
}

#[test]
fn end_to_end_generation() {
    // The scenario of a small model loaded with a 4096-token context and
    // no GPU offload, asked for at most five tokens at temperature zero:
    // the decode events are scripted as the runtime would report them.
    let mut state = gguf_engine::state::ModelState::new();
    state.note_backend_initialized();
    state.install_model(String::from("/models/test-tiny.gguf"), 4096, 0, 0);
    let plan = gguf_engine::generation::plan_generation(&state, 5).unwrap();
    assert_eq!(plan.kv_cache_size, 4096 + 5);

    // "Hello" tokenized with the implicit beginning-of-sequence marker.
    let prompt_tokens = vec![1, 15043];
    let mut g = Generation::new(prompt_tokens, 4096, 5, plan.batch_width).unwrap();
    while g.is_prefilling() {
        g.next_prefill_chunk();
    }
    g.accept_token(6324, false);
    g.accept_token(29991, false);
    g.accept_token(2, true);
    assert!(g.is_finished());
    let tokens = g.into_tokens();
    assert!(tokens.len() <= 5);

    let pieces = vec![Some(String::from("Hi")), Some(String::from("!"))];
    let out = finalize_output(&pieces);
    assert!(!out.text.is_empty());
    assert!(!out.text.contains("<|"));
    assert_eq!(out.text, String::from("Hi!"));
    assert_eq!(out.skipped, 0);
}
