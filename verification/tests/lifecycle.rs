use gguf_engine::error::EngineError;
use gguf_engine::generation::plan_generation;
use gguf_engine::state::ModelState;

#[test]
fn fresh_state_is_empty() {
    let state = ModelState::new();
    let status = state.status();
    assert!(!status.loaded);
    assert!(status.model_path.is_none());
    assert_eq!(state.context_size(), 4096);
    assert_eq!(state.gpu_layers(), 0);
    assert!(!state.backend_initialized());
    assert!(state.needs_backend_init());
}

#[test]
fn default_matches_new() {
    let state = ModelState::default();
    assert!(!state.is_loaded());
    assert_eq!(state.context_size(), 4096);
}

#[test]
fn load_then_status_reports_loaded_path() {
    let mut state = ModelState::new();
    let confirmation = state.install_model(String::from("/models/tiny.gguf"), 2048, 12, 12);
    assert_eq!(confirmation, String::from("Model loaded: /models/tiny.gguf"));
    let status = state.status();
    assert!(status.loaded);
    assert_eq!(status.model_path, Some(String::from("/models/tiny.gguf")));
    assert_eq!(state.context_size(), 2048);
    assert_eq!(state.gpu_layers(), 12);
}

#[test]
fn load_replaces_previous_model() {
    let mut state = ModelState::new();
    state.install_model(String::from("/a.gguf"), 1024, 0, 0);
    state.install_model(String::from("/b.gguf"), 4096, 8, 8);
    let status = state.status();
    assert!(status.loaded);
    assert_eq!(status.model_path, Some(String::from("/b.gguf")));
}

#[test]
fn unload_then_status_reports_nothing() {
    let mut state = ModelState::new();
    state.install_model(String::from("/models/tiny.gguf"), 2048, 12, 12);
    let confirmation = state.unload_model();
    assert_eq!(confirmation, String::from("Model unloaded - backend kept resident"));
    let status = state.status();
    assert!(!status.loaded);
    assert!(status.model_path.is_none());
    assert_eq!(state.context_size(), 4096);
    assert_eq!(state.gpu_layers(), 0);
}

#[test]
fn unload_twice_is_safe() {
    let mut state = ModelState::new();
    state.install_model(String::from("/models/tiny.gguf"), 2048, 0, 0);
    state.unload_model();
    let confirmation = state.unload_model();
    assert_eq!(confirmation, String::from("Model unloaded - backend kept resident"));
    assert!(!state.status().loaded);
}

#[test]
fn model_only_unload_keeps_backend_warm() {
    let mut state = ModelState::new();
    state.note_backend_initialized();
    state.install_model(String::from("/m.gguf"), 4096, 0, 0);
    state.unload_model();
    assert!(state.backend_initialized());
    assert!(!state.needs_backend_init());
}

#[test]
fn full_unload_releases_backend() {
    let mut state = ModelState::new();
    state.note_backend_initialized();
    state.install_model(String::from("/m.gguf"), 4096, 0, 0);
    let confirmation = state.unload_full();
    assert_eq!(confirmation, String::from("Model unloaded - GPU memory freed"));
    assert!(!state.backend_initialized());
    assert!(!state.status().loaded);
}

#[test]
fn load_does_not_reinitialize_backend() {
    let mut state = ModelState::new();
    state.note_backend_initialized();
    state.install_model(String::from("/m.gguf"), 4096, 0, 0);
    assert!(!state.needs_backend_init());
}

#[test]
fn missing_file_is_not_found() {
    let r = ModelState::check_model_file(&String::from("/nowhere.gguf"), false);
    match r {
        Err(EngineError::NotFound { path }) => {
            assert_eq!(path, String::from("/nowhere.gguf"));
        }
        _ => panic!("expected NotFound"),
    }
    assert!(ModelState::check_model_file(&String::from("/somewhere.gguf"), true).is_ok());
}

#[test]
fn gpu_layers_downgraded_without_gpu() {
    assert_eq!(ModelState::effective_gpu_layers(28, true), 28);
    assert_eq!(ModelState::effective_gpu_layers(28, false), 0);
    assert_eq!(ModelState::effective_gpu_layers(0, true), 0);
}

#[test]
fn generate_before_load_is_refused() {
    let state = ModelState::new();
    let r = plan_generation(&state, 128);
    assert!(matches!(r, Err(EngineError::ModelNotLoaded)));
}

#[test]
fn plan_sizes_cache_from_state() {
    let mut state = ModelState::new();
    state.install_model(String::from("/m.gguf"), 4096, 0, 0);
    let plan = plan_generation(&state, 512).unwrap();
    assert_eq!(plan.kv_cache_size, 4096 + 512);
    assert_eq!(plan.batch_width, 8192);
}
