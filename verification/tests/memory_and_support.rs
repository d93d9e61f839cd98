use gguf_engine::memory::memory_report;
use gguf_engine::state::ModelState;
use gguf_engine::support::gpu_support_report;

#[test]
fn report_unavailable_without_model() {
    let state = ModelState::new();
    let r = memory_report(&state);
    assert!(!r.available);
    assert_eq!(r.total_vram_bytes, 0);
    assert_eq!(r.used_vram_bytes, 0);
    assert_eq!(r.free_vram_bytes, 0);
    assert_eq!(r.usage_percent, 0);
    assert_eq!(r.model_size_bytes, 0);
    assert_eq!(r.kv_cache_bytes, 0);
}

#[test]
fn cpu_only_model_has_no_kv_cache_on_gpu() {
    let mut state = ModelState::new();
    state.install_model(String::from("/m.gguf"), 4096, 0, 0);
    let r = memory_report(&state);
    assert!(r.available);
    assert_eq!(r.kv_cache_bytes, 0);
    assert_eq!(r.model_size_bytes, 4_200_000_000);
    assert_eq!(r.used_vram_bytes, 4_200_000_000);
    assert_eq!(r.free_vram_bytes, 12_000_000_000 - 4_200_000_000);
    assert_eq!(r.usage_percent, 35);
}

#[test]
fn kv_cache_formula_with_layer_cap() {
    let mut state = ModelState::new();
    // 50 requested layers are capped at the architecture's 28.
    state.install_model(String::from("/m.gguf"), 4096, 50, 50);
    let r = memory_report(&state);
    let expected_kv: u64 = 2 * 28 * 4096 * 4096 * 2;
    assert_eq!(r.kv_cache_bytes, expected_kv);
    assert_eq!(r.used_vram_bytes, 4_200_000_000 + expected_kv);
    assert_eq!(r.free_vram_bytes, 12_000_000_000 - (4_200_000_000 + expected_kv));
    assert_eq!(r.usage_percent, 50);
}

#[test]
fn usage_percent_clamps_at_hundred() {
    let mut state = ModelState::new();
    state.install_model(String::from("/m.gguf"), u32::MAX, 28, 28);
    let r = memory_report(&state);
    assert_eq!(r.usage_percent, 100);
    assert_eq!(r.free_vram_bytes, 0);
}

#[test]
fn cuda_build_report() {
    let r = gpu_support_report(true, false);
    assert_eq!(r.backend_name, String::from("CUDA"));
    assert!(r.cuda_available);
    assert!(!r.vulkan_available);
    assert_eq!(r.recommended_gpu_layers, 28);
    assert_eq!(
        r.message,
        String::from("CUDA enabled. Maximum performance on NVIDIA GPUs.")
    );
}

#[test]
fn vulkan_build_report() {
    let r = gpu_support_report(false, true);
    assert_eq!(r.backend_name, String::from("Vulkan"));
    assert_eq!(r.recommended_gpu_layers, 28);
    assert_eq!(
        r.message,
        String::from("Vulkan enabled. Works on all GPUs (NVIDIA, AMD, Intel).")
    );
}

#[test]
fn cpu_build_report() {
    let r = gpu_support_report(false, false);
    assert_eq!(r.backend_name, String::from("CPU"));
    assert_eq!(r.recommended_gpu_layers, 0);
    assert_eq!(
        r.message,
        String::from("CPU-only mode. For GPU support, enable CUDA or Vulkan.")
    );
}
