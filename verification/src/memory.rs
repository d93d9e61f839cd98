use vstd::prelude::*;

use crate::state::ModelState;

verus! {

/// Assumed resident size of a loaded model's weights, in bytes (a 7B
/// model at 4-bit quantization).
pub const MODEL_WEIGHT_ESTIMATE_BYTES: u64 = 4_200_000_000;

/// Assumed total VRAM capacity of the device, in bytes.
pub const TOTAL_VRAM_BYTES: u64 = 12_000_000_000;

/// Known transformer layer count of the assumed architecture; requested
/// GPU layer counts are capped here.
pub const ARCH_LAYER_COUNT: u32 = 28;

/// Hidden dimension of the assumed architecture.
pub const HIDDEN_DIMENSION: u64 = 4096;

/// Bytes per cached element: 16-bit floats.
pub const BYTES_PER_ELEMENT: u64 = 2;

/// Advisory VRAM usage report, in bytes.  Purely informational: it never
/// blocks or enforces a limit.
#[derive(Debug, Clone, Copy, PartialEq, Eq, Structural)]
pub struct MemoryReport {
    /// Whether a model is resident; when false every figure is zero.
    pub available: bool,
    /// Assumed device capacity.
    pub total_vram_bytes: u64,
    /// Estimated bytes in use: model weights plus KV cache.
    pub used_vram_bytes: u64,
    /// Estimated bytes still free; zero when the estimate exceeds the
    /// capacity.
    pub free_vram_bytes: u64,
    /// Utilization in whole percent, clamped to [0, 100].
    pub usage_percent: u64,
    /// Estimated model weight bytes.
    pub model_size_bytes: u64,
    /// Estimated KV cache bytes.
    pub kv_cache_bytes: u64,
}

/// Layers that actually hold cache on the GPU: the requested count,
/// capped at the architecture's known layer count.
pub open spec fn spec_active_layers(gpu_layers: u32) -> int {
    if gpu_layers < ARCH_LAYER_COUNT {
        gpu_layers as int
    } else {
        ARCH_LAYER_COUNT as int
    }
}

/// Estimated KV cache bytes: separate key and value tensors (the factor
/// two), per active layer, per cached token position, across the hidden
/// dimension, at two bytes per element.
pub open spec fn spec_kv_cache_bytes(context_size: u32, gpu_layers: u32) -> int {
    2 * spec_active_layers(gpu_layers) * (context_size as int) * (HIDDEN_DIMENSION as int) * (
    BYTES_PER_ELEMENT as int)
}

/// The report for a resident model, over the state's recorded context
/// size and GPU layer count.
pub open spec fn spec_memory_report(context_size: u32, gpu_layers: u32) -> MemoryReport {
    let kv = spec_kv_cache_bytes(context_size, gpu_layers);
    let used = MODEL_WEIGHT_ESTIMATE_BYTES + kv;
    let free = if used <= TOTAL_VRAM_BYTES {
        TOTAL_VRAM_BYTES - used
    } else {
        0
    };
    let percent_raw = used * 100 / (TOTAL_VRAM_BYTES as int);
    let percent = if percent_raw <= 100 {
        percent_raw
    } else {
        100
    };
    MemoryReport {
        available: true,
        total_vram_bytes: TOTAL_VRAM_BYTES,
        used_vram_bytes: used as u64,
        free_vram_bytes: free as u64,
        usage_percent: percent as u64,
        model_size_bytes: MODEL_WEIGHT_ESTIMATE_BYTES,
        kv_cache_bytes: kv as u64,
    }
}

/// The report when no model is resident: unavailable, all figures zero.
pub open spec fn spec_empty_report() -> MemoryReport {
    MemoryReport {
        available: false,
        total_vram_bytes: 0,
        used_vram_bytes: 0,
        free_vram_bytes: 0,
        usage_percent: 0,
        model_size_bytes: 0,
        kv_cache_bytes: 0,
    }
}

/// Estimates resident VRAM usage from the lifecycle state.  Advisory
/// only; reads the status snapshot and enforces nothing.
pub fn memory_report(state: &ModelState) -> (r: MemoryReport)
    ensures
        state@.model is None ==> r == spec_empty_report(),
        state@.model is Some ==> r == spec_memory_report(state@.context_size, state@.gpu_layers),
{
    if !state.is_loaded() {
        return MemoryReport {
            available: false,
            total_vram_bytes: 0,
            used_vram_bytes: 0,
            free_vram_bytes: 0,
            usage_percent: 0,
            model_size_bytes: 0,
            kv_cache_bytes: 0,
        };
    }
    let context_size = state.context_size();
    let gpu_layers = state.gpu_layers();
    let layers: u64 = if gpu_layers < ARCH_LAYER_COUNT {
        gpu_layers as u64
    } else {
        ARCH_LAYER_COUNT as u64
    };
    proof {
        assert(2 * layers * (context_size as u64) <= 56 * 0xffff_ffffu64) by (nonlinear_arith)
            requires
                layers <= 28,
        ;
    }
    let kv: u64 = 2 * layers * (context_size as u64) * HIDDEN_DIMENSION * BYTES_PER_ELEMENT;
    let used: u64 = MODEL_WEIGHT_ESTIMATE_BYTES + kv;
    let free: u64 = if used <= TOTAL_VRAM_BYTES {
        TOTAL_VRAM_BYTES - used
    } else {
        0
    };
    let percent_raw: u64 = used * 100 / TOTAL_VRAM_BYTES;
    let percent: u64 = if percent_raw <= 100 {
        percent_raw
    } else {
        100
    };
    MemoryReport {
        available: true,
        total_vram_bytes: TOTAL_VRAM_BYTES,
        used_vram_bytes: used,
        free_vram_bytes: free,
        usage_percent: percent,
        model_size_bytes: MODEL_WEIGHT_ESTIMATE_BYTES,
        kv_cache_bytes: kv,
    }
}

} // verus!
