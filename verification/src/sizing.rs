use vstd::prelude::*;

verus! {

/// Fixed lower bound on the KV cache budget, in tokens.
pub const KV_CACHE_FLOOR: u32 = 4096;

/// Largest number of tokens submitted to the runtime in one decode call.
pub const MAX_BATCH_WIDTH: usize = 8192;

/// Token budget for a generation request's KV cache: the cache must hold
/// the whole prompt plus every requested output token, and never shrinks
/// below [`KV_CACHE_FLOOR`].
pub open spec fn spec_kv_cache_size(context_size: u32, max_tokens: u32) -> int {
    if context_size + max_tokens >= KV_CACHE_FLOOR {
        context_size + max_tokens
    } else {
        KV_CACHE_FLOOR as int
    }
}

/// KV cache budget for one generation request, computed without overflow.
pub fn kv_cache_size(context_size: u32, max_tokens: u32) -> (r: u64)
    ensures
        r == spec_kv_cache_size(context_size, max_tokens),
{
    let sum: u64 = context_size as u64 + max_tokens as u64;
    if sum >= KV_CACHE_FLOOR as u64 {
        sum
    } else {
        KV_CACHE_FLOOR as u64
    }
}

} // verus!
