use vstd::prelude::*;
use vstd::string::StringExecFns;

verus! {

/// What the build offers for GPU acceleration, and what to recommend.
/// The two availability flags are compile-time facts of the embedding
/// program; the report is a pure function of them.
pub struct GpuSupport {
    /// Name of the backend in use.
    pub backend_name: String,
    /// Whether a CUDA backend is compiled in.
    pub cuda_available: bool,
    /// Whether a Vulkan backend is compiled in.
    pub vulkan_available: bool,
    /// GPU layer count worth requesting on this build.
    pub recommended_gpu_layers: u32,
    /// A one-line description of the situation.
    pub message: String,
}

/// The backend name for a pair of availability flags: CUDA wins over
/// Vulkan, and without either the build runs on the CPU.
pub open spec fn spec_backend_name(cuda: bool, vulkan: bool) -> Seq<char> {
    if cuda {
        "CUDA"@
    } else if vulkan {
        "Vulkan"@
    } else {
        "CPU"@
    }
}

/// The advisory message for a pair of availability flags.
pub open spec fn spec_backend_message(cuda: bool, vulkan: bool) -> Seq<char> {
    if cuda {
        "CUDA enabled. Maximum performance on NVIDIA GPUs."@
    } else if vulkan {
        "Vulkan enabled. Works on all GPUs (NVIDIA, AMD, Intel)."@
    } else {
        "CPU-only mode. For GPU support, enable CUDA or Vulkan."@
    }
}

/// Describes the build's GPU support.  With any GPU backend the full
/// architecture layer count is worth offloading; without one, none is.
pub fn gpu_support_report(cuda_available: bool, vulkan_available: bool) -> (r: GpuSupport)
    ensures
        r.cuda_available == cuda_available,
        r.vulkan_available == vulkan_available,
        r.backend_name@ == spec_backend_name(cuda_available, vulkan_available),
        r.message@ == spec_backend_message(cuda_available, vulkan_available),
        r.recommended_gpu_layers == if cuda_available || vulkan_available {
            28u32
        } else {
            0u32
        },
{
    let backend_name: &str;
    let message: &str;
    if cuda_available {
        backend_name = "CUDA";
        message = "CUDA enabled. Maximum performance on NVIDIA GPUs.";
    } else if vulkan_available {
        backend_name = "Vulkan";
        message = "Vulkan enabled. Works on all GPUs (NVIDIA, AMD, Intel).";
    } else {
        backend_name = "CPU";
        message = "CPU-only mode. For GPU support, enable CUDA or Vulkan.";
    }
    GpuSupport {
        backend_name: String::from_str(backend_name),
        cuda_available,
        vulkan_available,
        recommended_gpu_layers: if cuda_available || vulkan_available {
            28
        } else {
            0
        },
        message: String::from_str(message),
    }
}

} // verus!
