use vstd::prelude::*;
use vstd::string::StringExecFns;

use crate::error::EngineError;

verus! {

/// Default token budget for the KV cache, set when no model is resident.
pub const DEFAULT_CONTEXT_SIZE: u32 = 4096;

/// Default number of transformer layers offloaded to the GPU.
pub const DEFAULT_GPU_LAYERS: u32 = 0;

/// An opaque loaded-model resource, bound to the file path it was loaded
/// from and the number of transformer layers offloaded to the GPU.  The
/// native runtime's handle itself lives with the embedding program; the
/// engine tracks what the handle is bound to.
pub struct ModelHandle {
    /// Path of the model file this resource was loaded from.
    pub path: String,
    /// Effective GPU layer count the resource was loaded with.
    pub gpu_layers: u32,
}

/// Mathematical image of a [`ModelHandle`].
pub ghost struct HandleView {
    pub path: Seq<char>,
    pub gpu_layers: u32,
}

impl View for ModelHandle {
    type V = HandleView;

    open spec fn view(&self) -> HandleView {
        HandleView { path: self.path@, gpu_layers: self.gpu_layers }
    }
}

/// Mathematical image of a [`ModelState`].
pub ghost struct StateView {
    pub model: Option<HandleView>,
    pub model_path: Option<Seq<char>>,
    pub context_size: u32,
    pub gpu_layers: u32,
    pub backend_initialized: bool,
}

/// A model and its path are recorded together: a handle is present
/// exactly when a path is, and the two agree.
pub open spec fn wf(v: StateView) -> bool {
    match (v.model, v.model_path) {
        (Some(h), Some(p)) => h.path == p,
        (None, None) => true,
        _ => false,
    }
}

/// The state a fresh engine starts in: nothing resident, defaults set.
pub open spec fn initial_state() -> StateView {
    StateView {
        model: None,
        model_path: None,
        context_size: DEFAULT_CONTEXT_SIZE,
        gpu_layers: DEFAULT_GPU_LAYERS,
        backend_initialized: false,
    }
}

/// The state after the execution backend has been initialized.
pub open spec fn with_backend(v: StateView) -> StateView {
    StateView { backend_initialized: true, ..v }
}

/// The state after a successful model load: the new model replaces any
/// previously resident one, and the backend flag is untouched.  The handle
/// records the effective GPU layer count the runtime was given; the state
/// records the caller's requested count.
pub open spec fn after_install(
    v: StateView,
    path: Seq<char>,
    context_size: u32,
    requested_layers: u32,
    effective_layers: u32,
) -> StateView {
    StateView {
        model: Some(HandleView { path, gpu_layers: effective_layers }),
        model_path: Some(path),
        context_size,
        gpu_layers: requested_layers,
        backend_initialized: v.backend_initialized,
    }
}

/// The state after a model-only unload: the model and its path are
/// cleared and the numeric fields return to their defaults, but the
/// backend stays resident for a fast reload.
pub open spec fn after_unload_model(v: StateView) -> StateView {
    StateView {
        model: None,
        model_path: None,
        context_size: DEFAULT_CONTEXT_SIZE,
        gpu_layers: DEFAULT_GPU_LAYERS,
        backend_initialized: v.backend_initialized,
    }
}

/// The state after a full teardown: everything the model-only unload
/// clears, and the backend flag as well.
pub open spec fn after_unload_full(v: StateView) -> StateView {
    StateView { backend_initialized: false, ..after_unload_model(v) }
}

/// Read-only snapshot of the lifecycle state.
pub struct ModelStatus {
    /// Whether a model is resident.
    pub loaded: bool,
    /// Path of the resident model, if any.
    pub model_path: Option<String>,
}

/// Mathematical image of a [`ModelStatus`].
pub ghost struct StatusView {
    pub loaded: bool,
    pub model_path: Option<Seq<char>>,
}

impl View for ModelStatus {
    type V = StatusView;

    open spec fn view(&self) -> StatusView {
        StatusView {
            loaded: self.loaded,
            model_path: match self.model_path {
                Some(p) => Some(p@),
                None => None,
            },
        }
    }
}

/// The snapshot that `status` reports for a given state.
pub open spec fn spec_status(v: StateView) -> StatusView {
    StatusView { loaded: v.model is Some, model_path: v.model_path }
}

/// The shared aggregate behind the engine's lifecycle: the single source
/// of truth for whether a model is resident.  The embedding program keeps
/// one instance behind a mutual-exclusion lock and holds that lock for
/// the whole of every load, generation or unload.
pub struct ModelState {
    model: Option<ModelHandle>,
    model_path: Option<String>,
    context_size: u32,
    gpu_layers: u32,
    backend_initialized: bool,
}

impl View for ModelState {
    type V = StateView;

    closed spec fn view(&self) -> StateView {
        StateView {
            model: match self.model {
                Some(h) => Some(h@),
                None => None,
            },
            model_path: match self.model_path {
                Some(p) => Some(p@),
                None => None,
            },
            context_size: self.context_size,
            gpu_layers: self.gpu_layers,
            backend_initialized: self.backend_initialized,
        }
    }
}

impl ModelState {
    /// A fresh engine state: nothing resident, defaults set.
    pub fn new() -> (r: ModelState)
        ensures
            r@ == initial_state(),
            wf(r@),
    {
        ModelState {
            model: None,
            model_path: None,
            context_size: DEFAULT_CONTEXT_SIZE,
            gpu_layers: DEFAULT_GPU_LAYERS,
            backend_initialized: false,
        }
    }

    /// Whether a model is resident.
    pub fn is_loaded(&self) -> (r: bool)
        ensures
            r == (self@.model is Some),
    {
        self.model.is_some()
    }

    /// The token budget the resident model was loaded with.
    pub fn context_size(&self) -> (r: u32)
        ensures
            r == self@.context_size,
    {
        self.context_size
    }

    /// The GPU layer count the caller last requested.
    pub fn gpu_layers(&self) -> (r: u32)
        ensures
            r == self@.gpu_layers,
    {
        self.gpu_layers
    }

    /// Whether the execution backend has been initialized.
    pub fn backend_initialized(&self) -> (r: bool)
        ensures
            r == self@.backend_initialized,
    {
        self.backend_initialized
    }

    /// Read-only snapshot: whether a model is loaded, and its path.
    pub fn status(&self) -> (r: ModelStatus)
        ensures
            r@ == spec_status(self@),
    {
        ModelStatus {
            loaded: self.model.is_some(),
            model_path: match &self.model_path {
                Some(p) => Some(p.clone()),
                None => None,
            },
        }
    }

    /// First step of a load: the file must exist.  The embedding program
    /// checks the file system and passes the answer in.
    pub fn check_model_file(path: &String, path_exists: bool) -> (r: Result<(), EngineError>)
        ensures
            path_exists ==> r is Ok,
            !path_exists ==> (r matches Err(EngineError::NotFound { path: p }) && p@ == path@),
    {
        if path_exists {
            Ok(())
        } else {
            Err(EngineError::NotFound { path: path.clone() })
        }
    }

    /// Whether a load must initialize the execution backend first.  A
    /// backend is initialized at most once per process lifetime; a load
    /// never re-initializes one that is already present.
    pub fn needs_backend_init(&self) -> (r: bool)
        ensures
            r == !self@.backend_initialized,
    {
        !self.backend_initialized
    }

    /// Records that the execution backend initialized successfully.
    pub fn note_backend_initialized(&mut self)
        ensures
            final(self)@ == with_backend(old(self)@),
    {
        self.backend_initialized = true;
    }

    /// The GPU layer count actually handed to the runtime: the requested
    /// count when a GPU backend is compiled in, and zero otherwise (a
    /// silent downgrade on CPU-only builds).
    pub fn effective_gpu_layers(requested: u32, gpu_supported: bool) -> (r: u32)
        ensures
            r == if gpu_supported {
                requested
            } else {
                0u32
            },
    {
        if gpu_supported {
            requested
        } else {
            0
        }
    }

    /// Records a successful model load and returns the confirmation
    /// string.  Any previously resident model is replaced.
    pub fn install_model(
        &mut self,
        path: String,
        context_size: u32,
        requested_layers: u32,
        effective_layers: u32,
    ) -> (r: String)
        ensures
            final(self)@ == after_install(
                old(self)@,
                path@,
                context_size,
                requested_layers,
                effective_layers,
            ),
            wf(final(self)@),
            r@ == "Model loaded: "@ + path@,
    {
        let mut confirmation = String::from_str("Model loaded: ");
        confirmation.append(path.as_str());
        self.model = Some(ModelHandle { path: path.clone(), gpu_layers: effective_layers });
        self.model_path = Some(path);
        self.context_size = context_size;
        self.gpu_layers = requested_layers;
        confirmation
    }

    /// Model-only unload: releases the model (the embedding program drops
    /// the runtime's handle first, before any backend teardown) and keeps
    /// the backend warm.  A no-op success when nothing is loaded.
    pub fn unload_model(&mut self) -> (r: String)
        ensures
            final(self)@ == after_unload_model(old(self)@),
            wf(final(self)@),
            r@ == "Model unloaded - backend kept resident"@,
    {
        self.model = None;
        self.model_path = None;
        self.context_size = DEFAULT_CONTEXT_SIZE;
        self.gpu_layers = DEFAULT_GPU_LAYERS;
        String::from_str("Model unloaded - backend kept resident")
    }

    /// Full teardown: releases the model, then the backend.  A no-op
    /// success when nothing is loaded.
    pub fn unload_full(&mut self) -> (r: String)
        ensures
            final(self)@ == after_unload_full(old(self)@),
            wf(final(self)@),
            r@ == "Model unloaded - GPU memory freed"@,
    {
        self.model = None;
        self.model_path = None;
        self.context_size = DEFAULT_CONTEXT_SIZE;
        self.gpu_layers = DEFAULT_GPU_LAYERS;
        self.backend_initialized = false;
        String::from_str("Model unloaded - GPU memory freed")
    }
}

impl Default for ModelState {
    /// Same state as [`ModelState::new`].
    fn default() -> (r: ModelState)
        ensures
            r@ == initial_state(),
    {
        ModelState::new()
    }
}

/// Every lifecycle transition keeps the state well formed.
pub proof fn lemma_lifecycle_preserves_wf(
    v: StateView,
    path: Seq<char>,
    context_size: u32,
    requested_layers: u32,
    effective_layers: u32,
)
    ensures
        wf(initial_state()),
        wf(v) ==> wf(with_backend(v)),
        wf(after_install(v, path, context_size, requested_layers, effective_layers)),
        wf(after_unload_model(v)),
        wf(after_unload_full(v)),
{
}

/// A load followed immediately by a status read reports the model as
/// loaded, under the path the load installed.
pub proof fn lemma_status_after_load(
    v: StateView,
    path: Seq<char>,
    context_size: u32,
    requested_layers: u32,
    effective_layers: u32,
)
    ensures
        spec_status(after_install(v, path, context_size, requested_layers, effective_layers)).loaded,
        spec_status(
            after_install(v, path, context_size, requested_layers, effective_layers),
        ).model_path == Some(path),
{
}

/// An unload followed by a status read reports nothing loaded and no
/// path, whichever unload variant ran.
pub proof fn lemma_status_after_unload(v: StateView)
    ensures
        !spec_status(after_unload_model(v)).loaded,
        spec_status(after_unload_model(v)).model_path is None,
        !spec_status(after_unload_full(v)).loaded,
        spec_status(after_unload_full(v)).model_path is None,
{
}

/// Unloading twice is the same as unloading once: both variants are
/// idempotent, so a second unload is a safe no-op.
pub proof fn lemma_unload_idempotent(v: StateView)
    ensures
        after_unload_model(after_unload_model(v)) == after_unload_model(v),
        after_unload_full(after_unload_full(v)) == after_unload_full(v),
{
}

} // verus!
