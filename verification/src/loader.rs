//! The protocol by which a compiled lens is loaded from a shared library.
//!
//! Opening a library and calling into it is the host's work. The order of
//! the steps, what each outcome leads to, and the registry that keeps every
//! loaded library alive are decided here: the host reports what a step came
//! to, and is told the next one.

use vstd::prelude::*;
use std::sync::Arc;
use crate::error::LensError;
use crate::files::{path_debug, path_debug_text};

verus! {

/// `libloading::Library`: the image of a loaded shared library. The library
/// is unloaded when the last handle to it is dropped.
#[verifier::external_type_specification]
#[verifier::external_body]
pub struct ExLibrary(libloading::Library);

/// Entry point function name that lenses must export.
pub const LENS_ENTRY_POINT: &'static str = "create_lens";

/// Where the loading of one library stands: the step that the host has to
/// report on next.
#[derive(Debug, Clone, Copy, PartialEq, Eq, Structural)]
pub enum LoadStage {
    /// The path has to be checked.
    CheckPath,
    /// The library has to be opened.
    OpenLibrary,
    /// The entry point has to be resolved.
    ResolveEntryPoint,
    /// The entry point has to be called.
    Construct,
}

/// What a step of the loading came to, as the host reports it.
pub enum LoadEvent {
    /// Nothing stands at the path.
    PathMissing,
    /// Something stands at the path.
    PathFound,
    /// The library could not be opened; the text is the cause.
    OpenFailed(String),
    /// The library was opened; this is a handle to its image.
    Opened(Arc<libloading::Library>),
    /// The library exports no entry point; the text is the cause.
    EntryPointMissing(String),
    /// The entry point was resolved.
    EntryPointFound,
    /// The entry point returned a null pointer.
    InstanceNull,
    /// The entry point returned a lens.
    InstanceCreated,
}

/// The loading of one library, under way.
#[derive(Debug)]
pub struct Loading {
    path: std::path::PathBuf,
    stage: LoadStage,
    library: Option<Arc<libloading::Library>>,
}

/// What the host has to do next. While the loading goes on, the step hands
/// it back; once it has ended, in a lens or in an error, there is nothing
/// left to report on.
#[derive(Debug)]
pub enum LoadStep {
    /// Open the library at the path.
    Open(Loading),
    /// Resolve the entry point in the library.
    Resolve(Loading),
    /// Call the entry point.
    Construct(Loading),
    /// The lens is loaded, and the registry holds its library.
    Loaded,
    /// The loading failed.
    Failed(LensError),
}

/// What an event leads to at a stage.
pub enum Verdict {
    /// The loading goes on at this stage.
    GoOn(LoadStage),
    /// The loading goes on at this stage, with the library that was opened.
    Hold(LoadStage, Arc<libloading::Library>),
    /// The lens is loaded.
    Loaded,
    /// The library was not found; the text is the message.
    NotFound(Seq<char>),
    /// The loading failed for another reason; the text is the message.
    Failed(Seq<char>),
}

/// What an event leads to at a stage of the loading of the library at
/// `path`. A missing path is reported as not found; a library that does not
/// open, that lacks the entry point or whose entry point returns null is an
/// initialization failure; an event that does not belong to the stage is one
/// too.
pub open spec fn verdict(path: std::path::PathBuf, stage: LoadStage, event: LoadEvent) -> Verdict {
    let shown = path_debug_text(path);
    match (stage, event) {
        (LoadStage::CheckPath, LoadEvent::PathMissing) => Verdict::NotFound(
            "Library not found: "@ + shown,
        ),
        (LoadStage::CheckPath, LoadEvent::PathFound) => Verdict::GoOn(LoadStage::OpenLibrary),
        (LoadStage::OpenLibrary, LoadEvent::OpenFailed(cause)) => Verdict::Failed(
            "Failed to load library "@ + shown + ": "@ + cause@,
        ),
        (LoadStage::OpenLibrary, LoadEvent::Opened(library)) => Verdict::Hold(
            LoadStage::ResolveEntryPoint,
            library,
        ),
        (LoadStage::ResolveEntryPoint, LoadEvent::EntryPointMissing(cause)) => Verdict::Failed(
            "Lens "@ + shown + " missing 'create_lens' entry point: "@ + cause@,
        ),
        (LoadStage::ResolveEntryPoint, LoadEvent::EntryPointFound) => Verdict::GoOn(
            LoadStage::Construct,
        ),
        (LoadStage::Construct, LoadEvent::InstanceNull) => Verdict::Failed(
            "Lens "@ + shown + " returned null from create_lens"@,
        ),
        (LoadStage::Construct, LoadEvent::InstanceCreated) => Verdict::Loaded,
        _ => Verdict::Failed("Lens "@ + shown + " reported a step out of order"@),
    }
}

impl Loading {
    /// The path of the library.
    pub closed spec fn path(&self) -> std::path::PathBuf {
        self.path
    }

    /// The stage at which the loading stands.
    pub closed spec fn stage(&self) -> LoadStage {
        self.stage
    }

    /// The library, once it is open.
    pub closed spec fn library(&self) -> Option<Arc<libloading::Library>> {
        self.library
    }

    /// The library is held exactly from the moment it is open.
    #[verifier::type_invariant]
    closed spec fn is_consistent(&self) -> bool {
        (self.stage == LoadStage::ResolveEntryPoint || self.stage == LoadStage::Construct)
            <==> self.library is Some
    }

    /// The stage at which the loading stands.
    pub fn current_stage(&self) -> (r: LoadStage)
        ensures
            r == self.stage(),
    {
        self.stage
    }
}

impl LoadStep {
    /// The loading that goes on after this step, if it does.
    pub open spec fn loading(&self) -> Option<Loading> {
        match self {
            LoadStep::Open(loading) => Some(*loading),
            LoadStep::Resolve(loading) => Some(*loading),
            LoadStep::Construct(loading) => Some(*loading),
            LoadStep::Loaded => None,
            LoadStep::Failed(_) => None,
        }
    }

    /// The step that is taken at a stage.
    pub open spec fn is_for(&self, stage: LoadStage) -> bool {
        match stage {
            LoadStage::CheckPath => false,
            LoadStage::OpenLibrary => self is Open,
            LoadStage::ResolveEntryPoint => self is Resolve,
            LoadStage::Construct => self is Construct,
        }
    }
}

/// Dynamic lens loader: the registry of the libraries that were loaded. A
/// library stays in it for as long as the loader lives, so that its image
/// outlives every lens that came from it.
pub struct LensLoader {
    /// Loaded libraries, in the order in which they were loaded.
    libraries: Vec<Arc<libloading::Library>>,
}

impl Default for LensLoader {
    fn default() -> (r: LensLoader)
        ensures
            r.registry().len() == 0,
    {
        LensLoader::new()
    }
}

impl LensLoader {
    /// The libraries that the loader keeps alive, oldest first.
    pub closed spec fn registry(&self) -> Seq<Arc<libloading::Library>> {
        self.libraries@
    }

    /// Create a new lens loader, with an empty registry.
    pub fn new() -> (r: Self)
        ensures
            r.registry().len() == 0,
    {
        LensLoader { libraries: Vec::new() }
    }

    /// Get the number of loaded libraries.
    pub fn loaded_count(&self) -> (r: usize)
        ensures
            r == self.registry().len(),
    {
        self.libraries.len()
    }

    /// Begin to load the library at `path`. The first step is the host's: to
    /// check that something stands at the path.
    pub fn begin(&self, path: std::path::PathBuf) -> (r: Loading)
        ensures
            r.path() == path,
            r.stage() == LoadStage::CheckPath,
            r.library() is None,
    {
        Loading { path, stage: LoadStage::CheckPath, library: None }
    }

    /// Take what a step came to and say what comes next. A failure ends the
    /// loading and leaves the registry as it was. The registry grows by the
    /// library exactly when the lens is loaded, and never shrinks.
    pub fn advance(&mut self, loading: Loading, event: LoadEvent) -> (r: LoadStep)
        ensures
            old(self).registry().is_prefix_of(final(self).registry()),
            (match verdict(loading.path(), loading.stage(), event) {
                Verdict::GoOn(stage) => {
                    &&& r.is_for(stage)
                    &&& r.loading() matches Some(next)
                    &&& next.path() == loading.path()
                    &&& next.stage() == stage
                    &&& next.library() == loading.library()
                    &&& final(self).registry() == old(self).registry()
                },
                Verdict::Hold(stage, library) => {
                    &&& r.is_for(stage)
                    &&& r.loading() matches Some(next)
                    &&& next.path() == loading.path()
                    &&& next.stage() == stage
                    &&& next.library() == Some(library)
                    &&& final(self).registry() == old(self).registry()
                },
                Verdict::Loaded => {
                    &&& r is Loaded
                    &&& loading.library() matches Some(library)
                    &&& final(self).registry() == old(self).registry().push(library)
                },
                Verdict::NotFound(message) => {
                    &&& r matches LoadStep::Failed(LensError::LensNotFound(m))
                    &&& m@ == message
                    &&& final(self).registry() == old(self).registry()
                },
                Verdict::Failed(message) => {
                    &&& r matches LoadStep::Failed(LensError::Initialization(m))
                    &&& m@ == message
                    &&& final(self).registry() == old(self).registry()
                },
            }),
    {
        proof {
            use_type_invariant(&loading);
        }
        let Loading { path, stage, library } = loading;
        match (stage, event) {
            (LoadStage::CheckPath, LoadEvent::PathMissing) => {
                let mut message = String::from_str("Library not found: ");
                message.append(path_debug(&path).as_str());
                LoadStep::Failed(LensError::LensNotFound(message))
            },
            (LoadStage::CheckPath, LoadEvent::PathFound) => LoadStep::Open(
                Loading { path, stage: LoadStage::OpenLibrary, library },
            ),
            (LoadStage::OpenLibrary, LoadEvent::OpenFailed(cause)) => {
                let mut message = String::from_str("Failed to load library ");
                message.append(path_debug(&path).as_str());
                message.append(": ");
                message.append(cause.as_str());
                LoadStep::Failed(LensError::Initialization(message))
            },
            (LoadStage::OpenLibrary, LoadEvent::Opened(opened)) => LoadStep::Resolve(
                Loading { path, stage: LoadStage::ResolveEntryPoint, library: Some(opened) },
            ),
            (LoadStage::ResolveEntryPoint, LoadEvent::EntryPointMissing(cause)) => {
                let mut message = String::from_str("Lens ");
                message.append(path_debug(&path).as_str());
                message.append(" missing 'create_lens' entry point: ");
                message.append(cause.as_str());
                LoadStep::Failed(LensError::Initialization(message))
            },
            (LoadStage::ResolveEntryPoint, LoadEvent::EntryPointFound) => LoadStep::Construct(
                Loading { path, stage: LoadStage::Construct, library },
            ),
            (LoadStage::Construct, LoadEvent::InstanceNull) => {
                let mut message = String::from_str("Lens ");
                message.append(path_debug(&path).as_str());
                message.append(" returned null from create_lens");
                LoadStep::Failed(LensError::Initialization(message))
            },
            (LoadStage::Construct, LoadEvent::InstanceCreated) => {
                self.libraries.push(library.unwrap());
                LoadStep::Loaded
            },
            _ => {
                let mut message = String::from_str("Lens ");
                message.append(path_debug(&path).as_str());
                message.append(" reported a step out of order");
                LoadStep::Failed(LensError::Initialization(message))
            },
        }
    }
}

/// Loading a path at which nothing stands fails as not found, never as an
/// initialization failure.
pub proof fn lemma_missing_path_is_not_found(path: std::path::PathBuf)
    ensures
        verdict(path, LoadStage::CheckPath, LoadEvent::PathMissing) == Verdict::NotFound(
            "Library not found: "@ + path_debug_text(path),
        ),
{
}

/// Only an instance that was created makes the loading end in a lens, and
/// so only that makes the registry grow.
pub proof fn lemma_only_success_registers(
    path: std::path::PathBuf,
    stage: LoadStage,
    event: LoadEvent,
)
    ensures
        verdict(path, stage, event) is Loaded <==> stage == LoadStage::Construct
            && event is InstanceCreated,
{
}

} // verus!
