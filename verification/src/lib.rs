//! A plugin contract for "lenses": independently built extensions that a host
//! discovers, validates, loads and drives.
//!
//! The crate holds the rules of that contract: what a manifest and an output
//! contract must look like, how a plugin directory is reconciled into one
//! validated unit, in which order the steps of loading a shared library are
//! taken, and the vocabulary of events and results that a run produces.
//! Every function here is verified against its contract; reading files,
//! opening libraries and running plugins is left to the host.

pub mod text;
pub mod json;
pub mod files;
pub mod clock;
pub mod error;
pub mod manifest;
pub mod output_spec;
pub mod discovery;
pub mod events;
pub mod context;
pub mod oauth;
pub mod mcp_server;
pub mod loader;

pub use error::{LensError, Result};
pub use manifest::{
    LensDependency, LensManifest, LensMetadata, MessageType, Permission, SandboxLevel,
    SecurityConfig,
};
pub use output_spec::{
    InteractivityMode, LensOutputSpec, OutputDefinition, OutputErrorMode, RenderBlock,
    RenderBlockType, OUTPUT_SPEC_FILENAME,
};
pub use discovery::{
    load_manifest, load_output_spec, DirectoryEntry, DiscoveredLens, LensDirectory, LensDiscovery,
    LibraryCandidate, Platform, RootListing, ScanReport, LENS_DIR, MANIFEST_FILENAME,
};
pub use files::Loaded;
pub use context::LensResult;
pub use events::LensEvent;
pub use loader::{LensLoader, LoadEvent, LoadStage, LoadStep, Loading, LENS_ENTRY_POINT};
pub use oauth::{OAuthError, OAuthToken};
pub use mcp_server::{
    McpContent, McpPropertySchema, McpTool, McpToolBuilder, McpToolResponse, McpToolSchema,
    PropertyEntry, PropertyMap,
};
