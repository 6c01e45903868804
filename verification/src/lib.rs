//! The in-memory core of a workspace server: the documents that are open, the
//! projects they belong to, and the rules by which both change.
//!
//! [`workspace::WorkspaceServer`] owns four stores: the open documents, the
//! interned file sources, the registered projects, and the stored search
//! patterns, with a cache of parse helpers beside them. Its operations are
//! specified over [`workspace::WorkspaceModel`]; [`laws`] states what
//! holds across operations.

pub mod capabilities;
pub mod document;
pub mod document_store;
pub mod errors;
pub mod file_source;
pub mod ignore;
pub mod laws;
pub mod node_cache;
pub mod object_literals;
pub mod paths;
pub mod patterns;
pub mod projects;
pub mod root;
pub mod source_registry;
pub mod workspace;
