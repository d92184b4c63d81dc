//! A kubectl-style command engine that works on resource kinds it was not
//! compiled against: it parses a command line, resolves resource names
//! against what a cluster's discovery reported, binds the scope of the
//! request, decodes multi-document manifests and plans the cluster calls that
//! carry a command out.

pub mod age;
pub mod assets;
pub mod binder;
pub mod command;
pub mod discovery;
pub mod executor;
pub mod manifest;
pub mod object;
pub mod server;
pub mod text;
