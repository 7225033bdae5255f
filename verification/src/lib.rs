//! A typed graph walker for the metadata of a content-addressed repository:
//! bookmarks, commits in two addressing schemes, manifests, file content, and
//! the mappings between them.
//!
//! The walker follows a fixed set of typed edges from a set of roots, visits
//! every node that they lead to exactly once, counts what it sees, and picks
//! a reproducible sample of nodes for a closer look. It loads nothing itself:
//! [`walk::Walk`] hands out nodes and takes in what was loaded for them.
//!
//! - [`graph`], [`node`], [`ids`], [`payload`]: the schema, the nodes and
//!   what is stored under them.
//! - [`expand`]: the edges that leave a node, given its payload.
//! - [`sampling`], [`pattern`]: which nodes are sampled.
//! - [`walk`], [`visited`], [`stats`]: the traversal, and [`model`] for what
//!   is proved of it.
//! - [`args`], [`error`]: reading configuration.
//! - [`query`], [`reload`]: the lookups that give a walk its roots, and the
//!   upkeep of the commit graph index that answers them.

pub mod args;
pub mod bytes;
pub mod error;
pub mod expand;
pub mod graph;
pub mod ids;
pub mod model;
pub mod node;
pub mod pattern;
pub mod payload;
pub mod query;
pub mod reload;
pub mod sampling;
pub mod stats;
pub mod text;
pub mod typeset;
pub mod visited;
pub mod walk;
