//! A verified knowledge-graph construction library: it models a free-text
//! conversation transcript being turned into a schema-conformant graph
//! mutation batch against a property-graph store, and the retrieval of
//! relevant fragments of that graph as textual context.
//!
//! The pipeline's data and decisions live here, each with a contract:
//! the exchange document and its JSON shape ([`exchange`]), the closed set
//! of domain node kinds and their classifier ([`model`]), the statement
//! compiler ([`compile`]), the persisted-graph snapshot ([`snapshot`]),
//! the prompt builders ([`prompts`]), the reconciliation and
//! conversation-completion decisions ([`coordinator`]), and the retrieval
//! queries ([`retrieval`]). The collaborator calls themselves — text
//! completion, embedding, and the graph store's transactions — are I/O
//! that a thin driver performs around this library.

pub mod compile;
pub mod coordinator;
pub mod errors;
pub mod exchange;
pub mod external;
pub mod model;
pub mod prompts;
pub mod retrieval;
pub mod snapshot;
pub mod text;
