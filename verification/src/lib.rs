//! A bridge between a host application passing JSON payloads and the Cedar
//! policy engine: it validates policy sets against a composed schema, builds
//! authorization requests from loosely-typed input, formats the engine's
//! answer into a complete per-policy decision report, and converts policy
//! sets between their textual and structured (JSON) forms.

pub mod errors;
pub mod strutil;
pub mod cedar_api;
pub mod report;
pub mod authz;
pub mod schema;
pub mod codec;
pub mod entry;
