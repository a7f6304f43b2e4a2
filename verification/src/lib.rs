//! Launching external interactive merge/diff tools and reintegrating their
//! results into an immutable tree model.
//!
//! The decision logic lives here, verified: resolving a tool's invocation
//! spec from settings lookups, interpolating role sigils into argument
//! templates, validating a conflict's shape and assigning its sides to role
//! files, classifying an external process's outcome, judging the tool's
//! output, and building the new tree. The surrounding I/O (settings sources,
//! scratch directories, process spawning, the content-addressed store) is
//! performed by unverified callers that feed their outcomes to these
//! functions as plain values.

pub mod errors;
pub mod tools;
pub mod interpolate;
pub mod runner;
pub mod tree;
pub mod reconcile;
pub mod diffedit;
pub mod workspace;
