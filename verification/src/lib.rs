//! Resolve a per-application configuration file path under the current
//! user's home directory, and decide the filesystem actions around it:
//! which directory a save must create first, and when a delete counts
//! as success.  The filesystem calls themselves, and the serialization
//! codecs, are the callers' side of the boundary.

mod handle;
mod outcome;
mod paths;

pub use handle::HomeConfig;
pub use outcome::delete_outcome;
pub use outcome::IoErrorKind;
pub use paths::direct_path;
pub use paths::has_no_separator;
pub use paths::is_absolute;
pub use paths::joined;
pub use paths::lemma_direct_parent;
pub use paths::lemma_direct_path_form;
pub use paths::lemma_joined_keeps_base;
pub use paths::lemma_namespaced_parent;
pub use paths::lemma_namespaced_path_form;
pub use paths::lemma_parent_of_joined;
pub use paths::namespaced_path;
pub use paths::parent_of;

