//! The object lifetime layer between a host object system, which counts the
//! shares of its native objects, and code embedded in it: owning handles
//! (`Gd`), the non-counting handle that a user instance holds to its own
//! host object (`Base`), the storage cell that follows a host object from
//! construction to destruction, and the catalogue of exported classes.

pub mod base;
pub mod gd;
pub mod host;
pub mod ids;
pub mod laws;
pub mod private;
pub mod registry;
pub mod storage;
pub mod text;

pub use base::Base;
pub use gd::{CastError, Gd};
pub use host::{Host, HostRequest};
pub use ids::{HostPointer, InstanceId};
pub use registry::{ClassPlugin, MethodEntry, PluginRegistry, RegistryError};
pub use storage::{Dispatch, InstanceStorage, Lifecycle};
