//! Reproducible-build verification service: the verified core.
//!
//! Code identifiers and their normalisation, content hashing, the job store,
//! the build workspace rules, and the scheduler's decisions.
pub mod builder;
pub mod consts;
pub mod container;
pub mod digest;
pub mod error;
pub mod model;
pub mod network_client;
pub mod scheduler;
pub mod store;
pub mod text;
pub mod types;
pub mod util;

pub use builder::{BuildArtifacts, BuildError};
pub use model::{Code, Idl, Network, Verification, VerificationStatus};
pub use network_client::AppClients;
pub use store::Store;
