//! Tracking of named remote compute instances: the records a cloud provider
//! reports, the capability interface every provider adapter offers, the local
//! profile store with its active alias, and the connection descriptor handed
//! to `ssh` and `scp`.

pub mod aws;
pub mod cloud;
pub mod command;
pub mod connect;
pub mod error;
pub mod path;
pub mod profile;
pub mod text;

pub use connect::ConnectionInfo;
pub use cloud::{Instance, InstanceManager, InstanceTag, StateChange};
pub use error::RemoteError;
pub use profile::{Cloud, InstanceConfig, ProfileConfig};
