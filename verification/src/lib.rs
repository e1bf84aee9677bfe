//! Bridges a poll-based native resource into a reactor-driven stream of
//! payload-free change notifications.
//!
//! A native library that is driven by `poll()` exposes a set of descriptors
//! and a way to clear the events pending on them. A reactor wants each
//! descriptor registered once and then wakes its tasks on readiness edges.
//! The bridge stands between the two:
//!
//! * [`capability`] names what the bridge asks of either side;
//! * [`registrar`] carries a descriptor set through the reactor's
//!   registration protocol;
//! * [`stream`] turns wake-ups into one notification per drain cycle;
//! * [`journal`] gives the collaborators a memory, over which every
//!   contract is stated;
//! * [`laws`] proves what holds of every run;
//! * [`mio_registry`] carries the registration protocol out on a `mio::Poll`.

pub mod capability;
pub mod error;
pub mod journal;
pub mod laws;
pub mod mio_registry;
pub mod registrar;
pub mod stream;

pub use crate::capability::{
    EventMask, FdId, PollableResource, Readiness, ReadinessSource, Registry,
};
pub use crate::error::{BridgeError, RegistryOp, ResourceOp};
pub use crate::journal::{JournaledReactor, JournaledResource};
pub use crate::mio_registry::MioRegistry;
pub use crate::registrar::DescriptorSetRegistrar;
pub use crate::stream::{
    EdgeTriggeredNotificationStream, Lifecycle, NotificationEvent, Progress, Rejected,
    StreamPhase,
};
