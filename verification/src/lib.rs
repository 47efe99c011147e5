//! The capability-gated host side of a confined WebAssembly component runtime.
//!
//! A component's WIT-typed imports are backed by capability records: a resource-scoped
//! handle (a `keystore` key or a `filesystem` file) resolves, through a
//! `wasmtime::component::ResourceTable`, to the badge and object id that the component's
//! grant manifest named; every call on a handle is forwarded to the owning service with that
//! badge, and the service's answer is mapped onto the interface's `error-code`.
//! Link-scoped interfaces (`monotonic-clock`) are linked or left unlinked as a whole.
//!
//! - [`services`]: the owning services' interface (badges, object ids, their errors).
//! - [`keystore`], [`filesystem`]: the interfaces' `error-code`s.
//! - [`table`]: the resource table that handles index, as the library models it.
//! - [`host`]: the grant manifest, the per-component state, and the mapping itself.
//! - [`ipc`]: the request sizing and reply checks of the IPC transport to the services.
//! - [`platform`]: the bookkeeping behind the runtime's custom-platform memory hooks.
//! - [`verified`]: the runtime role's artifact-loading order.
//! - [`laws`]: properties that span several operations.

pub mod filesystem;
pub mod host;
pub mod ipc;
pub mod keystore;
pub mod laws;
pub mod platform;
pub mod services;
pub mod table;
pub mod verified;

pub use host::{
    FilesystemService, GrantManifest, HostCapability, HostFile, KeystoreService, LinkPlan,
    MonotonicClock, RuntimeState, ServiceEndpoint, SingleThreadCell, TimeSource,
};

pub use verified::{load_verified_component, LoadError, DEFAULT_FUEL};
