//! The session: one aggregate that every handler mutates through an
//! exclusive reference.

pub mod connect;
pub mod details;
pub mod fetch;
pub mod activate;
pub mod keys;
pub mod laws;
pub mod modal;
pub mod refresh;
pub mod selection;
pub mod service;
pub mod session;
pub mod view;

pub use fetch::{DetailRequest, ListRequest, Listing, Request};
pub use keys::{Command, Effect, Key};
pub use modal::Mode;
pub use service::{LoadingState, ServiceInfo, ServiceType};
pub use session::App;
pub use view::{centered_shares, RowStyle};
