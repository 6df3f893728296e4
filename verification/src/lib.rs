//! Navigation core of a terminal browser over cloud-resource catalogs.
//!
//! The library owns the session state: which service is active, the rows on
//! screen with their roles, the cursor, the modal popups, the hierarchical
//! path, and how the outcome of a backend call is folded back into the
//! session. It performs no I/O: a driver reads keys, performs the requests the
//! session hands out, and gives the outcomes back.

pub mod app;
pub mod aws;
pub mod path;
pub mod text;
