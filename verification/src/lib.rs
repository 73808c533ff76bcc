//! A model of a native icon resource and its builder.
//!
//! An [`Icon`](icon::Icon) wraps the in-process handle of a loaded icon
//! resource together with an ownership flag, so that only handles created by
//! the builder are ever released. [`IconBuilder`](icon::IconBuilder) collects
//! one of several mutually exclusive sources (a file path, an in-memory
//! buffer, a stock OEM icon, or an entry of an embedded resource table) and
//! resolves them, in a fixed order of precedence, into the single source that
//! the platform loader is asked to realize. The loader itself is owned by the
//! operating system and stays outside this crate; handles cross the boundary
//! as plain integers.

pub mod embed;
pub mod errors;
pub mod icon;
pub mod oem;
