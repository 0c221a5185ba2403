//! Renders discovered UPnP device records through a user-supplied format string.

pub mod device;
pub mod named;
pub mod pipeline;
pub mod query;
pub mod template;
pub mod value;
