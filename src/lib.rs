//! The host-facing core of a gain plugin with an embedded editor window: the
//! editor's lifecycle and window description, the bounded handoff that carries
//! parameter changes to the editor's thread, and the declared parameter and
//! audio layout.

pub mod bridge;
pub mod params;
pub mod session;
pub mod window;
