//! The decision logic of a one-shot screen capture client for compositors that
//! speak the wlr screencopy protocol.
//!
//! The crate holds everything about a capture session that can be stated and
//! proved without a live compositor: the geometry of the shared-memory buffer,
//! the reaction of the session to every protocol event, and the conversion of
//! the delivered pixels into an RGBA image. Talking to the compositor, creating
//! the backing storage and writing the image file are left to the caller, which
//! performs the actions that the session hands out.

pub mod geometry;
pub mod handshake;
pub mod pixels;
pub mod raster;
pub mod registry;
pub mod session;
pub mod trace;
