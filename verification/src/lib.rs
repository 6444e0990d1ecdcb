//! Verified negotiation core for bootstrapping a GPU rendering context.
//!
//! An application window needs a configured, presentable surface before any
//! frame can be drawn.  Producing one is a strictly linear handshake:
//! record the window's pixel size, create a backend instance, create a
//! surface bound to the window, request a compatible adapter, request a
//! logical device and queue, query the surface's capabilities, and assemble
//! a surface configuration from what was recorded and reported.
//!
//! The outside work of that handshake (backend calls, the two asynchronous
//! requests) is performed by the host application.  Everything the handshake
//! *decides* lives here and is verified: which surface format is selected
//! from a capability list, what the assembled configuration holds, how the
//! negotiation advances stage by stage, and how each stage's failure ends it.

pub mod caps;
pub mod config;
pub mod negotiate;
