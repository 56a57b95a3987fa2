//! A bridge from chat commands to the playback queue of a music service.
//!
//! A message body is classified by the [`router`], the resulting command is
//! worked off step by step by the [`handlers`], each step asking one thing of
//! the [`gateway`], and what comes back is rendered by [`formatted`] into the
//! response for the room. [`dispatch`] ties the first two together for one
//! message event.

pub mod dispatch;
pub mod formatted;
pub mod gateway;
pub mod handlers;
pub mod memory;
pub mod model;
pub mod router;
pub mod text;
