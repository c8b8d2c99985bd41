//! Now-playing metadata for live overlays.
//!
//! A local media player announces what it plays; overlays in a video
//! compositor show it. This library holds what is decided on the way:
//!
//! - [`playback`]: the state, and how each announcement changes it;
//! - [`message`]: the player's wire format;
//! - [`reader`]: the loop that keeps the connection to the player open;
//! - [`registry`] and [`client`]: who is subscribed, what each subscriber is
//!   shown, and how long the shared worker lives;
//! - [`bridge`]: tasks that the host runs once on its render thread;
//! - [`art`], [`raster`], [`texture`] and [`art_source`]: fetching, decoding
//!   and showing album art;
//! - [`data`] and [`text`]: the settings of the text overlay.
//!
//! The network, the threads and the host's own interface stay with the
//! caller.

pub mod art;
pub mod art_source;
pub mod bridge;
pub mod client;
pub mod data;
pub mod message;
pub mod playback;
pub mod raster;
pub mod reader;
pub mod registry;
pub mod text;
pub mod texture;
