//! Request coordination and frame pacing for a wallpaper daemon: command-line
//! value resolution, the length-prefixed wire framing, the single-slot task
//! hub, the frame-paced transition clock, the request dispatcher's decisions,
//! when a frame is drawn, and where the image quad lands on the surface.

pub mod cli;
pub mod dispatch;
pub mod geometry;
pub mod ipc;
pub mod restore;
pub mod server;
pub mod surface;
pub mod transition_state;
