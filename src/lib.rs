//! Placement and hover tracking for overlay windows that follow the cursor
//! across monitors.
//!
//! All geometry is carried as integer points: native coordinates have their
//! origin at the bottom-left of the primary display, logical coordinates at
//! its top-left, scaled down by the display's scale factor.

pub mod callback;
pub mod follower;
pub mod geometry;
pub mod oauth;
pub mod payloads;
pub mod pill;
pub mod placement;
pub mod request;
pub mod screen;
pub mod webview;
