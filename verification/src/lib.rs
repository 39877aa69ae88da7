//! Logic of a small reactive user interface: colour feedback for buttons
//! under pointer interaction, and a clamped scroll offset for a list panel
//! that may hold more content than it can show.
//!
//! The host engine owns the update loop, the node tree and the input
//! devices. Each tick it reports interaction states, wheel events and
//! computed geometry as plain values; the functions here decide the new
//! colours and the new scroll offset, and the host applies them.

pub mod interaction;
pub mod scroll;
