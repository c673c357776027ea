//! Plain-value core of a windowed full-screen shader demo.
//!
//! The GPU and windowing work (adapter and device acquisition, swap chain
//! creation, command encoding, presentation) is done by the caller; this crate
//! decides what that work is: the presentation surface's configuration, the
//! plan for each frame together with the elapsed-time uniform, and the
//! reaction of the event loop to each window event.
pub mod surface;
pub mod frame;
pub mod event_loop;
