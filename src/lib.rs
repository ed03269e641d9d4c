//! A window whose clear color follows the pointer: the event-driven render loop
//! and the GPU surface context that it drives.

pub mod render_loop;
pub mod context;
