//! An interactive, terminal-based single-choice selector.
//!
//! The verified core is a selection state machine: it owns the item list,
//! the cursor, and the redraw flags, and decides for every tick of the
//! interactive loop what changed and what must be repainted. Terminal I/O,
//! threads and channels live outside the library; they feed the machine
//! plain events and interpret the draw commands it hands back.

pub mod draw;
pub mod engine;
pub mod events;
pub mod laws;
pub mod layout;

pub use draw::DrawCmd;
pub use engine::{Engine, Render, TickPlan};
pub use events::InputEvent;
pub use layout::Layout;
