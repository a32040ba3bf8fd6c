//! Event-driven terminal shell for a small pet register: the menu, the
//! notifications that flow from the input sampler to the dispatcher, the
//! dispatcher's state machine, the sampler's timing rules and the frame layout.
pub mod dispatcher;
pub mod error;
pub mod event;
pub mod layout;
pub mod menu;
mod outside;
pub mod pet;
pub mod sampler;

pub use dispatcher::{Action, Dispatcher};
pub use error::DbError;
pub use event::{Event, Key};
pub use layout::{frame_layout, Area, FrameLayout};
pub use menu::MenuItem;
pub use pet::Pet;
pub use sampler::Sampler;
