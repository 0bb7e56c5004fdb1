pub mod event;
pub mod iterator;

pub use event::{Definition, Event, Scope};
pub use iterator::Iterator;
