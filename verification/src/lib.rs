pub mod border;
pub mod events;
pub mod rect;
