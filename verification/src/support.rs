pub mod events;
pub mod threaded;
