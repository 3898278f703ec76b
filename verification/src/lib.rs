//! A singleton global input-device listener core: a guard that admits at most
//! one listening session, and an event pipeline that classifies raw platform
//! input events into domain events and hands them, in arrival order, to a
//! downstream sink.

pub mod events;
pub mod guard;
pub mod listener;
pub mod pipeline;
