//! A small bank-of-lifts simulation.
//!
//! A [`lift::Lift`](lift::Lift) tracks one car's floor and its queue of
//! requested floors; a [`system::System`](system::System) owns the floor
//! range, the cars, and the pending hall calls, advances the whole building
//! one step per tick, and renders a textual snapshot of it.

pub mod lift;
pub mod system;
pub mod text;
