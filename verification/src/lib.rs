//! A bounded counter driven by a pending action, with round-boundary hooks
//! that mutate it by chance in rounds nobody touched.

pub mod actions;
pub mod event;
pub mod laws;
pub mod model;
pub mod pallet;
pub mod source;

pub use actions::Actions;
pub use event::{Error, Event};
pub use pallet::{Config, Pallet};
pub use source::{ActionSource, Fixed};
