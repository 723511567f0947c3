//! A personal time-tracking log.
//!
//! Events are appended to a [`Stream`]; [`replay`] folds a stream into the
//! [`State`] of the entities that are still in effect.

pub mod config;
pub mod error;
pub mod format;
pub mod id;
pub mod io;
pub mod json;
pub mod layout;
pub mod state;
pub mod stream;
pub mod time;
pub mod util;

pub use config::{Config, StreamOrder};
pub use error::Error;
pub use id::Id;
pub use state::{replay, State};
pub use stream::{Entity, Event, Stream};
pub use time::Timestamp;
