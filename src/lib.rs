//! Deterministic, forkable random number generation for simulations made of
//! many independently updated entities.
pub mod source;
pub mod tier;
pub mod draw;
pub mod global;
pub mod component;
pub mod plugin;
pub mod laws;

pub use crate::component::{RngComponent, SecureRngComponent};
pub use crate::draw::RangeError;
pub use crate::global::{GlobalRng, GlobalSecureRng};
pub use crate::plugin::RngPlugin;
pub use crate::tier::Tier;
