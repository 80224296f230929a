//! A small driver for the BQ25185 standalone linear battery charger.
//!
//! The charger reports its state on two status lines and, where the board
//! wires it, takes a charge-enable line that is active low. The driver owns
//! those lines, decodes the two status levels into a [`Status`] and drives
//! the charge-enable line on request.

pub mod driver;
pub mod error;
pub mod line;

pub use driver::{Bq25185, Status};
pub use error::Bq25185Error;
pub use line::{DigitalInput, DigitalOutput};
