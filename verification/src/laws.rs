//! What the library promises as a whole, stated over the inputs and results of
//! its functions.

pub mod answers;
pub mod bounds;
pub mod cards;
pub mod council;
pub mod decisions;
pub mod findings;
pub mod reading;
pub mod records;
pub mod requests;
pub mod sessions;
pub mod spread;
pub mod texts;
pub mod told;
pub mod turns;
pub mod volumes;
pub mod work;
