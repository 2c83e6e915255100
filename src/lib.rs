//! Generators of plausible random values for tests and simulations: network
//! addresses drawn from address ranges, algorithmically generated domain names,
//! host and server names, identifiers, time series and time-zone lookups.

pub mod text;
pub mod random;
pub mod ranges;
pub mod networking;
pub mod utils;
pub mod constants;
pub mod internet;
pub mod datetime;
pub mod tz_data;
pub mod tz;
pub mod operatingsystems;
pub mod database;
pub mod fcks;
