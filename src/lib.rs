//! Connection supervision for a station-mode wireless interface: bounded
//! client credentials and the decision logic that keeps the radio associated.

pub mod credentials;
pub mod supervisor;
