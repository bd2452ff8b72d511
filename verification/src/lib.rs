//! Host-side driver for a field-oriented-control motor peripheral on a
//! two-wire serial bus: command registry, frame codec and transactions.

pub mod wire;
pub mod binary32;
pub mod cmd;
pub mod conf;
pub mod ctrl;
pub mod decimal;
