//! Client-side model of the MX Remote protocol used by Pulse-Eight MatrixOS
//! devices, with the shapes and results a C caller reads.

pub mod ident;
pub mod net;
pub mod error;
pub mod text;
pub mod abi;
pub mod schedule;
pub mod types;
pub mod bits;
pub mod registry;
pub mod control;
pub mod info;
pub mod cabi;
pub mod config;
pub mod event;
pub mod frame;
