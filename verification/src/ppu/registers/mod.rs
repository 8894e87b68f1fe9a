//! The registers of the picture unit.

pub mod addr;
pub mod controller;
pub mod mask;
pub mod scroll;
pub mod status;
