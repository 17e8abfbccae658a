//! What the calls of the library promise, stated of the calls themselves: of what is handed in and
//! what comes back, whatever is handed in.

pub mod basics;
pub mod market;
pub mod memory;
pub mod offers;
pub mod settings;
pub mod steps;
pub mod views;
