//! Control logic of an agricultural spraying drone: sensor models, the main
//! control's decisions, and the actuators that carry them out.

mod random;
pub mod structs;
pub mod text;
pub mod sprayers;
pub mod main_control;
pub mod sensors;
pub mod actuators;
pub mod drone;
pub mod laws;
