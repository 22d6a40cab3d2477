//! A network drone that relays packets along source routes.
//!
//! A drone receives packets from its neighbours and commands from a simulation
//! controller. Every decision it takes stands in this crate as a verified function
//! from the drone's state and one input to the next state and the actions to
//! perform. Performing them (sending on channels, drawing random numbers) is left to
//! the program around the library.
pub mod action;
pub mod drone;
pub mod generator;
pub mod journey;
pub mod laws;
pub mod meaning;
pub mod packet;
pub mod protocol;
pub mod rate;
