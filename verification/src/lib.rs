//! Decision logic for a microphone-to-keyboard color bridge.
//!
//! The library holds everything that can be stated and proved about the
//! program: how an input device is chosen from an enumerated list of names,
//! how a batch of input events determines the microphone state, which color
//! corresponds to which state, the command payload that paints a keyboard,
//! and the state machines that drive server recovery and the main loop.
//! The surrounding process (device files, the RGB server's TCP port,
//! spawning and killing processes) performs the actions these modules
//! decide on.

pub mod color;
pub mod control;
pub mod lifecycle;
pub mod mic;
pub mod resolver;
pub mod session;
