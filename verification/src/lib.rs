//! Emulation core for the peripheral hardware of the Space Invaders arcade
//! machine: the port-mapped input registers, the video shift register, the
//! edge-triggered sound triggers, the port dispatcher that routes CPU port
//! I/O to those devices, and the decision logic of the real-time scheduler.
//!
//! The instruction-level CPU stepping engine is an external collaborator: it
//! hands this core the instruction it executed together with the accumulator
//! value and its cycle cost, and takes back the byte to load on a port read.

pub mod dispatch;
pub mod input;
pub mod machine;
pub mod ports;
pub mod scheduler;
pub mod shifter;
pub mod sound;
pub mod texels;

use vstd::prelude::*;

pub use dispatch::Devices;
pub use input::InputKey;
pub use machine::SpaceInvaders;
pub use machine::UpdateOutcome;
pub use ports::Port1;
pub use ports::Port1Flag;
pub use ports::Port2;
pub use ports::Port2Flag;
pub use scheduler::Interrupt;
pub use scheduler::InterruptGenerator;
pub use shifter::VideoShifter;
pub use sound::Sample;
pub use sound::SoundEvent;
pub use sound::SoundTriggerBank;

verus! {

/// The width of the screen of the Space Invaders arcade machine.
pub const SCREEN_WIDTH: u32 = 224;

/// The height of the screen of the Space Invaders arcade machine.
pub const SCREEN_HEIGHT: u32 = 256;

/// An error that can occur in this crate.
#[derive(Clone, Copy, Debug, PartialEq, Eq, Structural)]
pub enum Error {
    /// The ROM images do not fit into the machine's address space.
    Engine,
    /// ROM or sample data could not be read.
    Io,
    /// The CPU performed port I/O on a port with no mapped device.
    UnsupportedPort { port: u8 },
}

impl Error {
    /// A human-readable description of the error.
    pub fn message(&self) -> &'static str {
        match self {
            Error::Engine => "the ROM images do not fit into the machine's address space",
            Error::Io => "ROM or sample data could not be read",
            Error::UnsupportedPort { port: _ } => "port I/O on a port with no mapped device",
        }
    }
}

} // verus!
