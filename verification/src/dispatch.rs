//! The port dispatcher.
//!
//! The CPU stepping engine reports each port I/O instruction it executed;
//! this module routes the access to the correct peripheral. An `out` write
//! goes to the video shifter's offset (port 2), sound bank A (port 3), the
//! video shifter's refill (port 4), sound bank B (port 5) or the watchdog
//! (port 6, ignored); an `in` read returns port 1, port 2 or the video
//! shifter's window (port 3). Any other port number means the CPU and the
//! emulated hardware have fallen out of step, and is reported as an error
//! rather than ignored.

use vstd::prelude::*;

use crate::Error;
use crate::ports::Port1;
use crate::ports::Port2;
use crate::shifter::VideoShifter;
use crate::shifter::read_value;
use crate::shifter::shifted;
use crate::sound::SoundEvent;
use crate::sound::SoundTriggerBank;
use crate::sound::bank_a_events;
use crate::sound::bank_b_events;

verus! {

/// The peripheral devices a port I/O instruction can reach.
#[derive(Debug)]
pub struct Devices {
    /// Port 1, the first human-input register.
    pub port1: Port1,
    /// Port 2, the second human-input register and the dip switches.
    pub port2: Port2,
    /// The sound trigger bank behind ports 3 and 5.
    pub triggers: SoundTriggerBank,
    /// The video shift register behind ports 2, 3 and 4.
    pub video_shifter: VideoShifter,
}

/// Whether an `out` instruction maps this port to a device (or to the
/// ignored watchdog).
pub open spec fn out_supported(port: u8) -> bool {
    2 <= port <= 6
}

/// Whether an `in` instruction maps this port to a device.
pub open spec fn in_supported(port: u8) -> bool {
    1 <= port <= 3
}

/// How one supported `out` write moves the devices, and which sound events
/// it emits: exactly one device changes, per the port map.
pub open spec fn out_transition(
    pre: Devices,
    post: Devices,
    port: u8,
    value: u8,
    events: Seq<SoundEvent>,
) -> bool {
    &&& post.port1 == pre.port1
    &&& post.port2 == pre.port2
    &&& (port == 2 ==> {
        &&& post.video_shifter.off() == value & 7
        &&& post.video_shifter.reg() == pre.video_shifter.reg()
        &&& post.triggers == pre.triggers
        &&& events == Seq::<SoundEvent>::empty()
    })
    &&& (port == 3 ==> {
        &&& post.triggers.spec_port3() == value
        &&& post.triggers.spec_port5() == pre.triggers.spec_port5()
        &&& post.video_shifter == pre.video_shifter
        &&& events == bank_a_events(pre.triggers.spec_port3(), value)
    })
    &&& (port == 4 ==> {
        &&& post.video_shifter.reg() == shifted(pre.video_shifter.reg(), value)
        &&& post.video_shifter.off() == pre.video_shifter.off()
        &&& post.triggers == pre.triggers
        &&& events == Seq::<SoundEvent>::empty()
    })
    &&& (port == 5 ==> {
        &&& post.triggers.spec_port5() == value
        &&& post.triggers.spec_port3() == pre.triggers.spec_port3()
        &&& post.video_shifter == pre.video_shifter
        &&& events == bank_b_events(pre.triggers.spec_port5(), value)
    })
    &&& (port == 6 ==> post == pre && events == Seq::<SoundEvent>::empty())
}

/// The byte one supported `in` read returns, per the port map.
pub open spec fn in_value(d: Devices, port: u8) -> u8 {
    if port == 1 {
        d.port1.spec_bits()
    } else if port == 2 {
        d.port2.spec_bits()
    } else {
        read_value(d.video_shifter.reg(), d.video_shifter.off())
    }
}

impl Devices {
    /// Performs one `out` write: routes `value`, the CPU's accumulator, to
    /// the device behind `port`, and returns the sound events the write
    /// emitted. An unmapped port changes nothing and is an error.
    pub fn handle_out(&mut self, port: u8, value: u8) -> (r: Result<Vec<SoundEvent>, Error>)
        ensures
            match r {
                Ok(events) => out_supported(port)
                    && out_transition(*old(self), *final(self), port, value, events@),
                Err(e) => !out_supported(port)
                    && e == (Error::UnsupportedPort { port })
                    && *final(self) == *old(self),
            },
    {
        match port {
            2 => {
                self.video_shifter.set_offset(value);
                Ok(Vec::new())
            }
            3 => Ok(self.triggers.write_bank_a(value)),
            4 => {
                self.video_shifter.shift_right(value);
                Ok(Vec::new())
            }
            5 => Ok(self.triggers.write_bank_b(value)),
            6 => Ok(Vec::new()),
            _ => Err(Error::UnsupportedPort { port }),
        }
    }

    /// Performs one `in` read: returns the byte the CPU loads into its
    /// accumulator from the device behind `port`. An unmapped port is an
    /// error.
    pub fn handle_in(&self, port: u8) -> (r: Result<u8, Error>)
        ensures
            match r {
                Ok(value) => in_supported(port) && value == in_value(*self, port),
                Err(e) => !in_supported(port) && e == (Error::UnsupportedPort { port }),
            },
    {
        match port {
            1 => Ok(self.port1.bits()),
            2 => Ok(self.port2.bits()),
            3 => Ok(self.video_shifter.read()),
            _ => Err(Error::UnsupportedPort { port }),
        }
    }
}

impl Default for Devices {
    /// All devices in their power-on state.
    fn default() -> (r: Self)
        ensures
            r.port1.spec_bits() == crate::ports::PORT1_ALWAYS_ONE,
            r.port2.spec_bits() == 0,
            r.triggers.spec_port3() == 0,
            r.triggers.spec_port5() == 0,
            r.video_shifter.reg() == 0,
            r.video_shifter.off() == 0,
    {
        Devices {
            port1: Port1::default(),
            port2: Port2::default(),
            triggers: SoundTriggerBank::default(),
            video_shifter: VideoShifter::default(),
        }
    }
}

/// Round trip through the dispatcher: after an `out` to port 2 sets the
/// offset to the low 3 bits of `value`, an `in` on port 3 returns exactly
/// the video shifter's read — the 8 bits of the unchanged register starting
/// `value & 7` bits from the top. This holds for every offset 0 to 7.
pub proof fn lemma_offset_read_round_trip(
    pre: Devices,
    post: Devices,
    value: u8,
    events: Seq<SoundEvent>,
)
    requires
        out_transition(pre, post, 2, value, events),
    ensures
        in_value(post, 3) == read_value(pre.video_shifter.reg(), value & 7),
        value & 7 <= 7,
{
    assert(value & 7 <= 7) by (bit_vector);
}

} // verus!
