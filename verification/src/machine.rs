//! The Space Invaders arcade machine.
//!
//! One machine owns the addressable memory (the ROM images loaded
//! contiguously from address 0, with the framebuffer window inside), the
//! peripheral devices, and the receiving end of the rendezvous channel the
//! interrupt-generation activity sends through. The CPU stepping engine
//! drives it from outside: after each fetched-and-executed instruction (or
//! injected interrupt frame) the engine reports the instruction bytes, the
//! accumulator and the cycle cost to `update`, which dispatches any port
//! I/O to the devices and keeps the machine's cycle total.

use std::sync::mpsc::Receiver;

use vstd::prelude::*;
use vstd::slice::slice_subrange;

use crate::Error;
use crate::dispatch::Devices;
use crate::dispatch::in_supported;
use crate::dispatch::in_value;
use crate::dispatch::out_supported;
use crate::dispatch::out_transition;
use crate::sound::SoundEvent;

verus! {

/// The size of the machine's addressable memory.
pub const MEMORY_SIZE: usize = 0x1_0000;

/// The first address of the framebuffer window.
pub const VIDEO_RAM_START: usize = 0x2400;

/// The first address past the framebuffer window.
pub const VIDEO_RAM_END: usize = 0x4000;

/// The size of the framebuffer window: 256 x 224 pixels, 1 bit each.
pub const FRAMEBUFFER_LEN: usize = 0x1C00;

/// The memory contents the ROM images produce: each image in order,
/// loaded contiguously starting at address 0.
pub open spec fn rom_image(roms: Seq<Seq<u8>>) -> Seq<u8> {
    roms.flatten()
}

/// Whether the instruction is the `out` port-I/O form: the one-byte
/// opcode, the port number, and zero padding.
pub open spec fn is_out(instruction: Seq<u8>) -> bool {
    instruction.len() == 3 && instruction[0] == 0xD3 && instruction[2] == 0
}

/// Whether the instruction is the `in` port-I/O form.
pub open spec fn is_in(instruction: Seq<u8>) -> bool {
    instruction.len() == 3 && instruction[0] == 0xDB && instruction[2] == 0
}

/// The port number of a port-I/O instruction.
pub open spec fn io_port(instruction: Seq<u8>) -> u8 {
    instruction[1]
}

/// What one `update` call hands back to the CPU stepping engine and the
/// audio backend.
#[derive(Debug)]
pub struct UpdateOutcome {
    /// The sound events the dispatched write emitted, to forward to the
    /// audio backend.
    pub sound_events: Vec<SoundEvent>,
    /// The byte an `in` instruction loads into the CPU's accumulator.
    pub accumulator_write: Option<u8>,
}

/// This struct is not verified by Verus; it only declares the standard
/// channel receiver type so that the machine can own one.
#[verifier::external_type_specification]
#[verifier::external_body]
#[verifier::reject_recursive_types(T)]
pub struct ExReceiver<T>(Receiver<T>);

/// Relies on `std::sync::mpsc::Receiver::try_recv`: takes the pending
/// message if one is waiting and never blocks. Whether a message is
/// waiting depends on the sending side, so nothing is promised of the
/// result.
#[verifier::external_body]
fn try_recv_interrupt(receiver: &Receiver<[u8; 3]>) -> (r: Option<[u8; 3]>) {
    receiver.try_recv().ok()
}

/// A Space Invaders arcade machine.
#[derive(Debug)]
pub struct SpaceInvaders {
    /// The addressable memory: the ROM images, then zeroed RAM, with the
    /// framebuffer window at `VIDEO_RAM_START`.
    pub memory: Vec<u8>,
    /// The receiving end of the rendezvous channel the interrupt
    /// generation activity sends through.
    pub interrupt_receiver: Receiver<[u8; 3]>,
    /// The peripheral devices port I/O reaches.
    pub devices: Devices,
    /// The summed cycle costs of every instruction reported so far.
    pub states: u64,
}

impl SpaceInvaders {
    /// A machine is well formed when its memory spans the full address
    /// space. Construction establishes this and every operation keeps it.
    pub open spec fn wf(self) -> bool {
        self.memory@.len() == MEMORY_SIZE
    }

    /// The machine's memory contents.
    pub open spec fn mem(self) -> Seq<u8> {
        self.memory@
    }

    /// The summed cycle costs of every instruction reported so far.
    pub open spec fn cycle_total(self) -> u64 {
        self.states
    }

    /// Constructs a new machine: loads the ROM images contiguously into
    /// memory starting at address 0, zeroes the rest, and puts every
    /// device into its power-on state. Fails exactly when the images do
    /// not fit into the address space.
    pub fn new(roms: &Vec<Vec<u8>>, interrupt_receiver: Receiver<[u8; 3]>) -> (r: Result<
        SpaceInvaders,
        Error,
    >)
        ensures
            match r {
                Ok(machine) => {
                    &&& machine.wf()
                    &&& rom_image(roms.deep_view()).len() <= MEMORY_SIZE
                    &&& machine.mem() == rom_image(roms.deep_view()) + Seq::new(
                        (MEMORY_SIZE - rom_image(roms.deep_view()).len()) as nat,
                        |k: int| 0u8,
                    )
                    &&& machine.devices.port1.spec_bits() == crate::ports::PORT1_ALWAYS_ONE
                    &&& machine.devices.port2.spec_bits() == 0
                    &&& machine.devices.triggers.spec_port3() == 0
                    &&& machine.devices.triggers.spec_port5() == 0
                    &&& machine.devices.video_shifter.reg() == 0
                    &&& machine.devices.video_shifter.off() == 0
                    &&& machine.cycle_total() == 0
                },
                Err(e) => {
                    &&& e == Error::Engine
                    &&& rom_image(roms.deep_view()).len() > MEMORY_SIZE
                },
            },
    {
        let ghost images = roms.deep_view();
        let mut memory: Vec<u8> = Vec::new();
        let mut i: usize = 0;
        while i < roms.len()
            invariant
                i <= roms@.len(),
                images == roms.deep_view(),
                memory@ == images.take(i as int).flatten(),
                memory@.len() <= MEMORY_SIZE,
            decreases roms@.len() - i,
        {
            let rom: &Vec<u8> = &roms[i];
            proof {
                assert(rom@ =~= images[i as int]);
            }
            if rom.len() > MEMORY_SIZE - memory.len() {
                proof {
                    lemma_flatten_prefix_len(images, i as int);
                }
                return Err(Error::Engine);
            }
            let ghost prefix = memory@;
            let mut j: usize = 0;
            while j < rom.len()
                invariant
                    j <= rom@.len(),
                    memory@ == prefix + rom@.take(j as int),
                    prefix.len() + rom@.len() <= MEMORY_SIZE,
                decreases rom@.len() - j,
            {
                memory.push(rom[j]);
                proof {
                    assert(memory@ =~= prefix + rom@.take(j as int + 1));
                }
                j = j + 1;
            }
            proof {
                images.take(i as int).lemma_flatten_push(images[i as int]);
                assert(images.take(i as int).push(images[i as int]) =~= images.take(i as int + 1));
                assert(rom@.take(rom@.len() as int) =~= rom@);
            }
            i = i + 1;
        }
        proof {
            assert(images.take(roms@.len() as int) =~= images);
        }
        let ghost loaded = memory@;
        while memory.len() < MEMORY_SIZE
            invariant
                loaded.len() <= memory@.len() <= MEMORY_SIZE,
                loaded == rom_image(images),
                memory@ == loaded + Seq::new((memory@.len() - loaded.len()) as nat, |k: int| 0u8),
            decreases MEMORY_SIZE - memory@.len(),
        {
            memory.push(0);
            proof {
                assert(memory@ =~= loaded + Seq::new(
                    (memory@.len() - loaded.len()) as nat,
                    |k: int| 0u8,
                ));
            }
        }
        Ok(SpaceInvaders {
            memory,
            interrupt_receiver,
            devices: Devices::default(),
            states: 0,
        })
    }

    /// Returns a shared reference to the framebuffer: the fixed window of
    /// memory holding the 256 x 224 1-bit-per-pixel packed frame.
    pub fn framebuffer(&self) -> (r: &[u8])
        requires
            self.wf(),
        ensures
            r@ == self.mem().subrange(VIDEO_RAM_START as int, VIDEO_RAM_END as int),
            r@.len() == FRAMEBUFFER_LEN,
    {
        slice_subrange(self.memory.as_slice(), VIDEO_RAM_START, VIDEO_RAM_END)
    }

    /// Takes the pending interrupt message out of the rendezvous channel,
    /// if the interrupt-generation activity is offering one. When it
    /// returns a message, the state-advance loop injects that frame into
    /// the CPU instead of fetching an instruction, then reports the
    /// injection through `update` like any other executed instruction.
    pub fn pending_interrupt(&self) -> Option<[u8; 3]> {
        try_recv_interrupt(&self.interrupt_receiver)
    }

    /// Handles the CPU stepping engine's report of one executed
    /// instruction: dispatches the two port-I/O instruction forms to the
    /// devices and adds the reported cycle cost to the machine's total
    /// (saturating, so the total only ever grows). Every other instruction
    /// only costs cycles. Port I/O on an unmapped port changes nothing
    /// and is an error, since it means the emulated hardware no longer
    /// matches the CPU's expectations.
    pub fn update(&mut self, instruction: [u8; 3], accumulator: u8, states: u32) -> (r: Result<
        UpdateOutcome,
        Error,
    >)
        requires
            old(self).wf(),
        ensures
            final(self).wf(),
            final(self).mem() == old(self).mem(),
            match r {
                Ok(outcome) => {
                    &&& final(self).cycle_total() == if old(self).cycle_total() + states
                        <= u64::MAX {
                        (old(self).cycle_total() + states) as u64
                    } else {
                        u64::MAX
                    }
                    &&& final(self).cycle_total() >= old(self).cycle_total()
                    &&& if is_out(instruction@) {
                        &&& out_supported(io_port(instruction@))
                        &&& out_transition(
                            old(self).devices,
                            final(self).devices,
                            io_port(instruction@),
                            accumulator,
                            outcome.sound_events@,
                        )
                        &&& outcome.accumulator_write is None
                    } else if is_in(instruction@) {
                        &&& in_supported(io_port(instruction@))
                        &&& final(self).devices == old(self).devices
                        &&& outcome.accumulator_write == Some(
                            in_value(old(self).devices, io_port(instruction@)),
                        )
                        &&& outcome.sound_events@ == Seq::<SoundEvent>::empty()
                    } else {
                        &&& final(self).devices == old(self).devices
                        &&& outcome.accumulator_write is None
                        &&& outcome.sound_events@ == Seq::<SoundEvent>::empty()
                    }
                },
                Err(e) => {
                    &&& *final(self) == *old(self)
                    &&& e == (Error::UnsupportedPort { port: io_port(instruction@) })
                    &&& (is_out(instruction@) && !out_supported(io_port(instruction@)))
                        || (is_in(instruction@) && !in_supported(io_port(instruction@)))
                },
            },
    {
        let new_total: u64 = if self.states <= u64::MAX - (states as u64) {
            self.states + states as u64
        } else {
            u64::MAX
        };
        if instruction[0] == 0xD3 && instruction[2] == 0 {
            match self.devices.handle_out(instruction[1], accumulator) {
                Ok(events) => {
                    self.states = new_total;
                    Ok(UpdateOutcome { sound_events: events, accumulator_write: None })
                }
                Err(e) => Err(e),
            }
        } else if instruction[0] == 0xDB && instruction[2] == 0 {
            match self.devices.handle_in(instruction[1]) {
                Ok(value) => {
                    self.states = new_total;
                    Ok(UpdateOutcome { sound_events: Vec::new(), accumulator_write: Some(value) })
                }
                Err(e) => Err(e),
            }
        } else {
            self.states = new_total;
            Ok(UpdateOutcome { sound_events: Vec::new(), accumulator_write: None })
        }
    }

    /// The summed cycle costs of every instruction reported so far.
    pub fn cycles(&self) -> (r: u64)
        ensures
            r == self.cycle_total(),
    {
        self.states
    }
}

/// The full ROM image is at least as long as the images up to `k` plus
/// image `k` itself.
proof fn lemma_flatten_prefix_len(images: Seq<Seq<u8>>, k: int)
    requires
        0 <= k < images.len(),
    ensures
        images.flatten().len() >= images.take(k).flatten().len() + images[k].len(),
    decreases images.len() - k,
{
    images.take(k).lemma_flatten_push(images[k]);
    assert(images.take(k).push(images[k]) =~= images.take(k + 1));
    if k + 1 < images.len() {
        lemma_flatten_prefix_len(images, k + 1);
    } else {
        assert(images.take(k + 1) =~= images);
    }
}

} // verus!
