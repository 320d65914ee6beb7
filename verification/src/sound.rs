//! The edge-triggered sound trigger bank.
//!
//! Two write-only ports feed the sound hardware. Each write is compared bit
//! by bit with the previous value of the same port: a loop-type bit starts
//! its sample on a rising edge and stops it on a falling edge, a one-shot
//! bit fires its sample once on a rising edge and is silent otherwise. The
//! bank never touches the audio backend; it yields a list of events that the
//! caller forwards.

use vstd::prelude::*;

verus! {

/// One of the nine audio samples of the machine.
#[derive(Clone, Copy, Debug, PartialEq, Eq, Structural)]
pub enum Sample {
    UfoLowPitch,
    Shoot,
    Explosion,
    InvaderKilled,
    FastInvader1,
    FastInvader2,
    FastInvader3,
    FastInvader4,
    UfoHighPitch,
}

impl Sample {
    /// The position of this sample in the machine's sample set, the order
    /// its asset files are numbered in.
    pub open spec fn spec_index(self) -> usize {
        match self {
            Sample::UfoHighPitch => 0,
            Sample::Shoot => 1,
            Sample::Explosion => 2,
            Sample::InvaderKilled => 3,
            Sample::FastInvader1 => 4,
            Sample::FastInvader2 => 5,
            Sample::FastInvader3 => 6,
            Sample::FastInvader4 => 7,
            Sample::UfoLowPitch => 8,
        }
    }

    /// The position of this sample in the machine's sample set.
    pub fn index(&self) -> (r: usize)
        ensures
            r == self.spec_index(),
            r < 9,
    {
        match self {
            Sample::UfoHighPitch => 0,
            Sample::Shoot => 1,
            Sample::Explosion => 2,
            Sample::InvaderKilled => 3,
            Sample::FastInvader1 => 4,
            Sample::FastInvader2 => 5,
            Sample::FastInvader3 => 6,
            Sample::FastInvader4 => 7,
            Sample::UfoLowPitch => 8,
        }
    }
}

/// One discrete audio event for the audio backend.
#[derive(Clone, Copy, Debug, PartialEq, Eq, Structural)]
pub enum SoundEvent {
    /// Begin playing the sample on repeat.
    StartLoop(Sample),
    /// Stop the repeating sample.
    StopLoop(Sample),
    /// Play the sample once.
    FireOnce(Sample),
}

/// Whether `mask`'s bit goes 0 to 1 between the two values.
pub open spec fn rising(prev: u8, value: u8, mask: u8) -> bool {
    prev & mask == 0 && value & mask != 0
}

/// Whether `mask`'s bit goes 1 to 0 between the two values.
pub open spec fn falling(prev: u8, value: u8, mask: u8) -> bool {
    prev & mask != 0 && value & mask == 0
}

/// The events a loop-type bit emits: start on a rising edge, stop on a
/// falling edge, nothing on a steady value.
pub open spec fn loop_events(prev: u8, value: u8, mask: u8, sample: Sample) -> Seq<SoundEvent> {
    if rising(prev, value, mask) {
        seq![SoundEvent::StartLoop(sample)]
    } else if falling(prev, value, mask) {
        seq![SoundEvent::StopLoop(sample)]
    } else {
        seq![]
    }
}

/// The events a one-shot bit emits: fire once on a rising edge, nothing on
/// a falling edge or a steady value.
pub open spec fn one_shot_events(prev: u8, value: u8, mask: u8, sample: Sample) -> Seq<SoundEvent> {
    if rising(prev, value, mask) {
        seq![SoundEvent::FireOnce(sample)]
    } else {
        seq![]
    }
}

/// The events one write of `value` to bank A (port 3) emits, given the
/// port's previous value: one loop-type bit, then three one-shot bits. The
/// remaining bits of port 3 are undocumented and emit nothing.
pub open spec fn bank_a_events(prev: u8, value: u8) -> Seq<SoundEvent> {
    loop_events(prev, value, 0b0000_0001, Sample::UfoLowPitch)
        + one_shot_events(prev, value, 0b0000_0010, Sample::Shoot)
        + one_shot_events(prev, value, 0b0000_0100, Sample::Explosion)
        + one_shot_events(prev, value, 0b0000_1000, Sample::InvaderKilled)
}

/// The events one write of `value` to bank B (port 5) emits, given the
/// port's previous value: five one-shot bits.
pub open spec fn bank_b_events(prev: u8, value: u8) -> Seq<SoundEvent> {
    one_shot_events(prev, value, 0b0000_0001, Sample::FastInvader1)
        + one_shot_events(prev, value, 0b0000_0010, Sample::FastInvader2)
        + one_shot_events(prev, value, 0b0000_0100, Sample::FastInvader3)
        + one_shot_events(prev, value, 0b0000_1000, Sample::FastInvader4)
        + one_shot_events(prev, value, 0b0001_0000, Sample::UfoHighPitch)
}

/// The sound trigger bank: the previous value of each of the two sound
/// ports, kept to detect edges on the next write.
#[derive(Clone, Copy, Debug)]
pub struct SoundTriggerBank {
    port3: u8,
    port5: u8,
}

impl SoundTriggerBank {
    /// The last value written to port 3 (bank A).
    pub closed spec fn spec_port3(self) -> u8 {
        self.port3
    }

    /// The last value written to port 5 (bank B).
    pub closed spec fn spec_port5(self) -> u8 {
        self.port5
    }

    /// Handles a write to port 3: emits the events of every bank A bit that
    /// changed and stores the value for the next edge comparison. All 256
    /// byte values are legal; undocumented bits survive the round trip but
    /// are never individually named.
    pub fn write_bank_a(&mut self, value: u8) -> (events: Vec<SoundEvent>)
        ensures
            final(self).spec_port3() == value,
            final(self).spec_port5() == old(self).spec_port5(),
            events@ == bank_a_events(old(self).spec_port3(), value),
    {
        let prev = self.port3;
        let mut events: Vec<SoundEvent> = Vec::new();
        if prev & 0b0000_0001 == 0 && value & 0b0000_0001 != 0 {
            events.push(SoundEvent::StartLoop(Sample::UfoLowPitch));
        } else if prev & 0b0000_0001 != 0 && value & 0b0000_0001 == 0 {
            events.push(SoundEvent::StopLoop(Sample::UfoLowPitch));
        }
        if prev & 0b0000_0010 == 0 && value & 0b0000_0010 != 0 {
            events.push(SoundEvent::FireOnce(Sample::Shoot));
        }
        if prev & 0b0000_0100 == 0 && value & 0b0000_0100 != 0 {
            events.push(SoundEvent::FireOnce(Sample::Explosion));
        }
        if prev & 0b0000_1000 == 0 && value & 0b0000_1000 != 0 {
            events.push(SoundEvent::FireOnce(Sample::InvaderKilled));
        }
        self.port3 = value;
        proof {
            assert(events@ =~= bank_a_events(prev, value));
        }
        events
    }

    /// Handles a write to port 5: emits the events of every bank B bit that
    /// changed and stores the value for the next edge comparison.
    pub fn write_bank_b(&mut self, value: u8) -> (events: Vec<SoundEvent>)
        ensures
            final(self).spec_port5() == value,
            final(self).spec_port3() == old(self).spec_port3(),
            events@ == bank_b_events(old(self).spec_port5(), value),
    {
        let prev = self.port5;
        let mut events: Vec<SoundEvent> = Vec::new();
        if prev & 0b0000_0001 == 0 && value & 0b0000_0001 != 0 {
            events.push(SoundEvent::FireOnce(Sample::FastInvader1));
        }
        if prev & 0b0000_0010 == 0 && value & 0b0000_0010 != 0 {
            events.push(SoundEvent::FireOnce(Sample::FastInvader2));
        }
        if prev & 0b0000_0100 == 0 && value & 0b0000_0100 != 0 {
            events.push(SoundEvent::FireOnce(Sample::FastInvader3));
        }
        if prev & 0b0000_1000 == 0 && value & 0b0000_1000 != 0 {
            events.push(SoundEvent::FireOnce(Sample::FastInvader4));
        }
        if prev & 0b0001_0000 == 0 && value & 0b0001_0000 != 0 {
            events.push(SoundEvent::FireOnce(Sample::UfoHighPitch));
        }
        self.port5 = value;
        proof {
            assert(events@ =~= bank_b_events(prev, value));
        }
        events
    }
}

impl Default for SoundTriggerBank {
    /// At power-on both ports read as all zero.
    fn default() -> (r: Self)
        ensures
            r.spec_port3() == 0,
            r.spec_port5() == 0,
    {
        SoundTriggerBank { port3: 0, port5: 0 }
    }
}

/// Writing a value equal to the port's previous value emits no event at
/// all: with no transition on any bit, neither bank produces anything.
pub proof fn lemma_steady_write_is_silent(value: u8)
    ensures
        bank_a_events(value, value) =~= Seq::<SoundEvent>::empty(),
        bank_b_events(value, value) =~= Seq::<SoundEvent>::empty(),
{
}

/// Bank A's loop-type bit emits exactly one `StartLoop` on its rising edge,
/// exactly one `StopLoop` on its falling edge, and neither otherwise; its
/// one-shot bits never emit a `StopLoop`, and each emits its `FireOnce`
/// exactly on its rising edge.
pub proof fn lemma_bank_a_edges(prev: u8, value: u8)
    ensures
        bank_a_events(prev, value).contains(SoundEvent::StartLoop(Sample::UfoLowPitch))
            <==> rising(prev, value, 0b0000_0001),
        bank_a_events(prev, value).contains(SoundEvent::StopLoop(Sample::UfoLowPitch))
            <==> falling(prev, value, 0b0000_0001),
        bank_a_events(prev, value).contains(SoundEvent::FireOnce(Sample::Shoot))
            <==> rising(prev, value, 0b0000_0010),
        bank_a_events(prev, value).contains(SoundEvent::FireOnce(Sample::Explosion))
            <==> rising(prev, value, 0b0000_0100),
        bank_a_events(prev, value).contains(SoundEvent::FireOnce(Sample::InvaderKilled))
            <==> rising(prev, value, 0b0000_1000),
        forall|sample: Sample| sample != Sample::UfoLowPitch
            ==> !bank_a_events(prev, value).contains(SoundEvent::StopLoop(sample)),
{
    broadcast use vstd::seq_lib::lemma_seq_concat_contains_all_elements;

    let la = loop_events(prev, value, 0b0000_0001, Sample::UfoLowPitch);
    let s2 = one_shot_events(prev, value, 0b0000_0010, Sample::Shoot);
    let s4 = one_shot_events(prev, value, 0b0000_0100, Sample::Explosion);
    let s8 = one_shot_events(prev, value, 0b0000_1000, Sample::InvaderKilled);
    if rising(prev, value, 0b0000_0001) {
        assert(la[0] == SoundEvent::StartLoop(Sample::UfoLowPitch));
    } else if falling(prev, value, 0b0000_0001) {
        assert(la[0] == SoundEvent::StopLoop(Sample::UfoLowPitch));
    }
    if rising(prev, value, 0b0000_0010) {
        assert(s2[0] == SoundEvent::FireOnce(Sample::Shoot));
    }
    if rising(prev, value, 0b0000_0100) {
        assert(s4[0] == SoundEvent::FireOnce(Sample::Explosion));
    }
    if rising(prev, value, 0b0000_1000) {
        assert(s8[0] == SoundEvent::FireOnce(Sample::InvaderKilled));
    }
}

/// Every bank B bit is one-shot: each emits its `FireOnce` exactly on its
/// rising edge, and the bank never emits a `StartLoop` or `StopLoop`.
#[verifier::rlimit(60)]
pub proof fn lemma_bank_b_edges(prev: u8, value: u8)
    ensures
        bank_b_events(prev, value).contains(SoundEvent::FireOnce(Sample::FastInvader1))
            <==> rising(prev, value, 0b0000_0001),
        bank_b_events(prev, value).contains(SoundEvent::FireOnce(Sample::FastInvader2))
            <==> rising(prev, value, 0b0000_0010),
        bank_b_events(prev, value).contains(SoundEvent::FireOnce(Sample::FastInvader3))
            <==> rising(prev, value, 0b0000_0100),
        bank_b_events(prev, value).contains(SoundEvent::FireOnce(Sample::FastInvader4))
            <==> rising(prev, value, 0b0000_1000),
        bank_b_events(prev, value).contains(SoundEvent::FireOnce(Sample::UfoHighPitch))
            <==> rising(prev, value, 0b0001_0000),
        forall|sample: Sample| !bank_b_events(prev, value).contains(SoundEvent::StartLoop(sample))
            && !bank_b_events(prev, value).contains(SoundEvent::StopLoop(sample)),
{
    broadcast use vstd::seq_lib::lemma_seq_concat_contains_all_elements;

    let s1 = one_shot_events(prev, value, 0b0000_0001, Sample::FastInvader1);
    let s2 = one_shot_events(prev, value, 0b0000_0010, Sample::FastInvader2);
    let s4 = one_shot_events(prev, value, 0b0000_0100, Sample::FastInvader3);
    let s8 = one_shot_events(prev, value, 0b0000_1000, Sample::FastInvader4);
    let s16 = one_shot_events(prev, value, 0b0001_0000, Sample::UfoHighPitch);
    if rising(prev, value, 0b0000_0001) {
        assert(s1[0] == SoundEvent::FireOnce(Sample::FastInvader1));
    }
    if rising(prev, value, 0b0000_0010) {
        assert(s2[0] == SoundEvent::FireOnce(Sample::FastInvader2));
    }
    if rising(prev, value, 0b0000_0100) {
        assert(s4[0] == SoundEvent::FireOnce(Sample::FastInvader3));
    }
    if rising(prev, value, 0b0000_1000) {
        assert(s8[0] == SoundEvent::FireOnce(Sample::FastInvader4));
    }
    if rising(prev, value, 0b0001_0000) {
        assert(s16[0] == SoundEvent::FireOnce(Sample::UfoHighPitch));
    }
}

} // verus!
