//! Decision logic of the real-time scheduler.
//!
//! Three independently clocked activities share the machine: the
//! state-advance loop executes instructions until it has caught up with
//! wall-clock time, the interrupt-generation loop hands the CPU two vectored
//! interrupts per video frame through a rendezvous channel, and the render
//! loop snapshots the framebuffer once per frame. The waits, threads and
//! channel live with the caller; this module fixes what each tick decides.

use vstd::prelude::*;

verus! {

/// The CPU's clock rate, in abstract cycle units per microsecond of wall
/// time: 2 MHz, so 2 units per microsecond.
pub const STATES_PER_MICROSECOND: u128 = 2;

/// How many cycle units the state-advance loop owes the machine for a tick
/// that covered `elapsed_micros` microseconds of wall time. The loop then
/// executes instructions until their summed cycle costs reach this budget.
pub fn states_budget(elapsed_micros: u128) -> (r: u128)
    requires
        elapsed_micros <= u128::MAX / STATES_PER_MICROSECOND,
    ensures
        r == elapsed_micros * STATES_PER_MICROSECOND,
{
    elapsed_micros * STATES_PER_MICROSECOND
}

/// One of the two vectored interrupts the video hardware raises each frame.
#[derive(Clone, Copy, Debug, PartialEq, Eq, Structural)]
pub enum Interrupt {
    /// RST 1, raised when the beam reaches the middle of the screen.
    ScanlineMiddle,
    /// RST 2, raised at the start of the vertical blank.
    VerticalBlank,
}

/// The other vector: the two strictly alternate.
pub open spec fn next_vector(vector: Interrupt) -> Interrupt {
    match vector {
        Interrupt::ScanlineMiddle => Interrupt::VerticalBlank,
        Interrupt::VerticalBlank => Interrupt::ScanlineMiddle,
    }
}

/// The vector of the `i`-th interrupt of a run, counting from zero: the
/// middle-of-screen vector first, then strictly alternating.
pub open spec fn scheduled_vector(i: int) -> Interrupt {
    if i % 2 == 0 {
        Interrupt::ScanlineMiddle
    } else {
        Interrupt::VerticalBlank
    }
}

impl Interrupt {
    /// The 3-byte instruction frame that injects this interrupt into the
    /// CPU: a one-byte RST opcode padded with zeros.
    pub open spec fn spec_encode(self) -> Seq<u8> {
        match self {
            Interrupt::ScanlineMiddle => seq![0xCFu8, 0u8, 0u8],
            Interrupt::VerticalBlank => seq![0xD7u8, 0u8, 0u8],
        }
    }

    /// The 3-byte instruction frame that injects this interrupt into the
    /// CPU.
    pub fn encode(&self) -> (r: [u8; 3])
        ensures
            r@ == self.spec_encode(),
    {
        let r: [u8; 3] = match self {
            Interrupt::ScanlineMiddle => [0xCF, 0, 0],
            Interrupt::VerticalBlank => [0xD7, 0, 0],
        };
        proof {
            assert(r@ =~= self.spec_encode());
        }
        r
    }
}

/// The interrupt-generation activity's state: which vector it sends next.
pub struct InterruptGenerator {
    next: Interrupt,
}

impl InterruptGenerator {
    /// The vector the next call will produce.
    pub closed spec fn spec_next(self) -> Interrupt {
        self.next
    }

    /// Produces the next interrupt to send and alternates the vector.
    pub fn next_interrupt(&mut self) -> (r: Interrupt)
        ensures
            r == old(self).spec_next(),
            final(self).spec_next() == next_vector(old(self).spec_next()),
    {
        let r = self.next;
        self.next = match self.next {
            Interrupt::ScanlineMiddle => Interrupt::VerticalBlank,
            Interrupt::VerticalBlank => Interrupt::ScanlineMiddle,
        };
        r
    }
}

impl Default for InterruptGenerator {
    /// A fresh generator: the first interrupt of a run is the
    /// middle-of-screen vector.
    fn default() -> (r: Self)
        ensures
            r.spec_next() == Interrupt::ScanlineMiddle,
    {
        InterruptGenerator { next: Interrupt::ScanlineMiddle }
    }
}

/// Interrupt ordering: any sequence of vectors that starts with the
/// middle-of-screen vector and alternates step by step — exactly what
/// successive `next_interrupt` calls on a fresh generator produce — is,
/// position by position, the scheduled strict alternation: middle of
/// screen, vertical blank, middle of screen, and so on.
pub proof fn lemma_interrupt_ordering(vectors: Seq<Interrupt>)
    requires
        vectors.len() > 0 ==> vectors[0] == Interrupt::ScanlineMiddle,
        forall|i: int| 0 <= i && i + 1 < vectors.len()
            ==> vectors[i + 1] == next_vector(#[trigger] vectors[i]),
    ensures
        forall|i: int| 0 <= i < vectors.len() ==> #[trigger] vectors[i] == scheduled_vector(i),
{
    assert forall|i: int| 0 <= i < vectors.len() implies #[trigger] vectors[i]
        == scheduled_vector(i) by {
        lemma_alternation_at(vectors, i);
    }
}

/// Position `i` of an alternating run holds the scheduled vector.
proof fn lemma_alternation_at(vectors: Seq<Interrupt>, i: int)
    requires
        0 <= i < vectors.len(),
        vectors[0] == Interrupt::ScanlineMiddle,
        forall|j: int| 0 <= j && j + 1 < vectors.len()
            ==> vectors[j + 1] == next_vector(#[trigger] vectors[j]),
    ensures
        vectors[i] == scheduled_vector(i),
    decreases i,
{
    if i > 0 {
        lemma_alternation_at(vectors, i - 1);
        assert(vectors[(i - 1) + 1] == next_vector(vectors[i - 1]));
    }
}

} // verus!
