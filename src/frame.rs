use vstd::prelude::*;

verus! {

/// CPU cycles of the first burst of a frame: half a 60 Hz frame at 2 MHz.
pub const HALF_FRAME_CYCLES: u64 = 16667;

/// CPU cycles of a whole frame.
pub const FRAME_CYCLES: u64 = 33334;

/// Interrupt vector delivered on the first frame after power-up.
pub const FIRST_VECTOR: u16 = 0x08;

/// The other interrupt vector.
pub const SECOND_VECTOR: u16 = 0x10;

/// Where a frame stands.
#[derive(Debug, Clone, Copy, PartialEq, Eq, Structural)]
pub enum Phase {
    /// Running the CPU up to the interrupt.
    FirstBurst,
    /// Running the CPU after the interrupt.
    SecondBurst,
    /// The CPU's share of the frame is over.
    Done,
}

/// What the driver of the CPU does next.
#[derive(Debug, Clone, Copy, PartialEq, Eq, Structural)]
pub enum FrameAction {
    /// Execute one instruction and report its cycles.
    Step,
    /// Deliver an interrupt at this vector.
    Interrupt(u16),
    /// Decode video memory, publish the frame and poll the inputs.
    Render,
}

/// The per-frame timing and interrupt state.
#[derive(Debug, Clone, Copy, PartialEq, Eq, Structural)]
pub struct FrameScheduler {
    /// Vector of the next interrupt.
    pub interrupt_addr: u16,
    /// Cycles run so far in this frame.
    pub cycle: u64,
    pub phase: Phase,
}

/// The vector that follows `v`.
pub open spec fn other_vector(v: u16) -> u16 {
    if v == FIRST_VECTOR {
        SECOND_VECTOR
    } else {
        FIRST_VECTOR
    }
}

/// The action a scheduler in state `s` asks for.
pub open spec fn action_of(s: FrameScheduler) -> FrameAction {
    match s.phase {
        Phase::FirstBurst => if s.cycle < HALF_FRAME_CYCLES {
            FrameAction::Step
        } else {
            FrameAction::Interrupt(s.interrupt_addr)
        },
        Phase::SecondBurst => if s.cycle < FRAME_CYCLES {
            FrameAction::Step
        } else {
            FrameAction::Render
        },
        Phase::Done => FrameAction::Render,
    }
}

/// The state after the scheduler in state `s` has asked for its action.
pub open spec fn after_action(s: FrameScheduler) -> FrameScheduler {
    match action_of(s) {
        FrameAction::Step => s,
        FrameAction::Interrupt(v) => FrameScheduler {
            interrupt_addr: other_vector(v),
            phase: Phase::SecondBurst,
            ..s
        },
        FrameAction::Render => FrameScheduler { phase: Phase::Done, ..s },
    }
}

impl FrameScheduler {
    /// The state `power_up` returns.
    pub open spec fn power_up_state() -> FrameScheduler {
        FrameScheduler { interrupt_addr: FIRST_VECTOR, cycle: 0, phase: Phase::FirstBurst }
    }

    /// The interrupt vector is one of the two.
    pub open spec fn wf(&self) -> bool {
        self.interrupt_addr == FIRST_VECTOR || self.interrupt_addr == SECOND_VECTOR
    }

    /// The state at power-up: a fresh frame, the first vector next.
    pub fn power_up() -> (r: FrameScheduler)
        ensures
            r == FrameScheduler::power_up_state(),
            r.wf(),
    {
        FrameScheduler { interrupt_addr: FIRST_VECTOR, cycle: 0, phase: Phase::FirstBurst }
    }

    /// Starts a frame: no cycles run, first burst. The vector carries over.
    pub fn begin_frame(&mut self)
        ensures
            *final(self) == (FrameScheduler { cycle: 0, phase: Phase::FirstBurst, ..*old(self) }),
    {
        self.cycle = 0;
        self.phase = Phase::FirstBurst;
    }

    /// Asks for the next action of the frame. An instruction is run while the
    /// cycles of the current burst fall short of its budget (an instruction
    /// may overrun it); at the end of the first burst the interrupt is
    /// delivered and the vector flipped; at the end of the second the frame
    /// is rendered.
    pub fn next_action(&mut self) -> (r: FrameAction)
        requires
            old(self).wf(),
        ensures
            r == action_of(*old(self)),
            *final(self) == after_action(*old(self)),
            final(self).wf(),
    {
        match self.phase {
            Phase::FirstBurst => {
                if self.cycle < HALF_FRAME_CYCLES {
                    FrameAction::Step
                } else {
                    let v = self.interrupt_addr;
                    self.interrupt_addr = if v == FIRST_VECTOR { SECOND_VECTOR } else { FIRST_VECTOR };
                    self.phase = Phase::SecondBurst;
                    FrameAction::Interrupt(v)
                }
            },
            Phase::SecondBurst => {
                if self.cycle < FRAME_CYCLES {
                    FrameAction::Step
                } else {
                    self.phase = Phase::Done;
                    FrameAction::Render
                }
            },
            Phase::Done => FrameAction::Render,
        }
    }

    /// Adds the cycles of an executed instruction (saturating at the type's
    /// limit).
    pub fn record_cycles(&mut self, cycles: u32)
        ensures
            *final(self) == (FrameScheduler {
                cycle: old(self).cycle.saturating_add(cycles as u64),
                ..*old(self)
            }),
    {
        self.cycle = self.cycle.saturating_add(cycles as u64);
    }
}

/// Ordering of a frame: an instruction of the first burst starts only while
/// fewer than half a frame's cycles have run, the interrupt comes once they
/// have, and it hands the frame to the second burst; the frame renders only
/// once the second burst has used the whole budget.
pub proof fn lemma_burst_order(s: FrameScheduler)
    ensures
        s.phase == Phase::FirstBurst && action_of(s) == FrameAction::Step ==> s.cycle < HALF_FRAME_CYCLES,
        (action_of(s) is Interrupt) ==> s.phase == Phase::FirstBurst && s.cycle >= HALF_FRAME_CYCLES
            && after_action(s).phase == Phase::SecondBurst,
        s.phase == Phase::SecondBurst && action_of(s) == FrameAction::Render ==> s.cycle >= FRAME_CYCLES,
        s.phase != Phase::FirstBurst ==> !(action_of(s) is Interrupt),
{
}

/// The interrupt vector alternates strictly between the two vectors from one
/// frame to the next, starting from the first.
pub proof fn lemma_vector_alternates(s: FrameScheduler)
    requires
        s.wf(),
        action_of(s) is Interrupt,
    ensures
        action_of(s) == FrameAction::Interrupt(s.interrupt_addr),
        after_action(s).wf(),
        after_action(s).interrupt_addr != s.interrupt_addr,
        other_vector(after_action(s).interrupt_addr) == s.interrupt_addr,
        FrameScheduler::power_up_state().interrupt_addr == FIRST_VECTOR,
{
}

/// Drives a scheduler from state `s` for at most `n` actions, handing the cycles
/// `costs` to the successive instructions; stops at the first render or when
/// the costs run out. Returns the final state and the actions asked for.
pub open spec fn drive(s: FrameScheduler, costs: Seq<u32>, n: nat) -> (FrameScheduler, Seq<FrameAction>)
    decreases n,
{
    if n == 0 {
        (s, Seq::empty())
    } else {
        let t = after_action(s);
        match action_of(s) {
            FrameAction::Render => (t, seq![FrameAction::Render]),
            FrameAction::Step => if costs.len() == 0 {
                (s, Seq::empty())
            } else {
                let next = FrameScheduler { cycle: t.cycle.saturating_add(costs[0] as u64), ..t };
                let rest = drive(next, costs.drop_first(), (n - 1) as nat);
                (rest.0, seq![FrameAction::Step] + rest.1)
            },
            FrameAction::Interrupt(v) => {
                let rest = drive(t, costs, (n - 1) as nat);
                (rest.0, seq![FrameAction::Interrupt(v)] + rest.1)
            },
        }
    }
}

/// After the first burst no interrupt comes and the vector stays.
proof fn lemma_drive_after_interrupt(s: FrameScheduler, costs: Seq<u32>, n: nat)
    requires
        s.phase != Phase::FirstBurst,
    ensures
        drive(s, costs, n).0.interrupt_addr == s.interrupt_addr,
        drive(s, costs, n).0.phase != Phase::FirstBurst,
        forall|j: int| 0 <= j < drive(s, costs, n).1.len() ==> !(#[trigger] drive(s, costs, n).1[j] is Interrupt),
    decreases n,
{
    if n > 0 {
        let t = after_action(s);
        if action_of(s) == FrameAction::Step && costs.len() > 0 {
            let next = FrameScheduler { cycle: t.cycle.saturating_add(costs[0] as u64), ..t };
            lemma_drive_after_interrupt(next, costs.drop_first(), (n - 1) as nat);
            let tr = drive(s, costs, n).1;
            let rest = drive(next, costs.drop_first(), (n - 1) as nat).1;
            assert forall|j: int| 0 <= j < tr.len() implies !(#[trigger] tr[j] is Interrupt) by {
                if j > 0 {
                    assert(tr[j] == rest[j - 1]);
                }
            }
        }
    }
}

/// A frame that runs to its render, started in the first burst, delivers
/// exactly one interrupt, at the vector it started with, and leaves the other
/// vector for the next frame: successive frames alternate between the two.
pub proof fn lemma_frame_one_interrupt(s: FrameScheduler, costs: Seq<u32>, n: nat)
    requires
        s.wf(),
        s.phase == Phase::FirstBurst,
        drive(s, costs, n).1.len() > 0,
        drive(s, costs, n).1.last() == FrameAction::Render,
    ensures
        drive(s, costs, n).0.wf(),
        drive(s, costs, n).0.interrupt_addr == other_vector(s.interrupt_addr),
        drive(s, costs, n).0.interrupt_addr != s.interrupt_addr,
        exists|i: int|
            0 <= i < drive(s, costs, n).1.len() && drive(s, costs, n).1[i] == FrameAction::Interrupt(
                s.interrupt_addr,
            ) && forall|j: int|
                0 <= j < drive(s, costs, n).1.len() && j != i ==> !(#[trigger] drive(
                    s,
                    costs,
                    n,
                ).1[j] is Interrupt),
    decreases n,
{
    let t = after_action(s);
    let tr = drive(s, costs, n).1;
    match action_of(s) {
        FrameAction::Step => {
            let next = FrameScheduler { cycle: t.cycle.saturating_add(costs[0] as u64), ..t };
            let m = (n - 1) as nat;
            lemma_frame_one_interrupt(next, costs.drop_first(), m);
            let rest = drive(next, costs.drop_first(), m).1;
            let i = choose|i: int|
                0 <= i < rest.len() && rest[i] == FrameAction::Interrupt(next.interrupt_addr) && forall|j: int|
                    0 <= j < rest.len() && j != i ==> !(#[trigger] rest[j] is Interrupt);
            assert(tr[i + 1] == rest[i]);
            assert forall|j: int| 0 <= j < tr.len() && j != i + 1 implies !(#[trigger] tr[j] is Interrupt) by {
                if j > 0 {
                    assert(tr[j] == rest[j - 1]);
                }
            }
        },
        FrameAction::Interrupt(v) => {
            let m = (n - 1) as nat;
            lemma_drive_after_interrupt(t, costs, m);
            let rest = drive(t, costs, m).1;
            assert(tr[0] == FrameAction::Interrupt(s.interrupt_addr));
            assert forall|j: int| 0 <= j < tr.len() && j != 0 implies !(#[trigger] tr[j] is Interrupt) by {
                assert(tr[j] == rest[j - 1]);
            }
        },
        FrameAction::Render => {},
    }
}

} // verus!
