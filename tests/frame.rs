use invaders::frame::{FrameAction, FrameScheduler, Phase, FIRST_VECTOR, FRAME_CYCLES, HALF_FRAME_CYCLES, SECOND_VECTOR};

/// Runs one frame against a stepper whose instructions cost `costs` in turn;
/// returns the vector, the cycles at the interrupt, the steps of each burst.
fn run_frame(s: &mut FrameScheduler, costs: &[u32]) -> (u16, u64, usize, usize) {
    s.begin_frame();
    let mut k = 0;
    let mut vector = 0;
    let mut at_interrupt = 0;
    let mut steps = [0usize; 2];
    loop {
        match s.next_action() {
            FrameAction::Step => {
                if s.phase == Phase::FirstBurst {
                    assert!(s.cycle < HALF_FRAME_CYCLES);
                    steps[0] += 1;
                } else {
                    assert!(s.cycle < FRAME_CYCLES);
                    steps[1] += 1;
                }
                s.record_cycles(costs[k % costs.len()]);
                k += 1;
            }
            FrameAction::Interrupt(v) => {
                assert_eq!(vector, 0);
                vector = v;
                at_interrupt = s.cycle;
            }
            FrameAction::Render => break,
        }
    }
    assert!(s.cycle >= FRAME_CYCLES);
    (vector, at_interrupt, steps[0], steps[1])
}

#[test]
fn power_up_state() {
    let s = FrameScheduler::power_up();
    assert_eq!(s.interrupt_addr, 0x08);
    assert_eq!(s.cycle, 0);
    assert_eq!(s.phase, Phase::FirstBurst);
}

#[test]
fn vectors_alternate() {
    let mut s = FrameScheduler::power_up();
    let mut seen = vec![];
    for _ in 0..5 {
        seen.push(run_frame(&mut s, &[4, 7, 10, 11]).0);
    }
    assert_eq!(seen, vec![FIRST_VECTOR, SECOND_VECTOR, FIRST_VECTOR, SECOND_VECTOR, FIRST_VECTOR]);
    assert_eq!(FIRST_VECTOR, 0x08);
    assert_eq!(SECOND_VECTOR, 0x10);
}

#[test]
fn bursts_split_at_half_frame() {
    let mut s = FrameScheduler::power_up();
    let (_, at_interrupt, first, second) = run_frame(&mut s, &[10]);
    assert_eq!(at_interrupt, 16670);
    assert_eq!(first, 1667);
    assert_eq!(second, 1667);
    assert_eq!(s.cycle, 33340);
}

#[test]
fn overrun_is_tolerated() {
    let mut s = FrameScheduler::power_up();
    let (_, at_interrupt, first, second) = run_frame(&mut s, &[20000]);
    assert_eq!(at_interrupt, 20000);
    assert_eq!(first, 1);
    assert_eq!(second, 1);
    assert_eq!(s.cycle, 40000);
}

#[test]
fn done_frame_keeps_rendering() {
    let mut s = FrameScheduler::power_up();
    run_frame(&mut s, &[18]);
    assert_eq!(s.next_action(), FrameAction::Render);
    assert_eq!(s.phase, Phase::Done);
}

#[test]
fn record_cycles_saturates() {
    let mut s = FrameScheduler::power_up();
    s.cycle = u64::MAX - 1;
    s.record_cycles(5);
    assert_eq!(s.cycle, u64::MAX);
}
