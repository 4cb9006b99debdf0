use gpu_cycle::cycle::{compute_plan, frame_plan, Step};
use gpu_cycle::event_loop::SurfaceFault;
use gpu_cycle::progress::Cycle;
use gpu_cycle::workgroups::{BUFFER_SIZE, WORKGROUP_SIZE};

#[test]
fn cycle_hands_out_the_plan_in_order() {
    let plan = compute_plan(BUFFER_SIZE, WORKGROUP_SIZE).unwrap();
    let mut cycle = Cycle::start(plan.clone()).unwrap();
    let mut performed = Vec::new();
    while let Some(step) = cycle.pending() {
        assert_eq!(cycle.outcome(), None);
        performed.push(step);
        cycle.advance(Ok(()));
    }
    assert_eq!(performed, plan);
    assert_eq!(cycle.outcome(), Some(Ok(())));
}

#[test]
fn pending_step_stays_until_its_result_comes() {
    let mut cycle = Cycle::start(frame_plan(3, None)).unwrap();
    assert_eq!(cycle.pending(), Some(Step::Acquire));
    assert_eq!(cycle.pending(), Some(Step::Acquire));
    cycle.advance(Ok(()));
    assert_eq!(cycle.pending(), Some(Step::CreateView));
}

#[test]
fn failed_acquire_drops_the_frame() {
    for fault in [
        SurfaceFault::Timeout,
        SurfaceFault::Outdated,
        SurfaceFault::Lost,
        SurfaceFault::OutOfMemory,
    ] {
        let mut cycle = Cycle::start(frame_plan(3, None)).unwrap();
        assert_eq!(cycle.pending(), Some(Step::Acquire));
        cycle.advance(Err(fault));
        assert_eq!(cycle.pending(), None);
        assert_eq!(cycle.outcome(), Some(Err(fault)));
    }
}

#[test]
fn results_after_the_end_change_nothing() {
    let mut faulted = Cycle::start(frame_plan(3, Some(10))).unwrap();
    faulted.advance(Ok(()));
    faulted.advance(Err(SurfaceFault::Lost));
    faulted.advance(Ok(()));
    faulted.advance(Err(SurfaceFault::OutOfMemory));
    assert_eq!(faulted.pending(), None);
    assert_eq!(faulted.outcome(), Some(Err(SurfaceFault::Lost)));

    let mut finished = Cycle::start(frame_plan(3, None)).unwrap();
    for _ in 0..6 {
        finished.advance(Ok(()));
    }
    assert_eq!(finished.outcome(), Some(Ok(())));
    finished.advance(Err(SurfaceFault::Timeout));
    finished.advance(Ok(()));
    assert_eq!(finished.pending(), None);
    assert_eq!(finished.outcome(), Some(Ok(())));
}

#[test]
fn empty_cycle_has_ended_at_the_start() {
    let cycle = Cycle::start(Vec::new()).unwrap();
    assert_eq!(cycle.pending(), None);
    assert_eq!(cycle.outcome(), Some(Ok(())));
}

#[test]
fn only_complete_cycles_start() {
    assert!(Cycle::start(vec![Step::Submit]).is_none());
    assert!(Cycle::start(vec![Step::OpenEncoder]).is_none());
    assert!(Cycle::start(vec![Step::Acquire, Step::Present]).is_none());
    let mut unread = compute_plan(BUFFER_SIZE, WORKGROUP_SIZE).unwrap();
    unread.pop();
    assert!(Cycle::start(unread).is_none());
    let mut early = compute_plan(BUFFER_SIZE, WORKGROUP_SIZE).unwrap();
    early.swap(5, 6);
    assert!(Cycle::start(early).is_none());
    assert!(Cycle::start(vec![Step::OpenEncoder, Step::Submit]).is_some());
}
