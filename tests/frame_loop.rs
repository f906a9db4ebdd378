use ash::vk;
use luma::extent::{Extent2D, ResolutionScale};
use luma::frame_loop::{
    AcquiredImage, Action, Event, FrameLoop, FramePlan, Stage, MAX_FRAMES_IN_FLIGHT,
};
use luma::layout::frame_commands;

const SURFACE: Extent2D = Extent2D { width: 1024, height: 768 };

fn new_loop(frames: usize) -> FrameLoop {
    FrameLoop::new(frames, SURFACE, ResolutionScale::new(1, 4).unwrap()).unwrap()
}

fn out_of_date() -> i32 {
    vk::Result::ERROR_OUT_OF_DATE_KHR.as_raw()
}

fn acquired(image_index: u32) -> Event {
    Event::Acquired { result: Ok(AcquiredImage { image_index, suboptimal: false }) }
}

/// Runs one whole successful cycle and returns the slot it drew into.
fn successful_cycle(l: &mut FrameLoop, elapsed_millis: u64, image_index: u32) -> usize {
    let slot = match l.step(Event::Tick { elapsed_millis }) {
        Action::WaitFence { slot } => slot,
        other => panic!("expected a fence wait, got {:?}", other),
    };
    assert_eq!(l.step(Event::FenceSignaled { slot }), Action::Acquire { slot });
    match l.step(acquired(image_index)) {
        Action::Draw { slot: drawn, image_index: i, .. } => {
            assert_eq!(drawn, slot);
            assert_eq!(i, image_index);
        }
        other => panic!("expected a draw, got {:?}", other),
    }
    assert_eq!(l.step(Event::Presented { status: Ok(false) }), Action::Done);
    slot
}

#[test]
fn zero_frames_in_flight_is_refused() {
    assert!(FrameLoop::new(0, SURFACE, ResolutionScale::new(1, 1).unwrap()).is_none());
}

#[test]
fn new_loop_scales_the_target_and_starts_idle_at_slot_zero() {
    let l = new_loop(MAX_FRAMES_IN_FLIGHT);
    assert_eq!(l.frames_in_flight(), 2);
    assert_eq!(l.frame_index(), 0);
    assert_eq!(l.stage(), Stage::Idle);
    assert_eq!(l.target(), Extent2D { width: 256, height: 192 });
    assert_eq!(l.surface(), SURFACE);
    assert!(!l.is_stale());
    assert!(!l.is_suboptimal());
}

#[test]
fn five_cycles_with_two_slots_use_slots_0_1_0_1_0() {
    let mut l = new_loop(2);
    let slots: Vec<usize> = (0..5).map(|i| successful_cycle(&mut l, i * 16, (i % 3) as u32)).collect();
    assert_eq!(slots, vec![0, 1, 0, 1, 0]);
}

#[test]
fn three_slots_rotate_in_order() {
    let mut l = new_loop(3);
    let slots: Vec<usize> = (0..7).map(|i| successful_cycle(&mut l, i, 0)).collect();
    assert_eq!(slots, vec![0, 1, 2, 0, 1, 2, 0]);
}

#[test]
fn draw_carries_the_frame_to_record() {
    let mut l = new_loop(2);
    assert_eq!(l.step(Event::Tick { elapsed_millis: 5000 }), Action::WaitFence { slot: 0 });
    assert_eq!(l.step(Event::FenceSignaled { slot: 0 }), Action::Acquire { slot: 0 });
    let expected = FramePlan {
        target: Extent2D { width: 256, height: 192 },
        surface: SURFACE,
        time_millis: 5000,
    };
    assert_eq!(
        l.step(acquired(2)),
        Action::Draw { slot: 0, image_index: 2, frame: expected }
    );
    assert_eq!(expected.commands(), frame_commands(expected.target, SURFACE, 5000));
    assert_eq!(l.stage(), Stage::Presenting);
    // the slot moves on only once the present is reported
    assert_eq!(l.frame_index(), 0);
    assert_eq!(l.step(Event::Presented { status: Ok(false) }), Action::Done);
    assert_eq!(l.frame_index(), 1);
}

#[test]
fn elapsed_time_wraps_at_32_bits() {
    let mut l = new_loop(1);
    l.step(Event::Tick { elapsed_millis: (1u64 << 32) + 42 });
    l.step(Event::FenceSignaled { slot: 0 });
    match l.step(acquired(0)) {
        Action::Draw { frame, .. } => assert_eq!(frame.time_millis, 42),
        other => panic!("expected a draw, got {:?}", other),
    }
}

#[test]
fn every_draw_follows_a_fence_wait_on_its_slot() {
    // N + 1 cycles over N = 2 slots: each draw must be preceded by an
    // observed fence of the same slot since that slot's previous draw.
    let mut l = new_loop(2);
    let mut observed = vec![false; 2];
    for cycle in 0..3u64 {
        let slot = match l.step(Event::Tick { elapsed_millis: cycle }) {
            Action::WaitFence { slot } => slot,
            other => panic!("expected a fence wait, got {:?}", other),
        };
        // acquiring or drawing before the fence is reported is refused
        assert_eq!(l.step(acquired(0)), Action::Rejected);
        assert_eq!(l.step(Event::FenceSignaled { slot: 1 - slot }), Action::Rejected);
        assert_eq!(l.step(Event::FenceSignaled { slot }), Action::Acquire { slot });
        observed[slot] = true;
        match l.step(acquired(0)) {
            Action::Draw { slot: s, .. } => {
                assert!(observed[s]);
                observed[s] = false;
            }
            other => panic!("expected a draw, got {:?}", other),
        }
        assert_eq!(l.step(Event::Presented { status: Ok(false) }), Action::Done);
    }
}

#[test]
fn stale_acquire_n_times_gives_n_recreates_and_no_draw() {
    let mut l = new_loop(2);
    let mut recreates = 0;
    for n in 0..4u32 {
        assert_eq!(l.step(Event::Tick { elapsed_millis: 0 }), Action::WaitFence { slot: 0 });
        assert_eq!(l.step(Event::FenceSignaled { slot: 0 }), Action::Acquire { slot: 0 });
        let action = l.step(Event::Acquired { result: Err(out_of_date()) });
        assert_eq!(action, Action::Recreate);
        assert!(l.is_stale());
        recreates += 1;
        // a second rebuild cannot be asked for before this one is reported
        assert_eq!(l.step(Event::Acquired { result: Err(out_of_date()) }), Action::Rejected);
        assert_eq!(l.step(Event::Tick { elapsed_millis: 0 }), Action::Rejected);
        let resized = Extent2D { width: 800 + n, height: 600 };
        assert_eq!(l.step(Event::Recreated { surface: resized }), Action::Done);
        assert!(!l.is_stale());
        assert_eq!(l.surface(), resized);
        // the abandoned cycles did not move to another slot
        assert_eq!(l.frame_index(), 0);
    }
    assert_eq!(recreates, 4);
    // the next successful cycle draws onto the new surface with the
    // unchanged target
    assert_eq!(successful_cycle(&mut l, 0, 0), 0);
    assert_eq!(l.target(), Extent2D { width: 256, height: 192 });
}

#[test]
fn stale_present_recreates_after_the_frame_was_submitted() {
    let mut l = new_loop(2);
    l.step(Event::Tick { elapsed_millis: 0 });
    l.step(Event::FenceSignaled { slot: 0 });
    assert!(matches!(l.step(acquired(1)), Action::Draw { slot: 0, .. }));
    assert_eq!(l.step(Event::Presented { status: Err(out_of_date()) }), Action::Recreate);
    assert_eq!(l.stage(), Stage::Recreating);
    assert_eq!(l.step(Event::Recreated { surface: SURFACE }), Action::Done);
    // the submitted slot is in flight: the next cycle uses the other one
    assert_eq!(successful_cycle(&mut l, 0, 0), 1);
}

#[test]
fn suboptimal_results_are_recorded_but_still_used() {
    let mut l = new_loop(2);
    l.step(Event::Tick { elapsed_millis: 0 });
    l.step(Event::FenceSignaled { slot: 0 });
    let action = l.step(Event::Acquired {
        result: Ok(AcquiredImage { image_index: 0, suboptimal: true }),
    });
    assert!(matches!(action, Action::Draw { .. }));
    assert!(l.is_suboptimal());
    assert_eq!(l.step(Event::Presented { status: Ok(false) }), Action::Done);
    assert!(!l.is_suboptimal());
    l.step(Event::Tick { elapsed_millis: 0 });
    l.step(Event::FenceSignaled { slot: 1 });
    l.step(acquired(0));
    assert_eq!(l.step(Event::Presented { status: Ok(true) }), Action::Done);
    assert!(l.is_suboptimal());
}

#[test]
fn other_errors_are_fatal() {
    let lost = vk::Result::ERROR_DEVICE_LOST.as_raw();
    let mut l = new_loop(2);
    l.step(Event::Tick { elapsed_millis: 0 });
    l.step(Event::FenceSignaled { slot: 0 });
    assert_eq!(l.step(Event::Acquired { result: Err(lost) }), Action::Fail { code: lost });
    assert_eq!(l.stage(), Stage::Failed);
    assert_eq!(l.step(Event::Tick { elapsed_millis: 0 }), Action::Rejected);

    let mut l = new_loop(2);
    l.step(Event::Tick { elapsed_millis: 0 });
    l.step(Event::FenceSignaled { slot: 0 });
    l.step(acquired(0));
    let oom = vk::Result::ERROR_OUT_OF_DEVICE_MEMORY.as_raw();
    assert_eq!(l.step(Event::Presented { status: Err(oom) }), Action::Fail { code: oom });
    assert_eq!(l.frame_index(), 0);
    assert_eq!(l.stage(), Stage::Failed);
}

#[test]
fn fatal_present_leaves_the_slot_index_where_it_was() {
    let lost = vk::Result::ERROR_DEVICE_LOST.as_raw();
    let mut l = new_loop(2);
    assert_eq!(successful_cycle(&mut l, 0, 0), 0);
    assert_eq!(l.frame_index(), 1);
    l.step(Event::Tick { elapsed_millis: 0 });
    l.step(Event::FenceSignaled { slot: 1 });
    assert!(matches!(l.step(acquired(0)), Action::Draw { slot: 1, .. }));
    assert_eq!(l.step(Event::Presented { status: Err(lost) }), Action::Fail { code: lost });
    assert_eq!(l.frame_index(), 1);
    assert_eq!(l.step(Event::Tick { elapsed_millis: 0 }), Action::Rejected);
    assert_eq!(l.frame_index(), 1);
}

#[test]
fn failed_submit_is_fatal_and_keeps_the_slot() {
    let oom = vk::Result::ERROR_OUT_OF_HOST_MEMORY.as_raw();
    let mut l = new_loop(2);
    l.step(Event::Tick { elapsed_millis: 0 });
    l.step(Event::FenceSignaled { slot: 0 });
    assert!(matches!(l.step(acquired(0)), Action::Draw { slot: 0, .. }));
    assert_eq!(l.step(Event::SubmitFailed { code: oom }), Action::Fail { code: oom });
    assert_eq!(l.stage(), Stage::Failed);
    assert_eq!(l.frame_index(), 0);
    assert_eq!(l.step(Event::Presented { status: Ok(false) }), Action::Rejected);
}

#[test]
fn submit_failure_outside_a_draw_is_refused() {
    let oom = vk::Result::ERROR_OUT_OF_HOST_MEMORY.as_raw();
    let mut l = new_loop(2);
    assert_eq!(l.step(Event::SubmitFailed { code: oom }), Action::Rejected);
    assert_eq!(l.stage(), Stage::Idle);
}

#[test]
fn events_out_of_order_change_nothing() {
    let mut l = new_loop(2);
    assert_eq!(l.step(Event::FenceSignaled { slot: 0 }), Action::Rejected);
    assert_eq!(l.step(Event::Presented { status: Ok(false) }), Action::Rejected);
    assert_eq!(l.step(Event::Recreated { surface: SURFACE }), Action::Rejected);
    assert_eq!(l.stage(), Stage::Idle);
    assert_eq!(l.step(Event::Tick { elapsed_millis: 1 }), Action::WaitFence { slot: 0 });
    assert_eq!(l.step(Event::Tick { elapsed_millis: 2 }), Action::Rejected);
    assert_eq!(l.stage(), Stage::Waiting);
}
