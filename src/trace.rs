//! Properties of whole runs of the frame protocol: what holds of the actions
//! that `FrameLoop::step` hands out over any sequence of reports.
use vstd::prelude::*;
use crate::extent::Extent2D;
use crate::frame_loop::{
    AcquiredImage, Action, Event, LoopState, Stage, initial_state, is_stale_report, next, run,
};
use crate::vulkan::result_out_of_date;

verus! {

/// `a` asks to record and submit the command buffer of `slot`.
pub open spec fn draws(a: Action, slot: usize) -> bool {
    a matches Action::Draw { slot: s, .. } && s == slot
}

/// At step `j` the fence of `slot` was observed signaled (and the loop went
/// on to acquire), and no step after `j` and before `k` drew on `slot`.
pub open spec fn fence_seen(
    events: Seq<Event>,
    actions: Seq<Action>,
    slot: usize,
    j: int,
    k: int,
) -> bool {
    &&& 0 <= j < k
    &&& events[j] == (Event::FenceSignaled { slot })
    &&& actions[j] == (Action::Acquire { slot })
    &&& forall|m: int| j < m < k ==> !draws(#[trigger] actions[m], slot)
}

/// Number of draws among the first `k` actions.
pub open spec fn draws_before(actions: Seq<Action>, k: int) -> int
    decreases k,
{
    if k <= 0 {
        0
    } else {
        draws_before(actions, k - 1) + if actions[k - 1] is Draw {
            1int
        } else {
            0int
        }
    }
}

/// Number of swapchain rebuilds asked for among the first `k` actions.
pub open spec fn recreates_before(actions: Seq<Action>, k: int) -> int
    decreases k,
{
    if k <= 0 {
        0
    } else {
        recreates_before(actions, k - 1) + if actions[k - 1] == Action::Recreate {
            1int
        } else {
            0int
        }
    }
}

/// Number of swapchain rebuilds completed (reported and accepted) among the
/// first `k` steps.
pub open spec fn rebuilds_before(events: Seq<Event>, actions: Seq<Action>, k: int) -> int
    decreases k,
{
    if k <= 0 {
        0
    } else {
        rebuilds_before(events, actions, k - 1) + if events[k - 1] is Recreated && actions[k
            - 1] != Action::Rejected {
            1int
        } else {
            0int
        }
    }
}

/// A report of an image acquired without error.
pub open spec fn is_successful_acquire(e: Event) -> bool {
    e matches Event::Acquired { result: Ok(_) }
}

/// A loop that has done nothing yet: well formed, idle, at slot zero, and no
/// fence counted as observed.
pub open spec fn fresh(s: LoopState) -> bool {
    &&& s.wf()
    &&& s.stage == Stage::Idle
    &&& s.index == 0
    &&& forall|t: int| 0 <= t < s.observed.len() ==> !s.observed[t]
}

/// A newly built loop is fresh, so the laws below hold of every run of it.
pub proof fn lemma_initial_is_fresh(frames: nat, target: Extent2D, surface: Extent2D)
    requires
        0 < frames <= usize::MAX,
    ensures
        fresh(initial_state(frames, target, surface)),
{
}

proof fn lemma_run_unfold(start: LoopState, events: Seq<Event>)
    requires
        events.len() > 0,
    ensures
        run(start, events) == ({
            let (mid, acts) = run(start, events.drop_last());
            let (end, a) = next(mid, events.last());
            (end, acts.push(a))
        }),
{
}

proof fn lemma_run_len(start: LoopState, events: Seq<Event>)
    ensures
        run(start, events).1.len() == events.len(),
    decreases events.len(),
{
    if events.len() > 0 {
        lemma_run_len(start, events.drop_last());
    }
}

proof fn lemma_counts_agree(
    a1: Seq<Action>,
    e1: Seq<Event>,
    a2: Seq<Action>,
    e2: Seq<Event>,
    k: int,
)
    requires
        0 <= k <= a1.len(),
        k <= a2.len(),
        k <= e1.len(),
        k <= e2.len(),
        forall|i: int| 0 <= i < k ==> a1[i] == a2[i] && e1[i] == e2[i],
    ensures
        draws_before(a1, k) == draws_before(a2, k),
        recreates_before(a1, k) == recreates_before(a2, k),
        rebuilds_before(e1, a1, k) == rebuilds_before(e2, a2, k),
    decreases k,
{
    if k > 0 {
        lemma_counts_agree(a1, e1, a2, e2, k - 1);
    }
}

proof fn lemma_fences_run(start: LoopState, events: Seq<Event>)
    requires
        fresh(start),
    ensures
        ({
            let (end, actions) = run(start, events);
            &&& actions.len() == events.len()
            &&& end.wf()
            &&& end.observed.len() == start.observed.len()
            &&& (end.stage == Stage::Acquiring ==> end.observed[end.index as int])
            &&& forall|t: usize|
                #![trigger end.observed[t as int]]
                (t as int) < end.observed.len() && end.observed[t as int] ==> exists|j: int|
                    fence_seen(events, actions, t, j, actions.len() as int)
            &&& forall|k: int, t: usize|
                0 <= k < actions.len() && #[trigger] draws(actions[k], t) ==> exists|j: int|
                    fence_seen(events, actions, t, j, k)
        }),
    decreases events.len(),
{
    lemma_run_len(start, events);
    if events.len() > 0 {
        let prev = events.drop_last();
        lemma_fences_run(start, prev);
        lemma_run_unfold(start, events);
        let (mid, acts0) = run(start, prev);
        let e = events.last();
        let (end, a) = next(mid, e);
        let actions = acts0.push(a);
        let n = acts0.len() as int;
        let n1 = n + 1;
        assert(run(start, events) == (end, actions));
        assert forall|t: usize, j: int, k: int|
            0 <= k <= n && fence_seen(prev, acts0, t, j, k) implies fence_seen(
            events,
            actions,
            t,
            j,
            k,
        ) by {
            assert(events[j] == prev[j]);
            assert(actions[j] == acts0[j]);
            assert forall|m: int| j < m < k implies !draws(#[trigger] actions[m], t) by {
                assert(actions[m] == acts0[m]);
            }
        }
        assert forall|t: usize|
            #![trigger end.observed[t as int]]
            (t as int) < end.observed.len() && end.observed[t as int] implies exists|j: int|
                fence_seen(events, actions, t, j, n1) by {
            if a == (Action::Acquire { slot: t }) && e == (Event::FenceSignaled { slot: t }) {
                assert(fence_seen(events, actions, t, n, n1));
            } else {
                assert(mid.observed[t as int]);
                assert(!draws(a, t));
                let j = choose|j: int| fence_seen(prev, acts0, t, j, n);
                assert(fence_seen(events, actions, t, j, n));
                assert(fence_seen(events, actions, t, j, n1));
            }
        }
        assert forall|k: int, t: usize|
            0 <= k < actions.len() && #[trigger] draws(actions[k], t) implies exists|j: int|
                fence_seen(events, actions, t, j, k) by {
            if k < n {
                assert(actions[k] == acts0[k]);
                let j = choose|j: int| fence_seen(prev, acts0, t, j, k);
                assert(fence_seen(events, actions, t, j, k));
            } else {
                assert(mid.stage == Stage::Acquiring);
                assert(t == mid.index);
                assert(mid.observed[t as int]);
                let j = choose|j: int| fence_seen(prev, acts0, t, j, n);
                assert(fence_seen(events, actions, t, j, k));
            }
        }
    }
}

/// Fence discipline: starting from a fresh loop, whatever is reported, a
/// slot's command buffer is handed out for recording only after its fence
/// was observed signaled, with no other recording of that slot in between.
/// So no command buffer is reset while its previous submission may still
/// be executing.
pub proof fn lemma_fence_discipline(start: LoopState, events: Seq<Event>)
    requires
        fresh(start),
    ensures
        ({
            let actions = run(start, events).1;
            forall|k: int, t: usize|
                0 <= k < actions.len() && #[trigger] draws(actions[k], t) ==> exists|j: int|
                    fence_seen(events, actions, t, j, k)
        }),
{
    lemma_fences_run(start, events);
}

/// Where the slot index stands after `draws` draws: one behind the count
/// while the last drawn frame is still being presented, level with it
/// between cycles, and left wherever it was once the loop has failed.
pub open spec fn slot_follows_draws(s: LoopState, draws: int) -> bool {
    let size = s.observed.len() as int;
    &&& s.stage == Stage::Presenting ==> s.index as int == (draws - 1) % size
    &&& (s.stage != Stage::Presenting && s.stage != Stage::Failed) ==> s.index as int == draws
        % size
}

proof fn lemma_slots_run(start: LoopState, events: Seq<Event>)
    requires
        start.wf(),
        start.index == 0,
        start.stage != Stage::Presenting,
    ensures
        ({
            let (end, actions) = run(start, events);
            &&& actions.len() == events.len()
            &&& end.wf()
            &&& end.observed.len() == start.observed.len()
            &&& slot_follows_draws(end, draws_before(actions, actions.len() as int))
            &&& forall|k: int, t: usize|
                0 <= k < actions.len() && #[trigger] draws(actions[k], t) ==> t as int
                    == draws_before(actions, k) % (start.observed.len() as int)
        }),
    decreases events.len(),
{
    lemma_run_len(start, events);
    let size = start.observed.len() as int;
    if events.len() == 0 {
        assert(0int % size == 0) by (nonlinear_arith)
            requires
                size > 0,
        ;
    } else {
        let prev = events.drop_last();
        lemma_slots_run(start, prev);
        lemma_run_unfold(start, events);
        let (mid, acts0) = run(start, prev);
        let e = events.last();
        let (end, a) = next(mid, e);
        let actions = acts0.push(a);
        let n = acts0.len() as int;
        assert(run(start, events) == (end, actions));
        lemma_counts_agree(acts0, prev, actions, events, n);
        let d = draws_before(acts0, n);
        assert(draws_before(actions, n + 1) == d + if a is Draw {
            1int
        } else {
            0int
        });
        assert(mid.observed.len() == size);
        assert(end.observed.len() == size);
        if a is Draw {
            assert(mid.stage == Stage::Acquiring);
            assert(mid.index as int == d % size);
            assert(end.stage == Stage::Presenting);
            assert(end.index == mid.index);
            assert(((d + 1) - 1) % size == d % size);
            assert(slot_follows_draws(end, d + 1));
        } else if mid.stage == Stage::Presenting && (end.stage == Stage::Idle || end.stage
            == Stage::Recreating) {
            vstd::arithmetic::div_mod::lemma_mod_bound(mid.index as int + 1, size);
            assert(end.index as int == (mid.index as int + 1) % size);
            assert(((d - 1) % size + 1) % size == d % size) by {
                vstd::arithmetic::div_mod::lemma_add_mod_noop(d - 1, 1, size);
                vstd::arithmetic::div_mod::lemma_add_mod_noop_right((d - 1) % size, 1, size);
            }
            assert(slot_follows_draws(end, d));
        } else {
            assert(slot_follows_draws(mid, d));
            assert(end.index == mid.index);
            assert(end.stage == Stage::Presenting ==> mid.stage == Stage::Presenting);
            assert(slot_follows_draws(end, d));
        }
        assert(slot_follows_draws(end, draws_before(actions, n + 1)));
        assert forall|k: int, t: usize|
            0 <= k < actions.len() && #[trigger] draws(actions[k], t) implies t as int
                == draws_before(actions, k) % size by {
            if k < n {
                assert(actions[k] == acts0[k]);
                lemma_counts_agree(acts0, prev, actions, events, k);
            }
        }
    }
}

/// Round-robin: starting at slot zero, the slots that successive frames
/// record into run through `0, 1, ..., N - 1, 0, 1, ...` for `N` slots;
/// the `i`-th recorded frame uses slot `i mod N`, whatever cycles were
/// abandoned in between.
pub proof fn lemma_round_robin(start: LoopState, events: Seq<Event>)
    requires
        start.wf(),
        start.index == 0,
        start.stage != Stage::Presenting,
    ensures
        ({
            let actions = run(start, events).1;
            forall|k: int, t: usize|
                0 <= k < actions.len() && #[trigger] draws(actions[k], t) ==> t as int
                    == draws_before(actions, k) % (start.observed.len() as int)
        }),
{
    lemma_slots_run(start, events);
}

proof fn lemma_recreate_run(start: LoopState, events: Seq<Event>)
    requires
        start.stage != Stage::Recreating,
    ensures
        ({
            let (end, actions) = run(start, events);
            &&& actions.len() == events.len()
            &&& recreates_before(actions, actions.len() as int) == rebuilds_before(
                events,
                actions,
                actions.len() as int,
            ) + if end.stage == Stage::Recreating {
                1int
            } else {
                0int
            }
            &&& forall|k: int|
                0 <= k < actions.len() && #[trigger] actions[k] == Action::Recreate
                    ==> recreates_before(actions, k) == rebuilds_before(events, actions, k)
            &&& forall|k: int|
                0 <= k < actions.len() ==> ((#[trigger] actions[k] == Action::Recreate) <==> (
                is_stale_report(events[k]) && actions[k] != Action::Rejected))
            &&& forall|k: int|
                0 <= k < actions.len() && (#[trigger] actions[k] is Draw) ==> is_successful_acquire(events[k])
        }),
    decreases events.len(),
{
    lemma_run_len(start, events);
    if events.len() > 0 {
        let prev = events.drop_last();
        lemma_recreate_run(start, prev);
        lemma_run_unfold(start, events);
        let (mid, acts0) = run(start, prev);
        let e = events.last();
        let (end, a) = next(mid, e);
        let actions = acts0.push(a);
        let n = acts0.len() as int;
        assert(run(start, events) == (end, actions));
        lemma_counts_agree(acts0, prev, actions, events, n);
        assert forall|k: int|
            0 <= k < actions.len() && #[trigger] actions[k] == Action::Recreate implies recreates_before(
            actions,
            k,
        ) == rebuilds_before(events, actions, k) by {
            if k < n {
                assert(actions[k] == acts0[k]);
                lemma_counts_agree(acts0, prev, actions, events, k);
            }
        }
        assert forall|k: int| 0 <= k < actions.len() implies ((#[trigger] actions[k]
            == Action::Recreate) <==> (is_stale_report(events[k]) && actions[k]
            != Action::Rejected)) by {
            if k < n {
                assert(actions[k] == acts0[k]);
                assert(events[k] == prev[k]);
            }
        }
        assert forall|k: int|
            0 <= k < actions.len() && (#[trigger] actions[k] is Draw) implies is_successful_acquire(events[k]) by {
            if k < n {
                assert(actions[k] == acts0[k]);
                assert(events[k] == prev[k]);
            }
        }
    }
}

/// Resize handling: every report of a stale surface, and nothing else,
/// makes the loop ask for a swapchain rebuild, so `N` stale reports in a row
/// give exactly `N` rebuilds; no frame is recorded (no dispatch, no blit) but
/// in answer to a successful acquire, so a stale cycle records nothing; and
/// each rebuild is asked for only once every earlier one has completed, so
/// no swapchain is discarded twice.
pub proof fn lemma_stale_cycles_recreate(start: LoopState, events: Seq<Event>)
    requires
        start.stage != Stage::Recreating,
    ensures
        ({
            let actions = run(start, events).1;
            &&& actions.len() == events.len()
            &&& forall|k: int|
                0 <= k < actions.len() ==> ((#[trigger] actions[k] == Action::Recreate) <==> (
                is_stale_report(events[k]) && actions[k] != Action::Rejected))
            &&& forall|k: int|
                0 <= k < actions.len() && (#[trigger] actions[k] is Draw) ==> is_successful_acquire(events[k])
            &&& forall|k: int|
                0 <= k < actions.len() && #[trigger] actions[k] == Action::Recreate
                    ==> recreates_before(actions, k) == rebuilds_before(events, actions, k)
        }),
{
    lemma_recreate_run(start, events);
}

/// One whole cycle from an idle loop, when every GPU call succeeds: the loop
/// waits for the fence of the current slot `i`, acquires, draws into slot
/// `i` (and no other), and ends idle at slot `(i + 1) mod N`.
pub proof fn lemma_successful_cycle(
    s: LoopState,
    elapsed_millis: u64,
    image: AcquiredImage,
    suboptimal: bool,
)
    requires
        s.wf(),
        s.stage == Stage::Idle,
    ensures
        ({
            let i = s.index;
            let (s1, a1) = next(s, Event::Tick { elapsed_millis });
            let (s2, a2) = next(s1, Event::FenceSignaled { slot: i });
            let (s3, a3) = next(s2, Event::Acquired { result: Ok(image) });
            let (s4, a4) = next(s3, Event::Presented { status: Ok(suboptimal) });
            &&& a1 == Action::WaitFence { slot: i }
            &&& a2 == Action::Acquire { slot: i }
            &&& a3 matches Action::Draw { slot, image_index, .. } && slot == i && image_index
                == image.image_index
            &&& s3.index == i
            &&& a4 == Action::Done
            &&& s4.stage == Stage::Idle
            &&& s4.index as int == (i + 1) % (s.observed.len() as int)
        }),
{
}

/// A cycle whose acquire reports the surface stale: the loop asks for a
/// rebuild and nothing else (no draw, no present), keeps its slot, refuses a
/// new cycle until the rebuild is reported, and is then idle at that slot.
pub proof fn lemma_stale_acquire_cycle(s: LoopState, elapsed_millis: u64, surface: Extent2D)
    requires
        s.wf(),
        s.stage == Stage::Idle,
    ensures
        ({
            let i = s.index;
            let (s1, a1) = next(s, Event::Tick { elapsed_millis });
            let (s2, a2) = next(s1, Event::FenceSignaled { slot: i });
            let (s3, a3) = next(s2, Event::Acquired { result: Err(result_out_of_date()) });
            let (s4, a4) = next(s3, Event::Tick { elapsed_millis });
            let (s5, a5) = next(s3, Event::Recreated { surface });
            &&& a1 == Action::WaitFence { slot: i }
            &&& a2 == Action::Acquire { slot: i }
            &&& a3 == Action::Recreate
            &&& s3.stage == Stage::Recreating
            &&& s3.index == i
            &&& a4 == Action::Rejected
            &&& s4 == s3
            &&& a5 == Action::Done
            &&& s5.stage == Stage::Idle
            &&& s5.index == i
            &&& s5.surface == surface
        }),
{
}

/// A cycle that fails for good, at the acquire, at the submit or at the
/// present (with any code but a stale surface): the loop gives up with that
/// code, issues nothing after it, and leaves the slot index where it was.
pub proof fn lemma_failed_cycle_keeps_slot(
    s: LoopState,
    elapsed_millis: u64,
    image: AcquiredImage,
    code: i32,
)
    requires
        s.wf(),
        s.stage == Stage::Idle,
        code != result_out_of_date(),
    ensures
        ({
            let i = s.index;
            let (s1, a1) = next(s, Event::Tick { elapsed_millis });
            let (s2, a2) = next(s1, Event::FenceSignaled { slot: i });
            let (f1, b1) = next(s2, Event::Acquired { result: Err(code) });
            let (s3, a3) = next(s2, Event::Acquired { result: Ok(image) });
            let (f2, b2) = next(s3, Event::SubmitFailed { code });
            let (f3, b3) = next(s3, Event::Presented { status: Err(code) });
            &&& b1 == Action::Fail { code } && f1.stage == Stage::Failed && f1.index == i
            &&& b2 == Action::Fail { code } && f2.stage == Stage::Failed && f2.index == i
            &&& b3 == Action::Fail { code } && f3.stage == Stage::Failed && f3.index == i
            &&& forall|e: Event|
                #![trigger next(f1, e)]
                #![trigger next(f2, e)]
                #![trigger next(f3, e)]
                next(f1, e).1 == Action::Rejected && next(f2, e).1 == Action::Rejected && next(
                    f3,
                    e,
                ).1 == Action::Rejected
        }),
{
}

} // verus!
