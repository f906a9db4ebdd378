//! The GPU objects of one frame slot, and the order in which they are
//! released: at teardown, and when building the slot fails part-way.
use vstd::prelude::*;

verus! {

/// One GPU object owned by a frame slot, listed in the order the slot
/// creates them.
#[derive(Clone, Copy, Debug, PartialEq, Eq, Structural)]
pub enum FrameResource {
    CommandPool,
    CommandBuffer,
    AcquireSemaphore,
    Fence,
    StorageImage,
    StorageMemory,
    StorageView,
    DescriptorPool,
    DescriptorSet,
}

/// Number of GPU objects a frame slot owns.
pub const FRAME_RESOURCE_COUNT: usize = 9;

/// Position of `r` in creation order.
pub open spec fn creation_rank(r: FrameResource) -> nat {
    match r {
        FrameResource::CommandPool => 0,
        FrameResource::CommandBuffer => 1,
        FrameResource::AcquireSemaphore => 2,
        FrameResource::Fence => 3,
        FrameResource::StorageImage => 4,
        FrameResource::StorageMemory => 5,
        FrameResource::StorageView => 6,
        FrameResource::DescriptorPool => 7,
        FrameResource::DescriptorSet => 8,
    }
}

/// Position of `r` in release order: descriptors first, then the view, the
/// image and its memory, the synchronisation objects, and the command pool
/// last.
pub open spec fn release_rank(r: FrameResource) -> nat {
    match r {
        FrameResource::DescriptorSet => 0,
        FrameResource::DescriptorPool => 1,
        FrameResource::StorageView => 2,
        FrameResource::StorageImage => 3,
        FrameResource::StorageMemory => 4,
        FrameResource::Fence => 5,
        FrameResource::AcquireSemaphore => 6,
        FrameResource::CommandBuffer => 7,
        FrameResource::CommandPool => 8,
    }
}

/// `user` holds on to `used`, so `used` may only be released after `user`:
/// the descriptor set refers to the view and lives in the descriptor pool,
/// the view is of the image, the image is bound to its memory, and the
/// command buffer comes from the command pool.
pub open spec fn uses(user: FrameResource, used: FrameResource) -> bool {
    ||| user == FrameResource::DescriptorSet && used == FrameResource::DescriptorPool
    ||| user == FrameResource::DescriptorSet && used == FrameResource::StorageView
    ||| user == FrameResource::StorageView && used == FrameResource::StorageImage
    ||| user == FrameResource::StorageImage && used == FrameResource::StorageMemory
    ||| user == FrameResource::CommandBuffer && used == FrameResource::CommandPool
}

/// `plan` releases exactly the first `created` resources of creation order,
/// in release order.
pub open spec fn is_release_plan(created: nat, plan: Seq<FrameResource>) -> bool {
    &&& forall|i: int| 0 <= i < plan.len() ==> creation_rank(#[trigger] plan[i]) < created
    &&& forall|r: FrameResource| creation_rank(r) < created ==> #[trigger] plan.contains(r)
    &&& forall|i: int, j: int|
        0 <= i < j < plan.len() ==> release_rank(#[trigger] plan[i]) < release_rank(
            #[trigger] plan[j],
        )
}

fn creation_index(r: FrameResource) -> (i: usize)
    ensures
        i == creation_rank(r),
{
    match r {
        FrameResource::CommandPool => 0,
        FrameResource::CommandBuffer => 1,
        FrameResource::AcquireSemaphore => 2,
        FrameResource::Fence => 3,
        FrameResource::StorageImage => 4,
        FrameResource::StorageMemory => 5,
        FrameResource::StorageView => 6,
        FrameResource::DescriptorPool => 7,
        FrameResource::DescriptorSet => 8,
    }
}

fn in_release_order() -> (r: Vec<FrameResource>)
    ensures
        r@.len() == FRAME_RESOURCE_COUNT,
        forall|i: int| 0 <= i < r@.len() ==> release_rank(#[trigger] r@[i]) == i,
{
    let r = vec![
        FrameResource::DescriptorSet,
        FrameResource::DescriptorPool,
        FrameResource::StorageView,
        FrameResource::StorageImage,
        FrameResource::StorageMemory,
        FrameResource::Fence,
        FrameResource::AcquireSemaphore,
        FrameResource::CommandBuffer,
        FrameResource::CommandPool,
    ];
    assert(r@ =~= seq![
        FrameResource::DescriptorSet,
        FrameResource::DescriptorPool,
        FrameResource::StorageView,
        FrameResource::StorageImage,
        FrameResource::StorageMemory,
        FrameResource::Fence,
        FrameResource::AcquireSemaphore,
        FrameResource::CommandBuffer,
        FrameResource::CommandPool,
    ]);
    r
}

/// The order in which to release a slot whose first `created` resources
/// (in creation order) exist: all of them when the slot is torn down, fewer
/// when building it failed part-way.
pub fn release_order(created: usize) -> (r: Vec<FrameResource>)
    ensures
        is_release_plan(created as nat, r@),
{
    let all = in_release_order();
    let mut r: Vec<FrameResource> = Vec::new();
    let mut k: usize = 0;
    while k < all.len()
        invariant
            k <= all@.len(),
            all@.len() == FRAME_RESOURCE_COUNT,
            forall|i: int| 0 <= i < all@.len() ==> release_rank(#[trigger] all@[i]) == i,
            forall|i: int| 0 <= i < r@.len() ==> creation_rank(#[trigger] r@[i]) < created,
            forall|i: int| 0 <= i < r@.len() ==> release_rank(#[trigger] r@[i]) < k,
            forall|i: int, j: int|
                0 <= i < j < r@.len() ==> release_rank(#[trigger] r@[i]) < release_rank(
                    #[trigger] r@[j],
                ),
            forall|x: FrameResource|
                release_rank(x) < k && creation_rank(x) < created ==> #[trigger] r@.contains(x),
        decreases all@.len() - k,
    {
        let x = all[k];
        let ghost before = r@;
        if creation_index(x) < created {
            r.push(x);
            assert(r@[r@.len() - 1] == x);
        }
        proof {
            assert forall|y: FrameResource|
                release_rank(y) < k + 1 && creation_rank(y) < created implies #[trigger] r@.contains(
                y,
            ) by {
                if release_rank(y) == k {
                    assert(y == x);
                    assert(r@[r@.len() - 1] == y);
                } else {
                    assert(before.contains(y));
                    let i = choose|i: int| 0 <= i < before.len() && before[i] == y;
                    assert(r@[i] == y);
                }
            }
        }
        k = k + 1;
    }
    assert forall|y: FrameResource| creation_rank(y) < created implies #[trigger] r@.contains(y) by {
        assert(release_rank(y) < 9);
        assert(k == 9);
    }
    r
}

/// Every plan that `release_order` hands out is safe: each resource that
/// exists is released exactly once, none that does not exist is touched,
/// and a resource that holds on to another is released before it.
pub proof fn lemma_release_plan_safe(created: nat, plan: Seq<FrameResource>)
    requires
        is_release_plan(created, plan),
    ensures
        plan.no_duplicates(),
        forall|r: FrameResource| #[trigger] plan.contains(r) <==> creation_rank(r) < created,
        forall|i: int, j: int|
            0 <= i < plan.len() && 0 <= j < plan.len() && uses(#[trigger] plan[i], #[trigger] plan[j])
                ==> i < j,
{
    assert forall|i: int, j: int|
        0 <= i < plan.len() && 0 <= j < plan.len() && i != j implies plan[i] != plan[j] by {
        if i < j {
            assert(release_rank(plan[i]) < release_rank(plan[j]));
        } else {
            assert(release_rank(plan[j]) < release_rank(plan[i]));
        }
    }
    assert forall|r: FrameResource| #[trigger] plan.contains(r) implies creation_rank(r) < created by {
        let i = choose|i: int| 0 <= i < plan.len() && plan[i] == r;
        assert(creation_rank(plan[i]) < created);
    }
    assert forall|i: int, j: int|
        0 <= i < plan.len() && 0 <= j < plan.len() && uses(
            #[trigger] plan[i],
            #[trigger] plan[j],
        ) implies i < j by {
        assert(release_rank(plan[i]) < release_rank(plan[j]));
        if j < i {
            assert(release_rank(plan[j]) < release_rank(plan[i]));
        }
    }
}

} // verus!
