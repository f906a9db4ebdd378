//! Choice of the GPU adapter and queue family that the renderer runs on.
use vstd::prelude::*;
use crate::vulkan::{graphics_and_compute_bits, queue_compute_bit, queue_graphics_bit};

verus! {

/// What one queue family of an adapter offers: its raw capability flags, and
/// whether it can present to the target surface.
#[derive(Clone, Copy, Debug, PartialEq, Eq, Structural)]
pub struct QueueFamily {
    pub flags: u32,
    pub presents: bool,
}

/// A queue family that runs graphics and compute work and presents to the
/// surface.
pub open spec fn is_suitable(family: QueueFamily) -> bool {
    family.flags & queue_graphics_bit() == queue_graphics_bit() && family.flags
        & queue_compute_bit() == queue_compute_bit() && family.presents
}

/// The adapter and queue family chosen to render with, by position.
#[derive(Clone, Copy, Debug, PartialEq, Eq, Structural)]
pub struct QueueSelection {
    pub adapter: usize,
    pub family: usize,
}

/// Whether some family of `families` is suitable.
pub open spec fn has_suitable(families: Seq<QueueFamily>) -> bool {
    exists|f: int| 0 <= f < families.len() && is_suitable(#[trigger] families[f])
}

/// Picks the first adapter, in the order given, that has a suitable queue
/// family, and its first suitable family. `None` when no adapter has one:
/// there is then no way to render, and initialisation fails.
pub fn select_queue_family(adapters: &Vec<Vec<QueueFamily>>) -> (r: Option<QueueSelection>)
    ensures
        r is None <==> forall|a: int|
            0 <= a < adapters@.len() ==> !has_suitable(#[trigger] adapters@[a]@),
        r matches Some(sel) ==> {
            &&& sel.adapter < adapters@.len()
            &&& sel.family < adapters@[sel.adapter as int]@.len()
            &&& is_suitable(adapters@[sel.adapter as int]@[sel.family as int])
            &&& forall|a: int| 0 <= a < sel.adapter ==> !has_suitable(#[trigger] adapters@[a]@)
            &&& forall|f: int|
                0 <= f < sel.family ==> !is_suitable(
                    #[trigger] adapters@[sel.adapter as int]@[f],
                )
        },
{
    let (graphics, compute) = graphics_and_compute_bits();
    let mut a: usize = 0;
    while a < adapters.len()
        invariant
            a <= adapters@.len(),
            graphics == queue_graphics_bit(),
            compute == queue_compute_bit(),
            forall|b: int| 0 <= b < a ==> !has_suitable(#[trigger] adapters@[b]@),
        decreases adapters@.len() - a,
    {
        let families = &adapters[a];
        let mut f: usize = 0;
        while f < families.len()
            invariant
                a < adapters@.len(),
                families@ == adapters@[a as int]@,
                f <= families@.len(),
                graphics == queue_graphics_bit(),
                compute == queue_compute_bit(),
                forall|b: int| 0 <= b < a ==> !has_suitable(#[trigger] adapters@[b]@),
                forall|g: int| 0 <= g < f ==> !is_suitable(#[trigger] families@[g]),
            decreases families@.len() - f,
        {
            let family = families[f];
            if family.flags & graphics == graphics && family.flags & compute == compute
                && family.presents {
                return Some(QueueSelection { adapter: a, family: f });
            }
            f = f + 1;
        }
        a = a + 1;
    }
    None
}

} // verus!
