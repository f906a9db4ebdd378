//! The commands recorded for one frame, and a model of the image layouts they
//! leave behind.
//!
//! A frame writes the intermediate target with the compute program and then
//! stretches it onto the acquired presentable image. Every use of an image
//! must find it in a layout that permits that use; the barriers recorded here
//! move each image from layout to layout, and `replay` checks a command list
//! against that rule.
use vstd::prelude::*;
use crate::extent::{Extent2D, WorkGroups, dispatch_group_counts, groups_covering};

verus! {

/// The layout an image's memory is declared to be in.
#[derive(Clone, Copy, Debug, PartialEq, Eq, Structural)]
pub enum ImageLayout {
    /// Contents are not preserved; any layout may be left for this one's sake.
    Undefined,
    /// Readable and writable by shaders (a storage image).
    General,
    /// Source of a transfer.
    TransferSrc,
    /// Destination of a transfer.
    TransferDst,
    /// Ready to be handed to the presentation engine.
    PresentSrc,
}

/// Which of the frame's two images a command concerns.
#[derive(Clone, Copy, Debug, PartialEq, Eq, Structural)]
pub enum ImageRole {
    /// The off-screen target that the compute program writes.
    Intermediate,
    /// The acquired image of the presentable surface.
    Presentable,
}

/// One command of a frame's command buffer.
///
/// The stretch from the intermediate target onto the presentable image uses
/// linear filtering, always.
#[derive(Clone, Copy, Debug, PartialEq, Eq, Structural)]
pub enum Command {
    /// A full memory barrier that moves `image` from layout `from` to `to`.
    Transition { image: ImageRole, from: ImageLayout, to: ImageLayout },
    /// Binds the compute program.
    BindPipeline,
    /// Binds the frame's descriptor set, whose one slot is the intermediate
    /// target as a storage image.
    BindTarget,
    /// Pushes the per-dispatch arguments: the target's size and the elapsed
    /// time. The camera pose is appended by whoever records the command.
    PushArguments { width: u32, height: u32, time_millis: u32 },
    /// Dispatches the compute program over these work groups.
    Dispatch { groups: WorkGroups },
    /// Stretches the whole intermediate target (`source` pixels, read in
    /// `source_layout`) onto the whole presentable image (`target` pixels,
    /// written in `target_layout`) with linear filtering.
    Blit {
        source: Extent2D,
        source_layout: ImageLayout,
        target: Extent2D,
        target_layout: ImageLayout,
    },
}

/// The tracked layouts of the frame's two images.
#[derive(Clone, Copy, Debug, PartialEq, Eq, Structural)]
pub struct Layouts {
    pub intermediate: ImageLayout,
    pub presentable: ImageLayout,
}

pub open spec fn layout_of(state: Layouts, image: ImageRole) -> ImageLayout {
    match image {
        ImageRole::Intermediate => state.intermediate,
        ImageRole::Presentable => state.presentable,
    }
}

pub open spec fn with_layout(state: Layouts, image: ImageRole, layout: ImageLayout) -> Layouts {
    match image {
        ImageRole::Intermediate => Layouts { intermediate: layout, ..state },
        ImageRole::Presentable => Layouts { presentable: layout, ..state },
    }
}

/// The layouts after `command`, or `None` when `command` is not permitted in
/// `state`: a barrier must start from the image's current layout (or from
/// `Undefined`, discarding the contents) and may not end in `Undefined`; the
/// compute program writes the target only in `General`; a stretch reads and
/// writes its images in the layouts it names, which must be those they are
/// in and must permit transfers.
pub open spec fn apply(state: Layouts, command: Command) -> Option<Layouts> {
    match command {
        Command::Transition { image, from, to } => {
            if (from == ImageLayout::Undefined || from == layout_of(state, image)) && to
                != ImageLayout::Undefined {
                Some(with_layout(state, image, to))
            } else {
                None
            }
        },
        Command::Dispatch { .. } => {
            if state.intermediate == ImageLayout::General {
                Some(state)
            } else {
                None
            }
        },
        Command::Blit { source_layout, target_layout, .. } => {
            if source_layout == state.intermediate && target_layout == state.presentable && (
            source_layout == ImageLayout::TransferSrc || source_layout == ImageLayout::General) && (
            target_layout == ImageLayout::TransferDst || target_layout == ImageLayout::General) {
                Some(state)
            } else {
                None
            }
        },
        _ => Some(state),
    }
}

/// The layouts after `commands` run in order from `state`, or `None` when one
/// of them is not permitted where it stands.
pub open spec fn replay(state: Layouts, commands: Seq<Command>) -> Option<Layouts>
    decreases commands.len(),
{
    if commands.len() == 0 {
        Some(state)
    } else {
        match apply(state, commands[0]) {
            Some(next) => replay(next, commands.drop_first()),
            None => None,
        }
    }
}

/// The commands of a dispatch: the target is made writable (its previous
/// contents are discarded), the program and target are bound, the arguments
/// pushed and the covering work groups dispatched.
pub open spec fn dispatch_sequence(target: Extent2D, time_millis: u32) -> Seq<Command> {
    seq![
        Command::Transition {
            image: ImageRole::Intermediate,
            from: ImageLayout::Undefined,
            to: ImageLayout::General,
        },
        Command::BindPipeline,
        Command::BindTarget,
        Command::PushArguments {
            width: target.width,
            height: target.height,
            time_millis: time_millis,
        },
        Command::Dispatch {
            groups: WorkGroups {
                x: groups_covering(target.width) as u32,
                y: groups_covering(target.height) as u32,
                z: 1,
            },
        },
    ]
}

/// The commands of a blit: the target becomes a transfer source and the
/// presentable image a transfer destination, the target is stretched onto
/// it, and then the target returns to `General` and the presentable image
/// becomes ready for presentation.
pub open spec fn blit_sequence(target: Extent2D, surface: Extent2D) -> Seq<Command> {
    seq![
        Command::Transition {
            image: ImageRole::Intermediate,
            from: ImageLayout::General,
            to: ImageLayout::TransferSrc,
        },
        Command::Transition {
            image: ImageRole::Presentable,
            from: ImageLayout::Undefined,
            to: ImageLayout::TransferDst,
        },
        Command::Blit {
            source: target,
            source_layout: ImageLayout::TransferSrc,
            target: surface,
            target_layout: ImageLayout::TransferDst,
        },
        Command::Transition {
            image: ImageRole::Intermediate,
            from: ImageLayout::TransferSrc,
            to: ImageLayout::General,
        },
        Command::Transition {
            image: ImageRole::Presentable,
            from: ImageLayout::TransferDst,
            to: ImageLayout::PresentSrc,
        },
    ]
}

/// All commands of one frame: a dispatch followed by a blit.
pub open spec fn frame_sequence(target: Extent2D, surface: Extent2D, time_millis: u32) -> Seq<
    Command,
> {
    dispatch_sequence(target, time_millis) + blit_sequence(target, surface)
}

/// Records a dispatch of the compute program over `target`.
pub fn dispatch_commands(target: Extent2D, time_millis: u32) -> (r: Vec<Command>)
    ensures
        r@ == dispatch_sequence(target, time_millis),
{
    let mut r: Vec<Command> = Vec::new();
    push_dispatch(&mut r, target, time_millis);
    r
}

/// Records the stretch of the intermediate target (`target` pixels) onto the
/// presentable image (`surface` pixels).
pub fn blit_commands(target: Extent2D, surface: Extent2D) -> (r: Vec<Command>)
    ensures
        r@ == blit_sequence(target, surface),
{
    let mut r: Vec<Command> = Vec::new();
    push_blit(&mut r, target, surface);
    r
}

/// Records a whole frame: a dispatch, then a blit.
pub fn frame_commands(target: Extent2D, surface: Extent2D, time_millis: u32) -> (r: Vec<Command>)
    ensures
        r@ == frame_sequence(target, surface, time_millis),
{
    let mut r: Vec<Command> = Vec::new();
    push_dispatch(&mut r, target, time_millis);
    push_blit(&mut r, target, surface);
    r
}

fn push_dispatch(out: &mut Vec<Command>, target: Extent2D, time_millis: u32)
    ensures
        final(out)@ == old(out)@ + dispatch_sequence(target, time_millis),
{
    let groups = dispatch_group_counts(target);
    out.push(
        Command::Transition {
            image: ImageRole::Intermediate,
            from: ImageLayout::Undefined,
            to: ImageLayout::General,
        },
    );
    out.push(Command::BindPipeline);
    out.push(Command::BindTarget);
    out.push(Command::PushArguments { width: target.width, height: target.height, time_millis });
    out.push(Command::Dispatch { groups });
    assert(out@ =~= old(out)@ + dispatch_sequence(target, time_millis));
}

fn push_blit(out: &mut Vec<Command>, target: Extent2D, surface: Extent2D)
    ensures
        final(out)@ == old(out)@ + blit_sequence(target, surface),
{
    out.push(
        Command::Transition {
            image: ImageRole::Intermediate,
            from: ImageLayout::General,
            to: ImageLayout::TransferSrc,
        },
    );
    out.push(
        Command::Transition {
            image: ImageRole::Presentable,
            from: ImageLayout::Undefined,
            to: ImageLayout::TransferDst,
        },
    );
    out.push(
        Command::Blit {
            source: target,
            source_layout: ImageLayout::TransferSrc,
            target: surface,
            target_layout: ImageLayout::TransferDst,
        },
    );
    out.push(
        Command::Transition {
            image: ImageRole::Intermediate,
            from: ImageLayout::TransferSrc,
            to: ImageLayout::General,
        },
    );
    out.push(
        Command::Transition {
            image: ImageRole::Presentable,
            from: ImageLayout::TransferDst,
            to: ImageLayout::PresentSrc,
        },
    );
    assert(out@ =~= old(out)@ + blit_sequence(target, surface));
}

/// Replaying two command lists one after the other is replaying the first,
/// then the second from where the first left the images.
pub proof fn lemma_replay_append(state: Layouts, first: Seq<Command>, second: Seq<Command>)
    ensures
        replay(state, first + second) == match replay(state, first) {
            Some(mid) => replay(mid, second),
            None => None,
        },
    decreases first.len(),
{
    if first.len() == 0 {
        assert(first + second =~= second);
    } else {
        assert((first + second).drop_first() =~= first.drop_first() + second);
        match apply(state, first[0]) {
            Some(next) => lemma_replay_append(next, first.drop_first(), second),
            None => {},
        }
    }
}

/// Whatever layouts the images are in beforehand, every command of a frame
/// finds its images in a permitted layout, and the frame leaves the
/// intermediate target in `General` (the layout the next dispatch writes it
/// in) and the presentable image ready for presentation.
pub proof fn lemma_frame_layout_cycle(
    start: Layouts,
    target: Extent2D,
    surface: Extent2D,
    time_millis: u32,
)
    ensures
        replay(start, frame_sequence(target, surface, time_millis)) == Some(
            Layouts { intermediate: ImageLayout::General, presentable: ImageLayout::PresentSrc },
        ),
{
    let d = dispatch_sequence(target, time_millis);
    let b = blit_sequence(target, surface);
    lemma_replay_append(start, d, b);
    reveal_with_fuel(replay, 6);
    let mid = Layouts { intermediate: ImageLayout::General, presentable: start.presentable };
    assert(replay(start, d) == Some(mid));
    assert(replay(mid, b) == Some(
        Layouts { intermediate: ImageLayout::General, presentable: ImageLayout::PresentSrc },
    ));
}

/// Frames recorded one after another chain: each finds the images where the
/// previous one left them, and a run of any number of frames is permitted
/// and ends as one frame does.
pub proof fn lemma_frames_chain(
    start: Layouts,
    target: Extent2D,
    surface: Extent2D,
    time_millis: u32,
    rest: Seq<Command>,
    end: Layouts,
)
    requires
        replay(
            Layouts { intermediate: ImageLayout::General, presentable: ImageLayout::PresentSrc },
            rest,
        ) == Some(end),
    ensures
        replay(start, frame_sequence(target, surface, time_millis) + rest) == Some(end),
{
    lemma_replay_append(start, frame_sequence(target, surface, time_millis), rest);
    lemma_frame_layout_cycle(start, target, surface, time_millis);
}

} // verus!
