use luma::extent::{Extent2D, WorkGroups};
use luma::layout::{
    blit_commands, dispatch_commands, frame_commands, Command, ImageLayout, ImageRole,
};

/// Tracks both images' layouts through a command list; `None` when a
/// command uses an image in a layout that does not permit that use.
fn replay(mut intermediate: ImageLayout, mut presentable: ImageLayout, commands: &[Command]) -> Option<(ImageLayout, ImageLayout)> {
    for c in commands {
        match *c {
            Command::Transition { image, from, to } => {
                let current = match image {
                    ImageRole::Intermediate => &mut intermediate,
                    ImageRole::Presentable => &mut presentable,
                };
                if (from != ImageLayout::Undefined && from != *current) || to == ImageLayout::Undefined {
                    return None;
                }
                *current = to;
            }
            Command::Dispatch { .. } => {
                if intermediate != ImageLayout::General {
                    return None;
                }
            }
            Command::Blit { source_layout, target_layout, .. } => {
                if source_layout != intermediate || target_layout != presentable {
                    return None;
                }
            }
            _ => {}
        }
    }
    Some((intermediate, presentable))
}

const ALL: [ImageLayout; 5] = [
    ImageLayout::Undefined,
    ImageLayout::General,
    ImageLayout::TransferSrc,
    ImageLayout::TransferDst,
    ImageLayout::PresentSrc,
];

#[test]
fn dispatch_records_transition_binds_arguments_and_groups() {
    let target = Extent2D { width: 1000, height: 700 };
    let commands = dispatch_commands(target, 1234);
    assert_eq!(
        commands,
        vec![
            Command::Transition {
                image: ImageRole::Intermediate,
                from: ImageLayout::Undefined,
                to: ImageLayout::General,
            },
            Command::BindPipeline,
            Command::BindTarget,
            Command::PushArguments { width: 1000, height: 700, time_millis: 1234 },
            Command::Dispatch { groups: WorkGroups { x: 63, y: 44, z: 1 } },
        ]
    );
}

#[test]
fn blit_moves_both_images_and_stretches_between_extents() {
    let target = Extent2D { width: 256, height: 192 };
    let surface = Extent2D { width: 1024, height: 768 };
    assert_eq!(
        blit_commands(target, surface),
        vec![
            Command::Transition {
                image: ImageRole::Intermediate,
                from: ImageLayout::General,
                to: ImageLayout::TransferSrc,
            },
            Command::Transition {
                image: ImageRole::Presentable,
                from: ImageLayout::Undefined,
                to: ImageLayout::TransferDst,
            },
            Command::Blit {
                source: target,
                source_layout: ImageLayout::TransferSrc,
                target: surface,
                target_layout: ImageLayout::TransferDst,
            },
            Command::Transition {
                image: ImageRole::Intermediate,
                from: ImageLayout::TransferSrc,
                to: ImageLayout::General,
            },
            Command::Transition {
                image: ImageRole::Presentable,
                from: ImageLayout::TransferDst,
                to: ImageLayout::PresentSrc,
            },
        ]
    );
}

#[test]
fn frame_is_dispatch_then_blit() {
    let target = Extent2D { width: 320, height: 200 };
    let surface = Extent2D { width: 640, height: 400 };
    let mut expected = dispatch_commands(target, 7);
    expected.extend(blit_commands(target, surface));
    assert_eq!(frame_commands(target, surface, 7), expected);
}

#[test]
fn frame_layout_cycle_closes_from_any_start() {
    let target = Extent2D { width: 256, height: 192 };
    let surface = Extent2D { width: 1024, height: 768 };
    let frame = frame_commands(target, surface, 0);
    for a in ALL {
        for b in ALL {
            assert_eq!(
                replay(a, b, &frame),
                Some((ImageLayout::General, ImageLayout::PresentSrc))
            );
        }
    }
    // the next frame's dispatch finds the target in General
    let mut two = frame.clone();
    two.extend(frame_commands(target, surface, 16));
    assert_eq!(
        replay(ImageLayout::Undefined, ImageLayout::Undefined, &two),
        Some((ImageLayout::General, ImageLayout::PresentSrc))
    );
}
