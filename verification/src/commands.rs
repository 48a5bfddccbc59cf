//! The commands of one frame: one render pass that draws the quad once.

use vstd::prelude::*;
use crate::geometry::{quad_index_list, QUAD_INDEX_COUNT};
use crate::single::{single_of, Single};
use crate::swapchain::{Framebuffer, Viewport};
use crate::uniforms::Constants;

verus! {

/// One command of a frame.
#[derive(Clone, Copy, Debug, PartialEq, Eq)]
pub enum Command {
    /// Begin the render pass on `framebuffer`, clearing it to `clear_color`
    /// (red, green, blue, alpha), with the commands of the pass inline.
    BeginRenderPass { framebuffer: Framebuffer, clear_color: [Single; 4] },
    /// Set the one viewport.
    SetViewport { viewport: Viewport },
    /// Push the payload of `constants` to the fragment stage, at offset 0.
    PushConstants { constants: Constants },
    /// Bind the graphics pipeline.
    BindPipeline,
    /// Bind the vertices of the quad.
    BindVertexBuffers,
    /// Bind the indices of the quad.
    BindIndexBuffer,
    /// Draw `instance_count` instances of `index_count` indices, from the
    /// first index, vertex and instance on.
    DrawIndexed { index_count: u32, instance_count: u32 },
    /// End the render pass.
    EndRenderPass,
}

/// The color every frame is cleared to: black, opaque.
pub open spec fn clear_color() -> [Single; 4] {
    [
        Single { bits: 0 },
        Single { bits: 0 },
        Single { bits: 0 },
        Single { bits: single_of(1) as u32 },
    ]
}

/// The commands of a frame, in order: begin the pass on the framebuffer, set
/// the viewport, push the constants, bind the pipeline and the quad, draw the
/// quad once, end the pass.
pub open spec fn frame_commands(framebuffer: Framebuffer, viewport: Viewport, constants: Constants) -> Seq<
    Command,
> {
    seq![
        Command::BeginRenderPass { framebuffer, clear_color: clear_color() },
        Command::SetViewport { viewport },
        Command::PushConstants { constants },
        Command::BindPipeline,
        Command::BindVertexBuffers,
        Command::BindIndexBuffer,
        Command::DrawIndexed { index_count: QUAD_INDEX_COUNT, instance_count: 1 },
        Command::EndRenderPass,
    ]
}

/// Lists the commands of one frame into `framebuffer`.
pub fn record(framebuffer: Framebuffer, viewport: Viewport, constants: Constants) -> (commands: Vec<
    Command,
>)
    ensures
        commands@ == frame_commands(framebuffer, viewport, constants),
{
    let black = [
        Single::from_u32(0),
        Single::from_u32(0),
        Single::from_u32(0),
        Single::from_u32(1),
    ];
    assert(black == clear_color());
    let commands = vec![
        Command::BeginRenderPass { framebuffer, clear_color: black },
        Command::SetViewport { viewport },
        Command::PushConstants { constants },
        Command::BindPipeline,
        Command::BindVertexBuffers,
        Command::BindIndexBuffer,
        Command::DrawIndexed { index_count: QUAD_INDEX_COUNT, instance_count: 1 },
        Command::EndRenderPass,
    ];
    assert(commands@ =~= frame_commands(framebuffer, viewport, constants));
    commands
}

/// A frame is one render pass: it begins the pass first and ends it last, and
/// between the two it draws once, all the indices of the quad, after the
/// viewport is set, the constants are pushed and the pipeline and the quad are
/// bound.
pub proof fn frame_is_one_pass_with_one_draw(
    framebuffer: Framebuffer,
    viewport: Viewport,
    constants: Constants,
)
    ensures
        ({
            let commands = frame_commands(framebuffer, viewport, constants);
            let draw = 6;
            &&& commands.first() matches Command::BeginRenderPass { framebuffer: target, .. }
                && target == framebuffer
            &&& commands.last() is EndRenderPass
            &&& forall|i: int|
                0 < i < commands.len() ==> !(#[trigger] commands[i] is BeginRenderPass)
            &&& forall|i: int|
                0 <= i < commands.len() - 1 ==> !(#[trigger] commands[i] is EndRenderPass)
            &&& commands[draw] == (Command::DrawIndexed {
                index_count: quad_index_list().len() as u32,
                instance_count: 1,
            })
            &&& forall|i: int|
                0 <= i < commands.len() && #[trigger] commands[i] is DrawIndexed ==> i == draw
            &&& exists|i: int| 0 <= i < draw && commands[i] == (Command::SetViewport { viewport })
            &&& exists|i: int|
                0 <= i < draw && commands[i] == (Command::PushConstants { constants })
            &&& exists|i: int| 0 <= i < draw && commands[i] is BindPipeline
            &&& exists|i: int| 0 <= i < draw && commands[i] is BindVertexBuffers
            &&& exists|i: int| 0 <= i < draw && commands[i] is BindIndexBuffer
        }),
{
    let commands = frame_commands(framebuffer, viewport, constants);
    assert(commands[1] == (Command::SetViewport { viewport }));
    assert(commands[2] == (Command::PushConstants { constants }));
    assert(commands[3] is BindPipeline);
    assert(commands[4] is BindVertexBuffers);
    assert(commands[5] is BindIndexBuffer);
}

} // verus!
