//! The scene renderer. It draws into whichever framebuffer is bound and owns
//! no GPU object of its own.

use vstd::prelude::*;
use crate::binary32::Binary32;
use crate::gl::{GlCommand, GlState, Rgba, COLOR_BUFFER_BIT, DEPTH_BUFFER_BIT};

verus! {

/// The bits of the number one.
pub const ONE: u32 = 0x3F80_0000;

/// An opaque colour.
pub open spec fn opaque(red: Binary32, green: Binary32, blue: Binary32) -> Rgba {
    Rgba { red, green, blue, alpha: Binary32 { bits: ONE } }
}

/// The background of the scene: red 0.2, green 0.22, blue 0.26, opaque.
pub open spec fn scene_background() -> Rgba {
    opaque(
        Binary32 { bits: 0x3E4C_CCCD },
        Binary32 { bits: 0x3E61_47AE },
        Binary32 { bits: 0x3E85_1EB8 },
    )
}

/// The commands that fill the colour buffer with an opaque colour.
pub open spec fn color_commands(red: Binary32, green: Binary32, blue: Binary32) -> Seq<GlCommand> {
    seq![
        GlCommand::ClearColor { color: opaque(red, green, blue) },
        GlCommand::Clear { mask: COLOR_BUFFER_BIT },
    ]
}

/// The commands of a scene pass: the colour buffer is filled with the
/// background of the scene and the depth buffer is cleared with it.
pub open spec fn scene_pass_commands() -> Seq<GlCommand> {
    seq![
        GlCommand::ClearColor { color: scene_background() },
        GlCommand::Clear { mask: COLOR_BUFFER_BIT | DEPTH_BUFFER_BIT },
    ]
}

/// A scene pass fills the colour buffer of the framebuffer that is bound
/// with the background of the scene, and touches no other framebuffer and
/// no binding.
pub proof fn lemma_scene_pass_effect(before: GlState)
    ensures
        before.run(scene_pass_commands()) == (GlState {
            clear_color: scene_background(),
            cleared_to: before.cleared_to.insert(before.framebuffer_binding, scene_background()),
            ..before
        }),
{
    assert(scene_pass_commands().len() == 2);
    assert((COLOR_BUFFER_BIT | DEPTH_BUFFER_BIT) & COLOR_BUFFER_BIT == COLOR_BUFFER_BIT)
        by (bit_vector);
    reveal_with_fuel(GlState::run_prefix, 3);
}

/// Filling with a colour fills the colour buffer of the framebuffer that is
/// bound, and touches no other framebuffer and no binding.
pub proof fn lemma_color_effect(red: Binary32, green: Binary32, blue: Binary32, before: GlState)
    ensures
        before.run(color_commands(red, green, blue)) == (GlState {
            clear_color: opaque(red, green, blue),
            cleared_to: before.cleared_to.insert(
                before.framebuffer_binding,
                opaque(red, green, blue),
            ),
            ..before
        }),
{
    assert(color_commands(red, green, blue).len() == 2);
    assert(COLOR_BUFFER_BIT & COLOR_BUFFER_BIT == COLOR_BUFFER_BIT) by (bit_vector);
    reveal_with_fuel(GlState::run_prefix, 3);
}

/// The scene renderer.
#[derive(Clone, Copy, Debug, PartialEq, Eq, Structural)]
pub struct Renderer;

impl Renderer {
    pub fn new() -> (renderer: Renderer)
        ensures
            renderer == Renderer,
    {
        Renderer
    }

    /// The commands that fill the bound framebuffer's colour buffer with the
    /// opaque colour of the given red, green and blue.
    pub fn render_color(&mut self, red: Binary32, green: Binary32, blue: Binary32) -> (commands:
        Vec<GlCommand>)
        ensures
            commands@ == color_commands(red, green, blue),
    {
        let mut commands: Vec<GlCommand> = Vec::new();
        commands.push(
            GlCommand::ClearColor {
                color: Rgba { red, green, blue, alpha: Binary32 { bits: ONE } },
            },
        );
        commands.push(GlCommand::Clear { mask: COLOR_BUFFER_BIT });
        assert(commands@ =~= color_commands(red, green, blue));
        commands
    }

    /// The commands of a scene pass into the bound framebuffer.
    pub fn render_scene_pass(&mut self) -> (commands: Vec<GlCommand>)
        ensures
            commands@ == scene_pass_commands(),
    {
        let mut commands: Vec<GlCommand> = Vec::new();
        commands.push(
            GlCommand::ClearColor {
                color: Rgba {
                    red: Binary32 { bits: 0x3E4C_CCCD },
                    green: Binary32 { bits: 0x3E61_47AE },
                    blue: Binary32 { bits: 0x3E85_1EB8 },
                    alpha: Binary32 { bits: ONE },
                },
            },
        );
        commands.push(GlCommand::Clear { mask: COLOR_BUFFER_BIT | DEPTH_BUFFER_BIT });
        assert(commands@ =~= scene_pass_commands());
        commands
    }
}

} // verus!
