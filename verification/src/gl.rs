//! The OpenGL commands the viewer issues, as plain values, and a mathematical
//! model of the part of the GL state those commands act on.
//!
//! The library never calls the driver. An operation returns a list of
//! [`GlCommand`]s; the embedding program issues them in order. The meaning of a
//! list is given by [`GlState::run`], over which the guarantees of the render
//! target are stated.

use vstd::prelude::*;
use crate::binary32::Binary32;

verus! {

pub const DEPTH_BUFFER_BIT: u32 = 0x0000_0100;

pub const COLOR_BUFFER_BIT: u32 = 0x0000_4000;

pub const TEXTURE_2D: u32 = 0x0DE1;

pub const TEXTURE_MAG_FILTER: u32 = 0x2800;

pub const TEXTURE_MIN_FILTER: u32 = 0x2801;

pub const TEXTURE_WRAP_S: u32 = 0x2802;

pub const TEXTURE_WRAP_T: u32 = 0x2803;

pub const LINEAR: u32 = 0x2601;

pub const CLAMP_TO_EDGE: u32 = 0x812F;

pub const RGBA: u32 = 0x1908;

pub const RGBA8: u32 = 0x8058;

pub const UNSIGNED_BYTE: u32 = 0x1401;

pub const RENDERBUFFER: u32 = 0x8D41;

pub const DEPTH24_STENCIL8: u32 = 0x88F0;

pub const FRAMEBUFFER: u32 = 0x8D40;

pub const COLOR_ATTACHMENT0: u32 = 0x8CE0;

pub const DEPTH_STENCIL_ATTACHMENT: u32 = 0x821A;

pub const FRAMEBUFFER_COMPLETE: u32 = 0x8CD5;

/// An extent as the signed 32-bit count the GL takes: the same number up to
/// `i32::MAX`, and the two's-complement reading of the same bits above it.
pub open spec fn gl_sizei(extent: u32) -> i32 {
    if extent <= 0x7fff_ffff {
        extent as i32
    } else {
        (extent - 0x1_0000_0000) as i32
    }
}

/// Converts an extent to the signed count the GL takes.
pub fn to_gl_sizei(extent: u32) -> (count: i32)
    ensures
        count == gl_sizei(extent),
        extent <= i32::MAX ==> count == extent,
{
    let count: i32 = #[verifier::truncate]
    (extent as i32);
    assert(extent <= 0x7fff_ffffu32 ==> (extent as i32) == extent) by (bit_vector);
    assert(extent > 0x7fff_ffffu32 ==> (extent as i32) == extent - 0x1_0000_0000) by (bit_vector);
    count
}

/// A colour with its opacity, each part between zero and one.
#[derive(Clone, Copy, Debug, PartialEq, Eq, Structural)]
pub struct Rgba {
    pub red: Binary32,
    pub green: Binary32,
    pub blue: Binary32,
    pub alpha: Binary32,
}

/// One call into the GL. Object names are the driver's; `None` in a binding
/// stands for the default object (name zero).
#[allow(inconsistent_fields)]
#[derive(Clone, Copy, Debug, PartialEq, Eq)]
pub enum GlCommand {
    BindTexture { target: u32, texture: Option<u32> },
    TexParameterI32 { target: u32, parameter: u32, value: i32 },
    /// Allocates the storage of one image of the bound texture, with no
    /// pixel data.
    TexImage2d {
        target: u32,
        level: i32,
        internal_format: i32,
        width: i32,
        height: i32,
        border: i32,
        format: u32,
        ty: u32,
    },
    BindRenderbuffer { target: u32, renderbuffer: Option<u32> },
    RenderbufferStorage { target: u32, internal_format: u32, width: i32, height: i32 },
    BindFramebuffer { target: u32, framebuffer: Option<u32> },
    FramebufferTexture2d {
        target: u32,
        attachment: u32,
        texture_target: u32,
        texture: Option<u32>,
        level: i32,
    },
    FramebufferRenderbuffer {
        target: u32,
        attachment: u32,
        renderbuffer_target: u32,
        renderbuffer: Option<u32>,
    },
    /// Asks the driver for the completeness status of the bound framebuffer.
    /// The answer goes back to the operation that issued the command.
    CheckFramebufferStatus { target: u32 },
    Viewport { x: i32, y: i32, width: i32, height: i32 },
    /// Sets the colour that clearing fills colour buffers with.
    ClearColor { color: Rgba },
    /// Clears the buffers of the bound framebuffer that `mask` names.
    Clear { mask: u32 },
    DeleteFramebuffer { framebuffer: u32 },
    DeleteRenderbuffer { renderbuffer: u32 },
    DeleteTexture { texture: u32 },
}

/// The storage of a texture's base image or of a renderbuffer.
pub struct Storage {
    pub internal_format: int,
    pub width: int,
    pub height: int,
}

/// The viewport rectangle.
pub struct ViewportRect {
    pub x: int,
    pub y: int,
    pub width: int,
    pub height: int,
}

/// The part of the state of a GL context that the viewer's commands read or
/// change.
pub struct GlState {
    /// The texture bound to `TEXTURE_2D`.
    pub texture_binding: Option<u32>,
    /// The renderbuffer bound to `RENDERBUFFER`.
    pub renderbuffer_binding: Option<u32>,
    /// The framebuffer bound to `FRAMEBUFFER`; `None` is the window's own.
    pub framebuffer_binding: Option<u32>,
    pub viewport: ViewportRect,
    /// The storage of the base image of each texture that has one.
    pub texture_storage: Map<u32, Storage>,
    /// The value of each sampling parameter that was set, by texture and
    /// parameter.
    pub texture_parameters: Map<(u32, u32), int>,
    /// The storage of each renderbuffer that has one.
    pub renderbuffer_storage: Map<u32, Storage>,
    /// The texture at `COLOR_ATTACHMENT0` of each framebuffer that has one.
    pub color_attachment: Map<u32, u32>,
    /// The renderbuffer at `DEPTH_STENCIL_ATTACHMENT` of each framebuffer that
    /// has one.
    pub depth_stencil_attachment: Map<u32, u32>,
    /// How many times storage was allocated since the context was made.
    pub allocations: nat,
    /// The colour that clearing fills colour buffers with.
    pub clear_color: Rgba,
    /// The colour the colour buffer of each framebuffer was last cleared to;
    /// `None` is the window's framebuffer.
    pub cleared_to: Map<Option<u32>, Rgba>,
}

impl GlState {
    /// The state after one command. A command the model does not cover, or
    /// one the GL would reject for want of a bound object, leaves the state
    /// as it is.
    pub open spec fn apply(self, command: GlCommand) -> GlState {
        match command {
            GlCommand::BindTexture { target, texture } => if target == TEXTURE_2D {
                GlState { texture_binding: texture, ..self }
            } else {
                self
            },
            GlCommand::TexParameterI32 { target, parameter, value } => {
                if target == TEXTURE_2D && self.texture_binding is Some {
                    GlState {
                        texture_parameters: self.texture_parameters.insert(
                            (self.texture_binding->0, parameter),
                            value as int,
                        ),
                        ..self
                    }
                } else {
                    self
                }
            },
            GlCommand::TexImage2d { target, level, internal_format, width, height, .. } => {
                if target == TEXTURE_2D && level == 0 && self.texture_binding is Some {
                    GlState {
                        texture_storage: self.texture_storage.insert(
                            self.texture_binding->0,
                            Storage {
                                internal_format: internal_format as int,
                                width: width as int,
                                height: height as int,
                            },
                        ),
                        allocations: self.allocations + 1,
                        ..self
                    }
                } else {
                    self
                }
            },
            GlCommand::BindRenderbuffer { target, renderbuffer } => if target == RENDERBUFFER {
                GlState { renderbuffer_binding: renderbuffer, ..self }
            } else {
                self
            },
            GlCommand::RenderbufferStorage { target, internal_format, width, height } => {
                if target == RENDERBUFFER && self.renderbuffer_binding is Some {
                    GlState {
                        renderbuffer_storage: self.renderbuffer_storage.insert(
                            self.renderbuffer_binding->0,
                            Storage {
                                internal_format: internal_format as int,
                                width: width as int,
                                height: height as int,
                            },
                        ),
                        allocations: self.allocations + 1,
                        ..self
                    }
                } else {
                    self
                }
            },
            GlCommand::BindFramebuffer { target, framebuffer } => if target == FRAMEBUFFER {
                GlState { framebuffer_binding: framebuffer, ..self }
            } else {
                self
            },
            GlCommand::FramebufferTexture2d { target, attachment, texture, .. } => {
                if target == FRAMEBUFFER && attachment == COLOR_ATTACHMENT0
                    && self.framebuffer_binding is Some {
                    let framebuffer = self.framebuffer_binding->0;
                    GlState {
                        color_attachment: match texture {
                            Some(name) => self.color_attachment.insert(framebuffer, name),
                            None => self.color_attachment.remove(framebuffer),
                        },
                        ..self
                    }
                } else {
                    self
                }
            },
            GlCommand::FramebufferRenderbuffer { target, attachment, renderbuffer, .. } => {
                if target == FRAMEBUFFER && attachment == DEPTH_STENCIL_ATTACHMENT
                    && self.framebuffer_binding is Some {
                    let framebuffer = self.framebuffer_binding->0;
                    GlState {
                        depth_stencil_attachment: match renderbuffer {
                            Some(name) => self.depth_stencil_attachment.insert(framebuffer, name),
                            None => self.depth_stencil_attachment.remove(framebuffer),
                        },
                        ..self
                    }
                } else {
                    self
                }
            },
            GlCommand::CheckFramebufferStatus { .. } => self,
            GlCommand::Viewport { x, y, width, height } => GlState {
                viewport: ViewportRect {
                    x: x as int,
                    y: y as int,
                    width: width as int,
                    height: height as int,
                },
                ..self
            },
            GlCommand::ClearColor { color } => GlState { clear_color: color, ..self },
            GlCommand::Clear { mask } => if mask & COLOR_BUFFER_BIT == COLOR_BUFFER_BIT {
                GlState {
                    cleared_to: self.cleared_to.insert(self.framebuffer_binding, self.clear_color),
                    ..self
                }
            } else {
                self
            },
            GlCommand::DeleteFramebuffer { framebuffer } => GlState {
                framebuffer_binding: if self.framebuffer_binding == Some(framebuffer) {
                    None
                } else {
                    self.framebuffer_binding
                },
                color_attachment: self.color_attachment.remove(framebuffer),
                depth_stencil_attachment: self.depth_stencil_attachment.remove(framebuffer),
                cleared_to: self.cleared_to.remove(Some(framebuffer)),
                ..self
            },
            GlCommand::DeleteRenderbuffer { renderbuffer } => GlState {
                renderbuffer_binding: if self.renderbuffer_binding == Some(renderbuffer) {
                    None
                } else {
                    self.renderbuffer_binding
                },
                renderbuffer_storage: self.renderbuffer_storage.remove(renderbuffer),
                ..self
            },
            GlCommand::DeleteTexture { texture } => GlState {
                texture_binding: if self.texture_binding == Some(texture) {
                    None
                } else {
                    self.texture_binding
                },
                texture_storage: self.texture_storage.remove(texture),
                texture_parameters: self.texture_parameters.restrict(
                    Set::new(|key: (u32, u32)| key.0 != texture),
                ),
                ..self
            },
        }
    }

    /// The state after the first `count` commands of a list.
    pub open spec fn run_prefix(self, commands: Seq<GlCommand>, count: nat) -> GlState
        decreases count,
    {
        if count == 0 {
            self
        } else {
            self.run_prefix(commands, (count - 1) as nat).apply(commands[count - 1])
        }
    }

    /// The state after a list of commands, issued in order.
    pub open spec fn run(self, commands: Seq<GlCommand>) -> GlState {
        self.run_prefix(commands, commands.len())
    }

    /// Running two lists one after the other is running their concatenation.
    pub proof fn lemma_run_concat(self, first: Seq<GlCommand>, second: Seq<GlCommand>)
        ensures
            self.run(first + second) == self.run(first).run(second),
    {
        self.lemma_run_prefix_concat(first, second, second.len());
        assert((first + second).len() == first.len() + second.len());
    }

    proof fn lemma_run_prefix_split(
        self,
        commands: Seq<GlCommand>,
        other: Seq<GlCommand>,
        count: nat,
    )
        requires
            count <= commands.len(),
            count <= other.len(),
            forall|i: int| 0 <= i < count ==> commands[i] == other[i],
        ensures
            self.run_prefix(commands, count) == self.run_prefix(other, count),
        decreases count,
    {
        if count > 0 {
            self.lemma_run_prefix_split(commands, other, (count - 1) as nat);
        }
    }

    proof fn lemma_run_prefix_concat(
        self,
        first: Seq<GlCommand>,
        second: Seq<GlCommand>,
        count: nat,
    )
        requires
            count <= second.len(),
        ensures
            self.run_prefix(first + second, first.len() + count) == self.run(first).run_prefix(
                second,
                count,
            ),
        decreases count,
    {
        if count == 0 {
            self.lemma_run_prefix_split(first + second, first, first.len());
        } else {
            self.lemma_run_prefix_concat(first, second, (count - 1) as nat);
            assert((first + second)[first.len() + count - 1] == second[count - 1]);
        }
    }
}

} // verus!
