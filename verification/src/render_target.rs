//! The offscreen render target: a framebuffer with a colour texture and a
//! depth/stencil renderbuffer, kept at a known size in physical pixels.
//!
//! The target owns the names of its three GPU objects and decides which
//! commands create, size, bind and delete them. Its recorded size is the size
//! its attachments were last allocated at; it counts as usable only while the
//! driver's last completeness check, made after the last resize, has passed.

use vstd::prelude::*;
use crate::geometry::PhysicalSize;
use crate::gl::{
    gl_sizei, to_gl_sizei, GlCommand, GlState, Storage, CLAMP_TO_EDGE, COLOR_ATTACHMENT0,
    DEPTH24_STENCIL8, DEPTH_STENCIL_ATTACHMENT, FRAMEBUFFER, FRAMEBUFFER_COMPLETE, LINEAR,
    RENDERBUFFER, RGBA, RGBA8, TEXTURE_2D, TEXTURE_MAG_FILTER, TEXTURE_MIN_FILTER, TEXTURE_WRAP_S,
    TEXTURE_WRAP_T, UNSIGNED_BYTE,
};

verus! {

/// One of the three kinds of GPU object a render target is made of.
#[derive(Clone, Copy, Debug, PartialEq, Eq, Structural)]
pub enum GpuObject {
    Framebuffer,
    Renderbuffer,
    Texture,
}

/// Why a render target could not be created or resized.
#[derive(Clone, Copy, Debug, PartialEq, Eq, Structural)]
pub enum RenderTargetError {
    /// The driver could not allocate a GPU object.
    ResourceCreation { object: GpuObject },
    /// The framebuffer failed the completeness check; `status` is the code
    /// the driver reported.
    FramebufferIncomplete { status: u32 },
}

/// What is known of a target's framebuffer since its last resize.
#[derive(Clone, Copy, Debug, PartialEq, Eq, Structural)]
pub enum Completeness {
    /// The attachments were reallocated and the driver's answer is still out.
    Unchecked,
    /// The last check passed: the target can be rendered into.
    Complete,
    /// The last check failed with this status.
    Incomplete { status: u32 },
}

/// What a render target is, as a mathematical value.
pub struct TargetView {
    pub size: PhysicalSize,
    pub framebuffer: u32,
    pub depth_buffer: u32,
    pub color_texture: u32,
    pub completeness: Completeness,
}

impl TargetView {
    /// The object names are real names and the size can back an attachment.
    pub open spec fn wf(self) -> bool {
        &&& self.size.is_drawable()
        &&& self.framebuffer != 0
        &&& self.depth_buffer != 0
        &&& self.color_texture != 0
    }

    pub open spec fn is_complete(self) -> bool {
        self.completeness is Complete
    }

    /// The commands that give both attachments storage of `size`, attach them
    /// to the framebuffer again and ask for its status, leaving every binding
    /// at its default.
    pub open spec fn allocation_commands(self, size: PhysicalSize) -> Seq<GlCommand> {
        let width = gl_sizei(size.width);
        let height = gl_sizei(size.height);
        seq![
            GlCommand::BindTexture { target: TEXTURE_2D, texture: Some(self.color_texture) },
            GlCommand::TexParameterI32 {
                target: TEXTURE_2D,
                parameter: TEXTURE_MIN_FILTER,
                value: LINEAR as i32,
            },
            GlCommand::TexParameterI32 {
                target: TEXTURE_2D,
                parameter: TEXTURE_MAG_FILTER,
                value: LINEAR as i32,
            },
            GlCommand::TexParameterI32 {
                target: TEXTURE_2D,
                parameter: TEXTURE_WRAP_S,
                value: CLAMP_TO_EDGE as i32,
            },
            GlCommand::TexParameterI32 {
                target: TEXTURE_2D,
                parameter: TEXTURE_WRAP_T,
                value: CLAMP_TO_EDGE as i32,
            },
            GlCommand::TexImage2d {
                target: TEXTURE_2D,
                level: 0,
                internal_format: RGBA8 as i32,
                width,
                height,
                border: 0,
                format: RGBA,
                ty: UNSIGNED_BYTE,
            },
            GlCommand::BindTexture { target: TEXTURE_2D, texture: None },
            GlCommand::BindRenderbuffer {
                target: RENDERBUFFER,
                renderbuffer: Some(self.depth_buffer),
            },
            GlCommand::RenderbufferStorage {
                target: RENDERBUFFER,
                internal_format: DEPTH24_STENCIL8,
                width,
                height,
            },
            GlCommand::BindRenderbuffer { target: RENDERBUFFER, renderbuffer: None },
            GlCommand::BindFramebuffer { target: FRAMEBUFFER, framebuffer: Some(self.framebuffer) },
            GlCommand::FramebufferTexture2d {
                target: FRAMEBUFFER,
                attachment: COLOR_ATTACHMENT0,
                texture_target: TEXTURE_2D,
                texture: Some(self.color_texture),
                level: 0,
            },
            GlCommand::FramebufferRenderbuffer {
                target: FRAMEBUFFER,
                attachment: DEPTH_STENCIL_ATTACHMENT,
                renderbuffer_target: RENDERBUFFER,
                renderbuffer: Some(self.depth_buffer),
            },
            GlCommand::CheckFramebufferStatus { target: FRAMEBUFFER },
            GlCommand::BindFramebuffer { target: FRAMEBUFFER, framebuffer: None },
        ]
    }

    /// The commands of a resize to `size`: an allocation at the clamped size.
    pub open spec fn resize_commands(self, size: PhysicalSize) -> Seq<GlCommand> {
        self.allocation_commands(size.clamp())
    }

    /// The target once the commands of a resize to `size` are issued: it
    /// records the clamped size, and its framebuffer is yet to be checked.
    pub open spec fn resized(self, size: PhysicalSize) -> TargetView {
        TargetView { size: size.clamp(), completeness: Completeness::Unchecked, ..self }
    }

    /// Whether the target has to be resized to show a region of `size`: it
    /// has, unless it already records the clamped size.
    pub open spec fn needs_resize(self, size: PhysicalSize) -> bool {
        size.clamp() != self.size
    }

    /// The commands that bring the target to `size`: those of a resize where
    /// the size differs from the recorded one, and none where it does not.
    pub open spec fn fit_commands(self, size: PhysicalSize) -> Seq<GlCommand> {
        if self.needs_resize(size) {
            self.resize_commands(size)
        } else {
            Seq::empty()
        }
    }

    /// The target once the commands that bring it to `size` are issued.
    pub open spec fn fitted(self, size: PhysicalSize) -> TargetView {
        if self.needs_resize(size) {
            self.resized(size)
        } else {
            self
        }
    }

    /// The target once the driver has answered the completeness check.
    pub open spec fn checked(self, status: u32) -> TargetView {
        TargetView {
            completeness: if status == FRAMEBUFFER_COMPLETE {
                Completeness::Complete
            } else {
                Completeness::Incomplete { status }
            },
            ..self
        }
    }

    /// The commands that make the target the render destination, with the
    /// viewport covering all of it.
    pub open spec fn bind_commands(self) -> Seq<GlCommand> {
        seq![
            GlCommand::BindFramebuffer { target: FRAMEBUFFER, framebuffer: Some(self.framebuffer) },
            GlCommand::Viewport {
                x: 0,
                y: 0,
                width: gl_sizei(self.size.width),
                height: gl_sizei(self.size.height),
            },
        ]
    }

    /// The commands that make the window's own framebuffer the render
    /// destination again.
    pub open spec fn unbind_commands() -> Seq<GlCommand> {
        seq![GlCommand::BindFramebuffer { target: FRAMEBUFFER, framebuffer: None }]
    }

    /// The commands that delete the target's three GPU objects.
    pub open spec fn release_commands(self) -> Seq<GlCommand> {
        seq![
            GlCommand::DeleteFramebuffer { framebuffer: self.framebuffer },
            GlCommand::DeleteRenderbuffer { renderbuffer: self.depth_buffer },
            GlCommand::DeleteTexture { texture: self.color_texture },
        ]
    }

    /// The commands that delete the target's framebuffer and renderbuffer and
    /// leave its colour texture to another owner.
    pub open spec fn buffer_release_commands(self) -> Seq<GlCommand> {
        seq![
            GlCommand::DeleteFramebuffer { framebuffer: self.framebuffer },
            GlCommand::DeleteRenderbuffer { renderbuffer: self.depth_buffer },
        ]
    }

    /// The storage of the colour texture after an allocation at `size`.
    pub open spec fn color_storage(size: PhysicalSize) -> Storage {
        Storage {
            internal_format: RGBA8 as int,
            width: gl_sizei(size.width) as int,
            height: gl_sizei(size.height) as int,
        }
    }

    /// The storage of the depth/stencil renderbuffer after an allocation at
    /// `size`.
    pub open spec fn depth_storage(size: PhysicalSize) -> Storage {
        Storage {
            internal_format: DEPTH24_STENCIL8 as int,
            width: gl_sizei(size.width) as int,
            height: gl_sizei(size.height) as int,
        }
    }

    /// The sampling parameters of the colour texture after an allocation:
    /// linear filtering both ways and clamping at both edges.
    pub open spec fn sampled(self, parameters: Map<(u32, u32), int>) -> Map<(u32, u32), int> {
        parameters.insert((self.color_texture, TEXTURE_MIN_FILTER), LINEAR as int).insert(
            (self.color_texture, TEXTURE_MAG_FILTER),
            LINEAR as int,
        ).insert((self.color_texture, TEXTURE_WRAP_S), CLAMP_TO_EDGE as int).insert(
            (self.color_texture, TEXTURE_WRAP_T),
            CLAMP_TO_EDGE as int,
        )
    }

    /// Whatever the GL state was, after the commands of an allocation both
    /// attachments have storage of the given size, both are attached to the
    /// target's framebuffer, the colour texture is sampled linearly and
    /// clamped at its edges, every binding is back at its default, and
    /// storage was allocated exactly twice. Nothing else has changed.
    pub proof fn lemma_allocation_effect(self, size: PhysicalSize, before: GlState)
        ensures
            before.run(self.allocation_commands(size)) == (GlState {
                texture_binding: None,
                renderbuffer_binding: None,
                framebuffer_binding: None,
                texture_storage: before.texture_storage.insert(
                    self.color_texture,
                    Self::color_storage(size),
                ),
                texture_parameters: self.sampled(before.texture_parameters),
                renderbuffer_storage: before.renderbuffer_storage.insert(
                    self.depth_buffer,
                    Self::depth_storage(size),
                ),
                color_attachment: before.color_attachment.insert(
                    self.framebuffer,
                    self.color_texture,
                ),
                depth_stencil_attachment: before.depth_stencil_attachment.insert(
                    self.framebuffer,
                    self.depth_buffer,
                ),
                allocations: before.allocations + 2,
                viewport: before.viewport,
                clear_color: before.clear_color,
                cleared_to: before.cleared_to,
            }),
    {
        let commands = self.allocation_commands(size);
        assert(commands.len() == 15);
        reveal_with_fuel(GlState::run_prefix, 16);
    }
}

impl TargetView {
    /// The recorded size is the size of the attachments in a GL state: both
    /// attachments have storage of exactly the recorded size in their
    /// formats, and both are attached to the target's framebuffer.
    pub open spec fn allocated_in(self, gl: GlState) -> bool {
        &&& gl.texture_storage.contains_key(self.color_texture)
        &&& gl.texture_storage[self.color_texture] == Self::color_storage(self.size)
        &&& gl.renderbuffer_storage.contains_key(self.depth_buffer)
        &&& gl.renderbuffer_storage[self.depth_buffer] == Self::depth_storage(self.size)
        &&& gl.color_attachment.contains_key(self.framebuffer)
        &&& gl.color_attachment[self.framebuffer] == self.color_texture
        &&& gl.depth_stencil_attachment.contains_key(self.framebuffer)
        &&& gl.depth_stencil_attachment[self.framebuffer] == self.depth_buffer
    }

    /// The recorded size is never stale: whatever the GL state was, after the
    /// commands of a resize both attachments have storage of exactly the size
    /// the target then records, they are attached to its framebuffer, and the
    /// window's framebuffer is the render destination again.
    pub proof fn lemma_resize_keeps_size_current(self, size: PhysicalSize, before: GlState)
        ensures
            self.resized(size).size.is_drawable(),
            self.resized(size).allocated_in(before.run(self.resize_commands(size))),
            before.run(self.resize_commands(size)).framebuffer_binding is None,
            before.run(self.resize_commands(size)).allocations == before.allocations + 2,
    {
        self.lemma_allocation_effect(size.clamp(), before);
    }

    /// A fit keeps the recorded size current: if it was the size of the
    /// attachments before, it is so after, whether the fit resized or not.
    pub proof fn lemma_fit_keeps_size_current(self, size: PhysicalSize, before: GlState)
        requires
            self.allocated_in(before),
        ensures
            self.fitted(size).allocated_in(before.run(self.fit_commands(size))),
    {
        if self.needs_resize(size) {
            self.lemma_resize_keeps_size_current(size, before);
        }
    }

    /// Binding and unbinding the target leave its attachments and their
    /// storage alone.
    pub proof fn lemma_binding_keeps_size_current(self, before: GlState)
        requires
            self.allocated_in(before),
        ensures
            self.allocated_in(before.run(self.bind_commands())),
            self.allocated_in(before.run(Self::unbind_commands())),
            self.allocated_in(before.run(self.bind_commands()).run(Self::unbind_commands())),
    {
        self.lemma_bind_effect(before);
        Self::lemma_unbind_effect(before);
        Self::lemma_unbind_effect(before.run(self.bind_commands()));
    }

    /// Resizing the target to the size it already has is a no-op: no command
    /// is issued, so nothing is allocated, and the GL state and the target
    /// stay as they are.
    pub proof fn lemma_same_size_is_no_op(self, size: PhysicalSize, before: GlState)
        requires
            size.clamp() == self.size,
        ensures
            self.fit_commands(size).len() == 0,
            self.fitted(size) == self,
            before.run(self.fit_commands(size)) == before,
            before.run(self.fit_commands(size)).allocations == before.allocations,
    {
    }

    /// Two fits to the same size in a row resize at most once: after the
    /// first the target records that size, so the second is a no-op.
    pub proof fn lemma_second_fit_is_no_op(self, size: PhysicalSize)
        ensures
            !self.fitted(size).needs_resize(size),
            self.fitted(size).fit_commands(size).len() == 0,
            self.fitted(size).fitted(size) == self.fitted(size),
            self.fitted(size).size == size.clamp(),
    {
    }

    /// A fit to another size is a resize: it allocates both attachments
    /// anew at the clamped size.
    pub proof fn lemma_other_size_is_resize(self, size: PhysicalSize, before: GlState)
        requires
            size.clamp() != self.size,
        ensures
            self.fit_commands(size) == self.resize_commands(size),
            self.fitted(size) == self.resized(size),
            before.run(self.fit_commands(size)).allocations == before.allocations + 2,
    {
        self.lemma_resize_keeps_size_current(size, before);
    }

    /// A resize whose check the driver answers with `FRAMEBUFFER_COMPLETE`
    /// leaves a complete target of the clamped size; a size with no zero
    /// extent is recorded as it was asked for.
    pub proof fn lemma_successful_resize(self, size: PhysicalSize, status: u32)
        requires
            self.wf(),
            status == FRAMEBUFFER_COMPLETE,
        ensures
            self.resized(size).checked(status).size == size.clamp(),
            self.resized(size).checked(status).is_complete(),
            self.resized(size).checked(status).wf(),
            size.is_drawable() ==> self.resized(size).checked(status).size == size,
    {
    }

    /// Between `bind` and `unbind` the target's framebuffer is the render
    /// destination and the viewport covers the whole target.
    pub proof fn lemma_bind_effect(self, before: GlState)
        ensures
            before.run(self.bind_commands()) == (GlState {
                framebuffer_binding: Some(self.framebuffer),
                viewport: crate::gl::ViewportRect {
                    x: 0,
                    y: 0,
                    width: gl_sizei(self.size.width) as int,
                    height: gl_sizei(self.size.height) as int,
                },
                ..before
            }),
    {
        assert(self.bind_commands().len() == 2);
        reveal_with_fuel(GlState::run_prefix, 3);
    }

    /// `unbind` makes the window's framebuffer the render destination and
    /// changes nothing else.
    pub proof fn lemma_unbind_effect(before: GlState)
        ensures
            before.run(Self::unbind_commands()) == (GlState {
                framebuffer_binding: None,
                ..before
            }),
    {
        assert(Self::unbind_commands().len() == 1);
        reveal_with_fuel(GlState::run_prefix, 2);
    }

    /// `bind` followed by `unbind` restores the framebuffer binding that was
    /// active before, provided that was the window's framebuffer, which is
    /// the one binding `unbind` can restore.
    pub proof fn lemma_bind_unbind_restores_binding(self, before: GlState)
        requires
            before.framebuffer_binding is None,
        ensures
            before.run(self.bind_commands() + Self::unbind_commands()).framebuffer_binding
                == before.framebuffer_binding,
            before.run(self.bind_commands()).run(Self::unbind_commands()).framebuffer_binding
                == before.framebuffer_binding,
    {
        before.lemma_run_concat(self.bind_commands(), Self::unbind_commands());
        self.lemma_bind_effect(before);
        Self::lemma_unbind_effect(before.run(self.bind_commands()));
    }

    /// Releasing the buffers deletes the framebuffer and the renderbuffer
    /// and leaves the colour texture with its storage.
    pub proof fn lemma_buffer_release_effect(self, before: GlState)
        ensures
            ({
                let after = before.run(self.buffer_release_commands());
                &&& after.texture_storage == before.texture_storage
                &&& after.texture_binding == before.texture_binding
                &&& !after.renderbuffer_storage.contains_key(self.depth_buffer)
                &&& !after.color_attachment.contains_key(self.framebuffer)
                &&& !after.depth_stencil_attachment.contains_key(self.framebuffer)
                &&& after.framebuffer_binding != Some(self.framebuffer)
                &&& after.renderbuffer_binding != Some(self.depth_buffer)
            }),
    {
        assert(self.buffer_release_commands().len() == 2);
        reveal_with_fuel(GlState::run_prefix, 3);
    }

    /// After the commands of a release none of the target's objects has
    /// storage or is attached or bound any more.
    pub proof fn lemma_release_effect(self, before: GlState)
        ensures
            ({
                let after = before.run(self.release_commands());
                &&& !after.texture_storage.contains_key(self.color_texture)
                &&& !after.renderbuffer_storage.contains_key(self.depth_buffer)
                &&& !after.color_attachment.contains_key(self.framebuffer)
                &&& !after.depth_stencil_attachment.contains_key(self.framebuffer)
                &&& after.framebuffer_binding != Some(self.framebuffer)
                &&& after.renderbuffer_binding != Some(self.depth_buffer)
                &&& after.texture_binding != Some(self.color_texture)
                &&& after.allocations == before.allocations
            }),
    {
        assert(self.release_commands().len() == 3);
        reveal_with_fuel(GlState::run_prefix, 4);
    }
}

/// An offscreen render target whose GPU objects exist.
///
/// The value is the only owner of the three object names; it cannot be
/// copied, and [`RenderTarget::release`] consumes it.
#[derive(Debug, PartialEq, Eq)]
pub struct RenderTarget {
    size: PhysicalSize,
    framebuffer: u32,
    depth_buffer: u32,
    color_texture: u32,
    completeness: Completeness,
}

impl View for RenderTarget {
    type V = TargetView;

    closed spec fn view(&self) -> TargetView {
        TargetView {
            size: self.size,
            framebuffer: self.framebuffer,
            depth_buffer: self.depth_buffer,
            color_texture: self.color_texture,
            completeness: self.completeness,
        }
    }
}

impl RenderTarget {
    #[verifier::type_invariant]
    spec fn valid(self) -> bool {
        self@.wf()
    }

    /// Starts the creation of a render target. The target itself comes out
    /// of the last step of the returned setup.
    pub fn new() -> (setup: TargetSetup)
        ensures
            setup@ == SetupStage::Framebuffer,
    {
        TargetSetup { framebuffer: 0, depth_buffer: 0, color_texture: 0 }
    }

    /// The commands that make this target the render destination and set the
    /// viewport to its full size.
    pub fn bind(&self) -> (commands: Vec<GlCommand>)
        ensures
            commands@ == self@.bind_commands(),
    {
        let mut commands: Vec<GlCommand> = Vec::new();
        commands.push(
            GlCommand::BindFramebuffer { target: FRAMEBUFFER, framebuffer: Some(self.framebuffer) },
        );
        commands.push(
            GlCommand::Viewport {
                x: 0,
                y: 0,
                width: to_gl_sizei(self.size.width),
                height: to_gl_sizei(self.size.height),
            },
        );
        assert(commands@ =~= self@.bind_commands());
        commands
    }

    /// The commands that make the window's own framebuffer the render
    /// destination again.
    pub fn unbind(&self) -> (commands: Vec<GlCommand>)
        ensures
            commands@ == TargetView::unbind_commands(),
    {
        let mut commands: Vec<GlCommand> = Vec::new();
        commands.push(GlCommand::BindFramebuffer { target: FRAMEBUFFER, framebuffer: None });
        assert(commands@ =~= TargetView::unbind_commands());
        commands
    }

    /// Records the clamped `size` as the target's size and returns the
    /// commands that reallocate both attachments at it. The driver's answer to
    /// the status command among them goes to [`RenderTarget::complete_resize`];
    /// until then the target does not count as complete.
    pub fn resize(&mut self, size: PhysicalSize) -> (commands: Vec<GlCommand>)
        ensures
            final(self)@ == old(self)@.resized(size),
            final(self)@.wf(),
            commands@ == old(self)@.resize_commands(size),
    {
        proof {
            use_type_invariant(&*self);
        }
        let clamped = size.clamped();
        self.size = clamped;
        self.completeness = Completeness::Unchecked;
        self.allocation(clamped)
    }

    /// Resizes the target only if it does not record the clamped `size`
    /// already. Where it does, nothing is returned and nothing changes, so
    /// that a frame whose region has kept its size costs no GPU call;
    /// otherwise this is [`RenderTarget::resize`].
    pub fn resize_if_changed(&mut self, size: PhysicalSize) -> (commands: Option<Vec<GlCommand>>)
        ensures
            commands is Some <==> old(self)@.needs_resize(size),
            commands matches Some(list) ==> list@ == old(self)@.fit_commands(size),
            final(self)@ == old(self)@.fitted(size),
            final(self)@.wf(),
            commands is None ==> final(self)@ == old(self)@,
    {
        proof {
            use_type_invariant(&*self);
        }
        let clamped = size.clamped();
        if clamped.width == self.size.width && clamped.height == self.size.height {
            None
        } else {
            Some(self.resize(size))
        }
    }

    /// Takes the status the driver reported for the check of the last resize.
    /// The resize has succeeded if and only if the status is
    /// `FRAMEBUFFER_COMPLETE`; any other status comes back in the error. The
    /// recorded size stays as the resize set it either way.
    pub fn complete_resize(&mut self, status: u32) -> (result: Result<(), RenderTargetError>)
        ensures
            final(self)@ == old(self)@.checked(status),
            final(self)@.wf(),
            result is Ok <==> status == FRAMEBUFFER_COMPLETE,
            result is Err ==> result == Err::<(), RenderTargetError>(
                RenderTargetError::FramebufferIncomplete { status },
            ),
    {
        proof {
            use_type_invariant(&*self);
        }
        if status == FRAMEBUFFER_COMPLETE {
            self.completeness = Completeness::Complete;
            Ok(())
        } else {
            self.completeness = Completeness::Incomplete { status };
            Err(RenderTargetError::FramebufferIncomplete { status })
        }
    }

    /// Gives up the target and returns the commands that delete its three GPU
    /// objects. They must be issued while the rendering context still exists.
    pub fn release(self) -> (commands: Vec<GlCommand>)
        ensures
            commands@ == self@.release_commands(),
    {
        let mut commands: Vec<GlCommand> = Vec::new();
        commands.push(GlCommand::DeleteFramebuffer { framebuffer: self.framebuffer });
        commands.push(GlCommand::DeleteRenderbuffer { renderbuffer: self.depth_buffer });
        commands.push(GlCommand::DeleteTexture { texture: self.color_texture });
        assert(commands@ =~= self@.release_commands());
        commands
    }

    /// Gives up the target but not its colour texture: returns the name of
    /// the texture, which from now on belongs to the caller, and the commands
    /// that delete the framebuffer and the renderbuffer.
    pub fn release_buffers(self) -> (released: (u32, Vec<GlCommand>))
        ensures
            released.0 == self@.color_texture,
            released.0 != 0,
            released.1@ == self@.buffer_release_commands(),
    {
        proof {
            use_type_invariant(&self);
        }
        let mut commands: Vec<GlCommand> = Vec::new();
        commands.push(GlCommand::DeleteFramebuffer { framebuffer: self.framebuffer });
        commands.push(GlCommand::DeleteRenderbuffer { renderbuffer: self.depth_buffer });
        assert(commands@ =~= self@.buffer_release_commands());
        (self.color_texture, commands)
    }

    pub fn framebuffer(&self) -> (name: u32)
        ensures
            name == self@.framebuffer,
            name != 0,
    {
        proof {
            use_type_invariant(self);
        }
        self.framebuffer
    }

    pub fn color_texture(&self) -> (name: u32)
        ensures
            name == self@.color_texture,
            name != 0,
    {
        proof {
            use_type_invariant(self);
        }
        self.color_texture
    }

    /// The size the attachments were last allocated at.
    pub fn size(&self) -> (size: PhysicalSize)
        ensures
            size == self@.size,
            size.is_drawable(),
    {
        proof {
            use_type_invariant(self);
        }
        self.size
    }

    /// Whether the completeness check of the last resize has passed.
    pub fn is_complete(&self) -> (complete: bool)
        ensures
            complete == self@.is_complete(),
    {
        match self.completeness {
            Completeness::Complete => true,
            _ => false,
        }
    }

    pub fn completeness(&self) -> (completeness: Completeness)
        ensures
            completeness == self@.completeness,
    {
        self.completeness
    }

    fn allocation(&self, size: PhysicalSize) -> (commands: Vec<GlCommand>)
        ensures
            commands@ == self@.allocation_commands(size),
    {
        let width = to_gl_sizei(size.width);
        let height = to_gl_sizei(size.height);
        let mut commands: Vec<GlCommand> = Vec::new();
        commands.push(
            GlCommand::BindTexture { target: TEXTURE_2D, texture: Some(self.color_texture) },
        );
        commands.push(
            GlCommand::TexParameterI32 {
                target: TEXTURE_2D,
                parameter: TEXTURE_MIN_FILTER,
                value: LINEAR as i32,
            },
        );
        commands.push(
            GlCommand::TexParameterI32 {
                target: TEXTURE_2D,
                parameter: TEXTURE_MAG_FILTER,
                value: LINEAR as i32,
            },
        );
        commands.push(
            GlCommand::TexParameterI32 {
                target: TEXTURE_2D,
                parameter: TEXTURE_WRAP_S,
                value: CLAMP_TO_EDGE as i32,
            },
        );
        commands.push(
            GlCommand::TexParameterI32 {
                target: TEXTURE_2D,
                parameter: TEXTURE_WRAP_T,
                value: CLAMP_TO_EDGE as i32,
            },
        );
        commands.push(
            GlCommand::TexImage2d {
                target: TEXTURE_2D,
                level: 0,
                internal_format: RGBA8 as i32,
                width,
                height,
                border: 0,
                format: RGBA,
                ty: UNSIGNED_BYTE,
            },
        );
        commands.push(GlCommand::BindTexture { target: TEXTURE_2D, texture: None });
        commands.push(
            GlCommand::BindRenderbuffer {
                target: RENDERBUFFER,
                renderbuffer: Some(self.depth_buffer),
            },
        );
        commands.push(
            GlCommand::RenderbufferStorage {
                target: RENDERBUFFER,
                internal_format: DEPTH24_STENCIL8,
                width,
                height,
            },
        );
        commands.push(GlCommand::BindRenderbuffer { target: RENDERBUFFER, renderbuffer: None });
        commands.push(
            GlCommand::BindFramebuffer { target: FRAMEBUFFER, framebuffer: Some(self.framebuffer) },
        );
        commands.push(
            GlCommand::FramebufferTexture2d {
                target: FRAMEBUFFER,
                attachment: COLOR_ATTACHMENT0,
                texture_target: TEXTURE_2D,
                texture: Some(self.color_texture),
                level: 0,
            },
        );
        commands.push(
            GlCommand::FramebufferRenderbuffer {
                target: FRAMEBUFFER,
                attachment: DEPTH_STENCIL_ATTACHMENT,
                renderbuffer_target: RENDERBUFFER,
                renderbuffer: Some(self.depth_buffer),
            },
        );
        commands.push(GlCommand::CheckFramebufferStatus { target: FRAMEBUFFER });
        commands.push(GlCommand::BindFramebuffer { target: FRAMEBUFFER, framebuffer: None });
        assert(commands@ =~= self@.allocation_commands(size));
        commands
    }
}

/// How far the creation of a render target has come: what the setup waits
/// for, and the names of the objects allocated so far.
pub enum SetupStage {
    /// Waiting for the name of the framebuffer.
    Framebuffer,
    /// Waiting for the name of the renderbuffer.
    Renderbuffer { framebuffer: u32 },
    /// Waiting for the name of the texture.
    Texture { framebuffer: u32, depth_buffer: u32 },
    /// All three objects exist and the commands of the first allocation
    /// are out; waiting for the status of the framebuffer.
    Status { framebuffer: u32, depth_buffer: u32, color_texture: u32 },
}

/// What the embedding program must do next for a setup.
#[derive(Debug, PartialEq, Eq)]
pub enum SetupRequest {
    /// Ask the driver for a new object of this kind and supply its name, or
    /// zero if the driver gave none.
    Allocate { object: GpuObject },
    /// Issue these commands and supply the status the driver reports.
    Issue { commands: Vec<GlCommand> },
}

/// What became of a setup after an answer from the driver.
#[derive(Debug, PartialEq, Eq)]
pub enum SetupStep {
    /// The creation goes on.
    Pending { setup: TargetSetup },
    /// The target exists, is one pixel wide and high, and is complete.
    Created { target: RenderTarget },
    /// The creation has failed. The commands delete every object that was
    /// allocated on the way, so that none is left behind.
    Failed { error: RenderTargetError, cleanup: Vec<GlCommand> },
}

/// The creation of a render target in progress.
///
/// The objects are allocated one by one, framebuffer first, then the
/// renderbuffer, then the texture; a name of zero stands for a failed
/// allocation and ends the creation. With all three in hand the attachments
/// are allocated at one pixel by one, and the target is handed out once the
/// framebuffer has passed its completeness check.
#[derive(Debug, PartialEq, Eq)]
pub struct TargetSetup {
    framebuffer: u32,
    depth_buffer: u32,
    color_texture: u32,
}

impl View for TargetSetup {
    type V = SetupStage;

    closed spec fn view(&self) -> SetupStage {
        if self.framebuffer == 0 {
            SetupStage::Framebuffer
        } else if self.depth_buffer == 0 {
            SetupStage::Renderbuffer { framebuffer: self.framebuffer }
        } else if self.color_texture == 0 {
            SetupStage::Texture { framebuffer: self.framebuffer, depth_buffer: self.depth_buffer }
        } else {
            SetupStage::Status {
                framebuffer: self.framebuffer,
                depth_buffer: self.depth_buffer,
                color_texture: self.color_texture,
            }
        }
    }
}

impl SetupStage {
    /// The size every target is created at.
    pub open spec fn initial_size() -> PhysicalSize {
        PhysicalSize { width: 1, height: 1 }
    }

    /// The names are real names.
    pub open spec fn wf(self) -> bool {
        match self {
            SetupStage::Framebuffer => true,
            SetupStage::Renderbuffer { framebuffer } => framebuffer != 0,
            SetupStage::Texture { framebuffer, depth_buffer } => framebuffer != 0 && depth_buffer
                != 0,
            SetupStage::Status { framebuffer, depth_buffer, color_texture } => framebuffer != 0
                && depth_buffer != 0 && color_texture != 0,
        }
    }

    /// The target that comes out of the last stage, before its check.
    pub open spec fn target(self) -> TargetView
        recommends
            self is Status,
    {
        TargetView {
            size: Self::initial_size(),
            framebuffer: self->Status_framebuffer,
            depth_buffer: self->Status_depth_buffer,
            color_texture: self->Status_color_texture,
            completeness: Completeness::Unchecked,
        }
    }

    /// The commands that delete the objects allocated so far, in the order
    /// they were allocated in.
    pub open spec fn cleanup_commands(self) -> Seq<GlCommand> {
        match self {
            SetupStage::Framebuffer => Seq::empty(),
            SetupStage::Renderbuffer { framebuffer } => seq![
                GlCommand::DeleteFramebuffer { framebuffer },
            ],
            SetupStage::Texture { framebuffer, depth_buffer } => seq![
                GlCommand::DeleteFramebuffer { framebuffer },
                GlCommand::DeleteRenderbuffer { renderbuffer: depth_buffer },
            ],
            SetupStage::Status { framebuffer, depth_buffer, color_texture } => seq![
                GlCommand::DeleteFramebuffer { framebuffer },
                GlCommand::DeleteRenderbuffer { renderbuffer: depth_buffer },
                GlCommand::DeleteTexture { texture: color_texture },
            ],
        }
    }

    /// The stage after a successful allocation of the object waited for.
    pub open spec fn allocated(self, name: u32) -> SetupStage
        recommends
            !(self is Status),
    {
        match self {
            SetupStage::Framebuffer => SetupStage::Renderbuffer { framebuffer: name },
            SetupStage::Renderbuffer { framebuffer } => SetupStage::Texture {
                framebuffer,
                depth_buffer: name,
            },
            SetupStage::Texture { framebuffer, depth_buffer } => SetupStage::Status {
                framebuffer,
                depth_buffer,
                color_texture: name,
            },
            SetupStage::Status { .. } => self,
        }
    }

    /// A target is created with its recorded size current: whatever the GL
    /// state was, after the commands of the last stage both attachments of
    /// the target to come have storage of one pixel by one.
    pub proof fn lemma_created_with_size_current(self, before: GlState)
        requires
            self is Status,
        ensures
            self.target().allocated_in(
                before.run(self.target().allocation_commands(Self::initial_size())),
            ),
            self.target().checked(FRAMEBUFFER_COMPLETE).allocated_in(
                before.run(self.target().allocation_commands(Self::initial_size())),
            ),
    {
        self.target().lemma_allocation_effect(Self::initial_size(), before);
    }

    /// The kind of object a stage waits for.
    pub open spec fn awaited(self) -> GpuObject
        recommends
            !(self is Status),
    {
        match self {
            SetupStage::Framebuffer => GpuObject::Framebuffer,
            SetupStage::Renderbuffer { .. } => GpuObject::Renderbuffer,
            _ => GpuObject::Texture,
        }
    }
}

impl TargetSetup {
    #[verifier::type_invariant]
    spec fn valid(self) -> bool {
        &&& self.depth_buffer != 0 ==> self.framebuffer != 0
        &&& self.color_texture != 0 ==> self.depth_buffer != 0
    }

    /// What the driver is to be asked next: an object of the kind the stage
    /// waits for, or, in the last stage, the first allocation of the
    /// attachments with its status check.
    pub fn request(&self) -> (request: SetupRequest)
        ensures
            self@.wf(),
            match request {
                SetupRequest::Allocate { object } => !(self@ is Status) && object
                    == self@.awaited(),
                SetupRequest::Issue { commands } => self@ is Status && commands@
                    == self@.target().allocation_commands(SetupStage::initial_size()),
            },
    {
        proof {
            use_type_invariant(self);
        }
        if self.framebuffer == 0 {
            SetupRequest::Allocate { object: GpuObject::Framebuffer }
        } else if self.depth_buffer == 0 {
            SetupRequest::Allocate { object: GpuObject::Renderbuffer }
        } else if self.color_texture == 0 {
            SetupRequest::Allocate { object: GpuObject::Texture }
        } else {
            let target = RenderTarget {
                size: PhysicalSize { width: 1, height: 1 },
                framebuffer: self.framebuffer,
                depth_buffer: self.depth_buffer,
                color_texture: self.color_texture,
                completeness: Completeness::Unchecked,
            };
            let commands = target.allocation(PhysicalSize { width: 1, height: 1 });
            SetupRequest::Issue { commands }
        }
    }

    /// Takes the driver's answer to the last request and moves the creation
    /// on.
    ///
    /// While an object is waited for, `answer` is its name: zero fails the
    /// creation with `ResourceCreation` for that kind of object, any other
    /// name moves to the next stage. In the last stage `answer` is the status
    /// of the framebuffer: `FRAMEBUFFER_COMPLETE` gives the finished target,
    /// any other status fails the creation with `FramebufferIncomplete`.
    /// Every failure comes with the commands that delete what was allocated.
    pub fn supply(self, answer: u32) -> (step: SetupStep)
        ensures
            self@.wf(),
            match step {
                SetupStep::Pending { setup } => {
                    &&& !(self@ is Status)
                    &&& answer != 0
                    &&& setup@ == self@.allocated(answer)
                },
                SetupStep::Created { target } => {
                    &&& self@ is Status
                    &&& answer == FRAMEBUFFER_COMPLETE
                    &&& target@ == self@.target().checked(answer)
                    &&& target@.wf()
                },
                SetupStep::Failed { error, cleanup } => {
                    &&& cleanup@ == self@.cleanup_commands()
                    &&& if self@ is Status {
                        &&& answer != FRAMEBUFFER_COMPLETE
                        &&& error == RenderTargetError::FramebufferIncomplete { status: answer }
                    } else {
                        &&& answer == 0
                        &&& error == RenderTargetError::ResourceCreation {
                            object: self@.awaited(),
                        }
                    }
                },
            },
    {
        proof {
            use_type_invariant(&self);
        }
        if self.framebuffer == 0 {
            if answer == 0 {
                SetupStep::Failed {
                    error: RenderTargetError::ResourceCreation { object: GpuObject::Framebuffer },
                    cleanup: Vec::new(),
                }
            } else {
                SetupStep::Pending {
                    setup: TargetSetup { framebuffer: answer, depth_buffer: 0, color_texture: 0 },
                }
            }
        } else if self.depth_buffer == 0 {
            if answer == 0 {
                let mut cleanup: Vec<GlCommand> = Vec::new();
                cleanup.push(GlCommand::DeleteFramebuffer { framebuffer: self.framebuffer });
                assert(cleanup@ =~= self@.cleanup_commands());
                SetupStep::Failed {
                    error: RenderTargetError::ResourceCreation { object: GpuObject::Renderbuffer },
                    cleanup,
                }
            } else {
                SetupStep::Pending {
                    setup: TargetSetup {
                        framebuffer: self.framebuffer,
                        depth_buffer: answer,
                        color_texture: 0,
                    },
                }
            }
        } else if self.color_texture == 0 {
            if answer == 0 {
                let mut cleanup: Vec<GlCommand> = Vec::new();
                cleanup.push(GlCommand::DeleteFramebuffer { framebuffer: self.framebuffer });
                cleanup.push(GlCommand::DeleteRenderbuffer { renderbuffer: self.depth_buffer });
                assert(cleanup@ =~= self@.cleanup_commands());
                SetupStep::Failed {
                    error: RenderTargetError::ResourceCreation { object: GpuObject::Texture },
                    cleanup,
                }
            } else {
                SetupStep::Pending {
                    setup: TargetSetup {
                        framebuffer: self.framebuffer,
                        depth_buffer: self.depth_buffer,
                        color_texture: answer,
                    },
                }
            }
        } else {
            let mut target = RenderTarget {
                size: PhysicalSize { width: 1, height: 1 },
                framebuffer: self.framebuffer,
                depth_buffer: self.depth_buffer,
                color_texture: self.color_texture,
                completeness: Completeness::Unchecked,
            };
            match target.complete_resize(answer) {
                Ok(()) => SetupStep::Created { target },
                Err(error) => {
                    let cleanup = target.release();
                    SetupStep::Failed { error, cleanup }
                },
            }
        }
    }
}

} // verus!
