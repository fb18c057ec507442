//! The part of the user interface that shows the scene: it owns the render
//! target and keeps the target's size in step with the region it is shown in.

use vstd::prelude::*;
use crate::binary32::Binary32;
use crate::dimension::{physical_size, to_physical, Vec2};
use crate::geometry::PhysicalSize;
use crate::gl::{gl_sizei, GlCommand, GlState};
use crate::render_target::{RenderTarget, RenderTargetError, TargetView};
use crate::renderer::{lemma_scene_pass_effect, scene_background, scene_pass_commands, Renderer};

verus! {

/// What a scene display is, as a mathematical value.
pub struct DisplayView {
    pub target: TargetView,
    /// The handle under which the user interface knows the target's colour
    /// texture.
    pub texture_id: u64,
}

impl DisplayView {
    /// The display after the commands that fit its target to a region of
    /// `desired` physical pixels are issued.
    pub open spec fn fitted(self, desired: PhysicalSize) -> DisplayView {
        DisplayView { target: self.target.fitted(desired), ..self }
    }

    /// The commands of a scene pass into the target: the target is bound,
    /// the scene drawn, and the target unbound.
    pub open spec fn pass_commands(self) -> Seq<GlCommand> {
        self.target.bind_commands() + scene_pass_commands() + TargetView::unbind_commands()
    }

    /// A scene pass draws the scene into the target and nowhere else: from a
    /// state in which the window's framebuffer is the render destination,
    /// the colour buffer of the target's framebuffer is filled with the
    /// background of the scene, the window's framebuffer keeps what it
    /// showed and is the destination again afterwards, and the viewport is
    /// left covering the target.
    pub proof fn lemma_pass_effect(self, before: GlState)
        requires
            before.framebuffer_binding is None,
        ensures
            ({
                let after = before.run(self.pass_commands());
                &&& after.framebuffer_binding == before.framebuffer_binding
                &&& after.cleared_to == before.cleared_to.insert(
                    Some(self.target.framebuffer),
                    scene_background(),
                )
                &&& after.viewport.width == gl_sizei(self.target.size.width)
                &&& after.viewport.height == gl_sizei(self.target.size.height)
                &&& after.texture_storage == before.texture_storage
                &&& after.renderbuffer_storage == before.renderbuffer_storage
                &&& after.color_attachment == before.color_attachment
                &&& after.depth_stencil_attachment == before.depth_stencil_attachment
                &&& after.allocations == before.allocations
            }),
    {
        let bind = self.target.bind_commands();
        let bound = before.run(bind);
        let drawn = bound.run(scene_pass_commands());
        self.target.lemma_bind_effect(before);
        lemma_scene_pass_effect(bound);
        TargetView::lemma_unbind_effect(drawn);
        before.lemma_run_concat(bind, scene_pass_commands());
        before.lemma_run_concat(bind + scene_pass_commands(), TargetView::unbind_commands());
    }

    /// One frame of the scene display, from a state in which the window's
    /// framebuffer is the render destination and the target's size is
    /// current: the target is fitted to the region first, the scene is then
    /// drawn into it at its new size, and afterwards the window's framebuffer
    /// is the destination again and the target's size is still current.
    pub proof fn lemma_frame_effect(self, desired: PhysicalSize, before: GlState)
        requires
            before.framebuffer_binding is None,
            self.target.allocated_in(before),
        ensures
            ({
                let display = self.fitted(desired);
                let fitted = before.run(self.target.fit_commands(desired));
                let after = fitted.run(display.pass_commands());
                &&& display.target.size == desired.clamp()
                &&& display.target.allocated_in(fitted)
                &&& fitted.framebuffer_binding is None
                &&& display.target.allocated_in(after)
                &&& after.framebuffer_binding == before.framebuffer_binding
                &&& after.cleared_to == before.cleared_to.insert(
                    Some(self.target.framebuffer),
                    scene_background(),
                )
            }),
    {
        let display = self.fitted(desired);
        let fitted = before.run(self.target.fit_commands(desired));
        self.target.lemma_fit_keeps_size_current(desired, before);
        if self.target.needs_resize(desired) {
            self.target.lemma_allocation_effect(desired.clamp(), before);
        }
        display.lemma_pass_effect(fitted);
    }
}

/// What is left to do when a scene display is shut down.
#[derive(Debug, PartialEq, Eq)]
pub struct DisplayShutdown {
    /// The texture handle the user interface is to free. The user interface
    /// took the colour texture over with the handle and deletes it with it.
    pub texture_id: u64,
    /// The name of the colour texture that goes with the handle.
    pub color_texture: u32,
    /// The commands that delete the target's framebuffer and renderbuffer.
    pub commands: Vec<GlCommand>,
}

/// The display of the scene inside the user interface.
#[derive(Debug, PartialEq, Eq)]
pub struct SceneDisplay {
    render_target: RenderTarget,
    texture_id: u64,
}

impl View for SceneDisplay {
    type V = DisplayView;

    closed spec fn view(&self) -> DisplayView {
        DisplayView { target: self.render_target@, texture_id: self.texture_id }
    }
}

impl SceneDisplay {
    /// Makes the display of a render target whose colour texture was handed
    /// to the user interface, which knows it as `texture_id`.
    pub fn new(render_target: RenderTarget, texture_id: u64) -> (display: SceneDisplay)
        ensures
            display@.target == render_target@,
            display@.texture_id == texture_id,
    {
        SceneDisplay { render_target, texture_id }
    }

    /// Brings the target to the size of the region the scene is shown in,
    /// given in physical pixels. Where the target already has that size,
    /// nothing is returned and nothing changes; otherwise the target is
    /// resized and the commands of the resize are returned, whose status
    /// answer goes to [`SceneDisplay::complete_resize`].
    pub fn fit(&mut self, desired_pixels: PhysicalSize) -> (commands: Option<Vec<GlCommand>>)
        ensures
            commands is Some <==> old(self)@.target.needs_resize(desired_pixels),
            commands matches Some(list) ==> list@ == old(self)@.target.fit_commands(
                desired_pixels,
            ),
            final(self)@ == old(self)@.fitted(desired_pixels),
            commands is None ==> final(self)@ == old(self)@,
    {
        self.render_target.resize_if_changed(desired_pixels)
    }

    /// The display's part of a pass of the user interface, once the layout
    /// has allocated the scene a region of `allocated_points` logical points
    /// at `pixels_per_point` pixels to the point: the region is converted to
    /// physical pixels and the target fitted to it, as by
    /// [`SceneDisplay::points_to_pixels`] and [`SceneDisplay::fit`].
    pub fn ui(&mut self, allocated_points: Vec2, pixels_per_point: Binary32) -> (commands: Option<
        Vec<GlCommand>,
    >)
        ensures
            commands is Some <==> old(self)@.target.needs_resize(
                physical_size(allocated_points, pixels_per_point),
            ),
            commands matches Some(list) ==> list@ == old(self)@.target.fit_commands(
                physical_size(allocated_points, pixels_per_point),
            ),
            final(self)@ == old(self)@.fitted(physical_size(allocated_points, pixels_per_point)),
            final(self)@.target.size == physical_size(allocated_points, pixels_per_point),
            commands is None ==> final(self)@ == old(self)@,
    {
        let desired_pixels = Self::points_to_pixels(allocated_points, pixels_per_point);
        self.fit(desired_pixels)
    }

    /// Takes the status the driver reported for the check of the last resize;
    /// see [`RenderTarget::complete_resize`].
    pub fn complete_resize(&mut self, status: u32) -> (result: Result<(), RenderTargetError>)
        ensures
            final(self)@ == (DisplayView {
                target: old(self)@.target.checked(status),
                ..old(self)@
            }),
            result is Ok <==> status == crate::gl::FRAMEBUFFER_COMPLETE,
            result is Err ==> result == Err::<(), RenderTargetError>(
                RenderTargetError::FramebufferIncomplete { status },
            ),
    {
        self.render_target.complete_resize(status)
    }

    /// The commands of the scene pass for this frame: the target is bound,
    /// the renderer draws the scene, and the target is unbound. There is no
    /// pass while the target is not complete, for drawing into an incomplete
    /// framebuffer is undefined; the frame then goes without a new scene.
    pub fn render_to_target(&self, renderer: &mut Renderer) -> (commands: Option<Vec<GlCommand>>)
        ensures
            commands is Some <==> self@.target.is_complete(),
            commands matches Some(list) ==> list@ == self@.pass_commands(),
    {
        if self.render_target.is_complete() {
            let mut list = self.render_target.bind();
            let mut scene = renderer.render_scene_pass();
            let mut unbind = self.render_target.unbind();
            list.append(&mut scene);
            list.append(&mut unbind);
            Some(list)
        } else {
            None
        }
    }

    /// The physical size of a region the user interface has allocated, in
    /// logical points, at `pixels_per_point` pixels to the point: the rounded
    /// product in each direction, and at least one pixel.
    pub fn points_to_pixels(allocated_points: Vec2, pixels_per_point: Binary32) -> (size:
        PhysicalSize)
        ensures
            size == physical_size(allocated_points, pixels_per_point),
            size.is_drawable(),
    {
        to_physical(allocated_points, pixels_per_point)
    }

    /// The size of the target in physical pixels.
    pub fn target_size(&self) -> (size: PhysicalSize)
        ensures
            size == self@.target.size,
            size.is_drawable(),
    {
        self.render_target.size()
    }

    pub fn texture_id(&self) -> (id: u64)
        ensures
            id == self@.texture_id,
    {
        self.texture_id
    }

    /// Gives up the display. Each of the target's three GPU objects is
    /// released once: the colour texture by the user interface, which is to
    /// free the handle it knows the texture by, the framebuffer and the
    /// renderbuffer by the commands.
    pub fn shutdown(self) -> (shutdown: DisplayShutdown)
        ensures
            shutdown.texture_id == self@.texture_id,
            shutdown.color_texture == self@.target.color_texture,
            shutdown.commands@ == self@.target.buffer_release_commands(),
    {
        let texture_id = self.texture_id;
        let (color_texture, commands) = self.render_target.release_buffers();
        DisplayShutdown { texture_id, color_texture, commands }
    }
}

} // verus!
