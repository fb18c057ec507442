use std::collections::HashMap;

use scene_viewer::binary32::Binary32;
use scene_viewer::dimension::Vec2;
use scene_viewer::geometry::PhysicalSize;
use scene_viewer::gl;
use scene_viewer::gl::{to_gl_sizei, GlCommand, Rgba, FRAMEBUFFER_COMPLETE};
use scene_viewer::render_target::{
    Completeness, GpuObject, RenderTarget, RenderTargetError, SetupRequest, SetupStep,
};
use scene_viewer::renderer::Renderer;
use scene_viewer::scene_display::SceneDisplay;

const INCOMPLETE_ATTACHMENT: u32 = 0x8CD6;
const INCOMPLETE_MISSING_ATTACHMENT: u32 = 0x8CD7;

/// A stand-in for the driver: it keeps the bindings, storage and attachments
/// the commands set, counts allocations, and answers status checks.
struct FakeGl {
    next_name: u32,
    refuse: Option<GpuObject>,
    largest_extent: i32,
    texture_binding: Option<u32>,
    renderbuffer_binding: Option<u32>,
    framebuffer_binding: Option<u32>,
    viewport: (i32, i32, i32, i32),
    texture_storage: HashMap<u32, (i32, i32, i32)>,
    texture_parameters: HashMap<(u32, u32), i32>,
    renderbuffer_storage: HashMap<u32, (u32, i32, i32)>,
    color_attachment: HashMap<u32, u32>,
    depth_stencil_attachment: HashMap<u32, u32>,
    allocations: usize,
    live: Vec<(GpuObject, u32)>,
    clear_color: [f32; 4],
    cleared_to: HashMap<Option<u32>, [f32; 4]>,
    depth_cleared: Vec<Option<u32>>,
}

impl FakeGl {
    fn new() -> FakeGl {
        FakeGl {
            next_name: 1,
            refuse: None,
            largest_extent: 16384,
            texture_binding: None,
            renderbuffer_binding: None,
            framebuffer_binding: None,
            viewport: (0, 0, 0, 0),
            texture_storage: HashMap::new(),
            texture_parameters: HashMap::new(),
            renderbuffer_storage: HashMap::new(),
            color_attachment: HashMap::new(),
            depth_stencil_attachment: HashMap::new(),
            allocations: 0,
            live: Vec::new(),
            clear_color: [0.0; 4],
            cleared_to: HashMap::new(),
            depth_cleared: Vec::new(),
        }
    }

    fn allocate(&mut self, object: GpuObject) -> u32 {
        if self.refuse == Some(object) {
            return 0;
        }
        let name = self.next_name;
        self.next_name += 1;
        self.live.push((object, name));
        name
    }

    fn status(&self) -> u32 {
        let Some(framebuffer) = self.framebuffer_binding else {
            return FRAMEBUFFER_COMPLETE;
        };
        let (Some(texture), Some(renderbuffer)) = (
            self.color_attachment.get(&framebuffer),
            self.depth_stencil_attachment.get(&framebuffer),
        ) else {
            return INCOMPLETE_MISSING_ATTACHMENT;
        };
        let (Some(color), Some(depth)) =
            (self.texture_storage.get(texture), self.renderbuffer_storage.get(renderbuffer))
        else {
            return INCOMPLETE_ATTACHMENT;
        };
        let sized = |w: i32, h: i32| {
            w >= 1 && h >= 1 && w <= self.largest_extent && h <= self.largest_extent
        };
        if sized(color.1, color.2) && (color.1, color.2) == (depth.1, depth.2) {
            FRAMEBUFFER_COMPLETE
        } else {
            INCOMPLETE_ATTACHMENT
        }
    }

    /// Issues the commands in order and returns the last status asked for.
    fn issue(&mut self, commands: &[GlCommand]) -> Option<u32> {
        let mut status = None;
        for command in commands {
            match *command {
                GlCommand::BindTexture { target, texture } => {
                    assert_eq!(target, glow::TEXTURE_2D);
                    self.texture_binding = texture;
                }
                GlCommand::TexParameterI32 { target, parameter, value } => {
                    assert_eq!(target, glow::TEXTURE_2D);
                    let texture = self.texture_binding.expect("no texture bound");
                    self.texture_parameters.insert((texture, parameter), value);
                }
                GlCommand::TexImage2d { target, level, internal_format, width, height, .. } => {
                    assert_eq!(target, glow::TEXTURE_2D);
                    assert_eq!(level, 0);
                    let texture = self.texture_binding.expect("no texture bound");
                    self.texture_storage.insert(texture, (internal_format, width, height));
                    self.allocations += 1;
                }
                GlCommand::BindRenderbuffer { target, renderbuffer } => {
                    assert_eq!(target, glow::RENDERBUFFER);
                    self.renderbuffer_binding = renderbuffer;
                }
                GlCommand::RenderbufferStorage { target, internal_format, width, height } => {
                    assert_eq!(target, glow::RENDERBUFFER);
                    let renderbuffer = self.renderbuffer_binding.expect("no renderbuffer bound");
                    self.renderbuffer_storage
                        .insert(renderbuffer, (internal_format, width, height));
                    self.allocations += 1;
                }
                GlCommand::BindFramebuffer { target, framebuffer } => {
                    assert_eq!(target, glow::FRAMEBUFFER);
                    self.framebuffer_binding = framebuffer;
                }
                GlCommand::FramebufferTexture2d { target, attachment, texture, .. } => {
                    assert_eq!(target, glow::FRAMEBUFFER);
                    assert_eq!(attachment, glow::COLOR_ATTACHMENT0);
                    let framebuffer = self.framebuffer_binding.expect("no framebuffer bound");
                    self.color_attachment.insert(framebuffer, texture.expect("detach"));
                }
                GlCommand::FramebufferRenderbuffer { target, attachment, renderbuffer, .. } => {
                    assert_eq!(target, glow::FRAMEBUFFER);
                    assert_eq!(attachment, glow::DEPTH_STENCIL_ATTACHMENT);
                    let framebuffer = self.framebuffer_binding.expect("no framebuffer bound");
                    self.depth_stencil_attachment
                        .insert(framebuffer, renderbuffer.expect("detach"));
                }
                GlCommand::CheckFramebufferStatus { target } => {
                    assert_eq!(target, glow::FRAMEBUFFER);
                    status = Some(self.status());
                }
                GlCommand::Viewport { x, y, width, height } => {
                    self.viewport = (x, y, width, height);
                }
                GlCommand::ClearColor { color } => {
                    self.clear_color = rgba(color);
                }
                GlCommand::Clear { mask } => {
                    if mask & glow::COLOR_BUFFER_BIT != 0 {
                        self.cleared_to.insert(self.framebuffer_binding, self.clear_color);
                    }
                    if mask & glow::DEPTH_BUFFER_BIT != 0 {
                        self.depth_cleared.push(self.framebuffer_binding);
                    }
                }
                GlCommand::DeleteFramebuffer { framebuffer } => {
                    self.forget(GpuObject::Framebuffer, framebuffer);
                    self.color_attachment.remove(&framebuffer);
                    self.depth_stencil_attachment.remove(&framebuffer);
                }
                GlCommand::DeleteRenderbuffer { renderbuffer } => {
                    self.forget(GpuObject::Renderbuffer, renderbuffer);
                    self.renderbuffer_storage.remove(&renderbuffer);
                }
                GlCommand::DeleteTexture { texture } => {
                    self.forget(GpuObject::Texture, texture);
                    self.texture_storage.remove(&texture);
                }
            }
        }
        status
    }

    fn forget(&mut self, object: GpuObject, name: u32) {
        let place = self
            .live
            .iter()
            .position(|entry| *entry == (object, name))
            .expect("deleted an object that does not exist");
        self.live.remove(place);
    }
}

/// Drives the creation of a target against the stand-in driver.
fn create_target(gl: &mut FakeGl) -> Result<RenderTarget, RenderTargetError> {
    let mut setup = RenderTarget::new();
    loop {
        let answer = match setup.request() {
            SetupRequest::Allocate { object } => gl.allocate(object),
            SetupRequest::Issue { commands } => gl.issue(&commands).expect("no status asked for"),
        };
        match setup.supply(answer) {
            SetupStep::Pending { setup: next } => setup = next,
            SetupStep::Created { target } => return Ok(target),
            SetupStep::Failed { error, cleanup } => {
                gl.issue(&cleanup);
                return Err(error);
            }
        }
    }
}

fn resize(
    gl: &mut FakeGl,
    target: &mut RenderTarget,
    width: u32,
    height: u32,
) -> Result<(), RenderTargetError> {
    let commands = target.resize(PhysicalSize::new(width, height));
    let status = gl.issue(&commands).expect("no status asked for");
    target.complete_resize(status)
}

fn rgba(color: Rgba) -> [f32; 4] {
    [
        f32::from_bits(color.red.bits),
        f32::from_bits(color.green.bits),
        f32::from_bits(color.blue.bits),
        f32::from_bits(color.alpha.bits),
    ]
}

fn float_bits(value: f32) -> Binary32 {
    Binary32::from_bits(value.to_bits())
}

#[test]
fn a_new_target_is_complete_at_one_by_one() {
    let mut gl = FakeGl::new();
    let target = create_target(&mut gl).unwrap();
    assert_eq!(target.size(), PhysicalSize::new(1, 1));
    assert!(target.is_complete());
    assert_eq!(target.completeness(), Completeness::Complete);
    assert_eq!(target.framebuffer(), 1);
    assert_eq!(target.color_texture(), 3);
    assert_eq!(gl.allocations, 2);
    assert_eq!(gl.texture_storage[&3], (glow::RGBA8 as i32, 1, 1));
    assert_eq!(gl.renderbuffer_storage[&2], (glow::DEPTH24_STENCIL8, 1, 1));
    assert_eq!(gl.framebuffer_binding, None);
    assert_eq!(gl.texture_binding, None);
    assert_eq!(gl.renderbuffer_binding, None);
}

#[test]
fn creation_asks_for_framebuffer_renderbuffer_texture_in_turn() {
    let setup = RenderTarget::new();
    assert_eq!(setup.request(), SetupRequest::Allocate { object: GpuObject::Framebuffer });
    let SetupStep::Pending { setup } = setup.supply(11) else { panic!("not pending") };
    assert_eq!(setup.request(), SetupRequest::Allocate { object: GpuObject::Renderbuffer });
    let SetupStep::Pending { setup } = setup.supply(22) else { panic!("not pending") };
    assert_eq!(setup.request(), SetupRequest::Allocate { object: GpuObject::Texture });
    let SetupStep::Pending { setup } = setup.supply(33) else { panic!("not pending") };
    let SetupRequest::Issue { commands } = setup.request() else { panic!("no commands") };
    assert_eq!(commands.len(), 15);
    assert_eq!(
        commands[5],
        GlCommand::TexImage2d {
            target: glow::TEXTURE_2D,
            level: 0,
            internal_format: glow::RGBA8 as i32,
            width: 1,
            height: 1,
            border: 0,
            format: glow::RGBA,
            ty: glow::UNSIGNED_BYTE,
        }
    );
    let SetupStep::Created { target } = setup.supply(glow::FRAMEBUFFER_COMPLETE) else {
        panic!("not created")
    };
    assert_eq!(target.framebuffer(), 11);
    assert_eq!(target.color_texture(), 33);
    assert_eq!(target.size(), PhysicalSize::new(1, 1));
    assert!(target.is_complete());
}

#[test]
fn a_refused_framebuffer_fails_creation_with_nothing_to_clean_up() {
    let step = RenderTarget::new().supply(0);
    assert_eq!(
        step,
        SetupStep::Failed {
            error: RenderTargetError::ResourceCreation { object: GpuObject::Framebuffer },
            cleanup: vec![],
        }
    );
}

#[test]
fn a_refused_renderbuffer_fails_creation_and_deletes_the_framebuffer() {
    let SetupStep::Pending { setup } = RenderTarget::new().supply(5) else { panic!() };
    assert_eq!(
        setup.supply(0),
        SetupStep::Failed {
            error: RenderTargetError::ResourceCreation { object: GpuObject::Renderbuffer },
            cleanup: vec![GlCommand::DeleteFramebuffer { framebuffer: 5 }],
        }
    );
}

#[test]
fn a_refused_texture_fails_creation_and_deletes_both_buffers() {
    let SetupStep::Pending { setup } = RenderTarget::new().supply(5) else { panic!() };
    let SetupStep::Pending { setup } = setup.supply(6) else { panic!() };
    assert_eq!(
        setup.supply(0),
        SetupStep::Failed {
            error: RenderTargetError::ResourceCreation { object: GpuObject::Texture },
            cleanup: vec![
                GlCommand::DeleteFramebuffer { framebuffer: 5 },
                GlCommand::DeleteRenderbuffer { renderbuffer: 6 },
            ],
        }
    );
}

#[test]
fn an_incomplete_first_check_fails_creation_and_deletes_all_three() {
    let SetupStep::Pending { setup } = RenderTarget::new().supply(5) else { panic!() };
    let SetupStep::Pending { setup } = setup.supply(6) else { panic!() };
    let SetupStep::Pending { setup } = setup.supply(7) else { panic!() };
    assert_eq!(
        setup.supply(INCOMPLETE_ATTACHMENT),
        SetupStep::Failed {
            error: RenderTargetError::FramebufferIncomplete { status: INCOMPLETE_ATTACHMENT },
            cleanup: vec![
                GlCommand::DeleteFramebuffer { framebuffer: 5 },
                GlCommand::DeleteRenderbuffer { renderbuffer: 6 },
                GlCommand::DeleteTexture { texture: 7 },
            ],
        }
    );
}

#[test]
fn failed_creation_leaves_no_object_behind() {
    for refused in [GpuObject::Framebuffer, GpuObject::Renderbuffer, GpuObject::Texture] {
        let mut gl = FakeGl::new();
        gl.refuse = Some(refused);
        assert_eq!(
            create_target(&mut gl),
            Err(RenderTargetError::ResourceCreation { object: refused })
        );
        assert!(gl.live.is_empty());
        assert_eq!(gl.allocations, 0);
    }
    let mut gl = FakeGl::new();
    gl.largest_extent = 0;
    assert_eq!(
        create_target(&mut gl),
        Err(RenderTargetError::FramebufferIncomplete { status: INCOMPLETE_ATTACHMENT })
    );
    assert!(gl.live.is_empty());
}

#[test]
fn resize_scenario_reports_each_size() {
    let mut gl = FakeGl::new();
    let mut target = create_target(&mut gl).unwrap();

    assert_eq!(resize(&mut gl, &mut target, 800, 600), Ok(()));
    assert_eq!(target.size(), PhysicalSize::new(800, 600));
    assert!(target.is_complete());

    assert_eq!(resize(&mut gl, &mut target, 0, 0), Ok(()));
    assert_eq!(target.size(), PhysicalSize::new(1, 1));
    assert!(target.is_complete());

    assert_eq!(resize(&mut gl, &mut target, 1920, 1080), Ok(()));
    assert_eq!(target.size(), PhysicalSize::new(1920, 1080));
    assert!(target.is_complete());

    assert_eq!(resize(&mut gl, &mut target, 800, 600), Ok(()));
    assert_eq!(target.size(), PhysicalSize::new(800, 600));
    assert!(target.is_complete());
}

#[test]
fn a_successful_resize_records_the_clamped_size_and_is_complete() {
    let mut gl = FakeGl::new();
    let mut target = create_target(&mut gl).unwrap();
    for (width, height) in [(1, 1), (640, 480), (0, 480), (640, 0), (4096, 2)] {
        assert_eq!(resize(&mut gl, &mut target, width, height), Ok(()));
        assert_eq!(target.size(), PhysicalSize::new(width.max(1), height.max(1)));
        assert!(target.is_complete());
        let texture = gl.texture_storage[&target.color_texture()];
        assert_eq!((texture.1 as u32, texture.2 as u32), (width.max(1), height.max(1)));
    }
}

#[test]
fn the_size_is_never_stale_against_the_storage() {
    let mut gl = FakeGl::new();
    let mut target = create_target(&mut gl).unwrap();
    let before = gl.allocations;
    resize(&mut gl, &mut target, 320, 200).unwrap();
    assert_eq!(gl.allocations, before + 2);
    assert_eq!(gl.texture_storage[&3], (glow::RGBA8 as i32, 320, 200));
    assert_eq!(gl.renderbuffer_storage[&2], (glow::DEPTH24_STENCIL8, 320, 200));
    assert_eq!(gl.color_attachment[&1], 3);
    assert_eq!(gl.depth_stencil_attachment[&1], 2);
    assert_eq!(gl.texture_parameters[&(3, glow::TEXTURE_MIN_FILTER)], glow::LINEAR as i32);
    assert_eq!(gl.texture_parameters[&(3, glow::TEXTURE_MAG_FILTER)], glow::LINEAR as i32);
    assert_eq!(gl.texture_parameters[&(3, glow::TEXTURE_WRAP_S)], glow::CLAMP_TO_EDGE as i32);
    assert_eq!(gl.texture_parameters[&(3, glow::TEXTURE_WRAP_T)], glow::CLAMP_TO_EDGE as i32);
}

#[test]
fn resize_issues_exactly_these_commands() {
    let mut gl = FakeGl::new();
    let mut target = create_target(&mut gl).unwrap();
    let commands = target.resize(PhysicalSize::new(800, 600));
    assert_eq!(
        commands,
        vec![
            GlCommand::BindTexture { target: 0x0DE1, texture: Some(3) },
            GlCommand::TexParameterI32 { target: 0x0DE1, parameter: 0x2801, value: 0x2601 },
            GlCommand::TexParameterI32 { target: 0x0DE1, parameter: 0x2800, value: 0x2601 },
            GlCommand::TexParameterI32 { target: 0x0DE1, parameter: 0x2802, value: 0x812F },
            GlCommand::TexParameterI32 { target: 0x0DE1, parameter: 0x2803, value: 0x812F },
            GlCommand::TexImage2d {
                target: 0x0DE1,
                level: 0,
                internal_format: 0x8058,
                width: 800,
                height: 600,
                border: 0,
                format: 0x1908,
                ty: 0x1401,
            },
            GlCommand::BindTexture { target: 0x0DE1, texture: None },
            GlCommand::BindRenderbuffer { target: 0x8D41, renderbuffer: Some(2) },
            GlCommand::RenderbufferStorage {
                target: 0x8D41,
                internal_format: 0x88F0,
                width: 800,
                height: 600,
            },
            GlCommand::BindRenderbuffer { target: 0x8D41, renderbuffer: None },
            GlCommand::BindFramebuffer { target: 0x8D40, framebuffer: Some(1) },
            GlCommand::FramebufferTexture2d {
                target: 0x8D40,
                attachment: 0x8CE0,
                texture_target: 0x0DE1,
                texture: Some(3),
                level: 0,
            },
            GlCommand::FramebufferRenderbuffer {
                target: 0x8D40,
                attachment: 0x821A,
                renderbuffer_target: 0x8D41,
                renderbuffer: Some(2),
            },
            GlCommand::CheckFramebufferStatus { target: 0x8D40 },
            GlCommand::BindFramebuffer { target: 0x8D40, framebuffer: None },
        ]
    );
    assert_eq!(target.completeness(), Completeness::Unchecked);
    assert!(!target.is_complete());
}

#[test]
fn an_incomplete_resize_keeps_the_new_size_and_carries_the_status() {
    let mut gl = FakeGl::new();
    gl.largest_extent = 1024;
    let mut target = create_target(&mut gl).unwrap();
    assert_eq!(
        resize(&mut gl, &mut target, 4000, 3000),
        Err(RenderTargetError::FramebufferIncomplete { status: INCOMPLETE_ATTACHMENT })
    );
    assert_eq!(target.size(), PhysicalSize::new(4000, 3000));
    assert!(!target.is_complete());
    assert_eq!(target.completeness(), Completeness::Incomplete { status: INCOMPLETE_ATTACHMENT });

    assert_eq!(resize(&mut gl, &mut target, 1000, 700), Ok(()));
    assert_eq!(target.size(), PhysicalSize::new(1000, 700));
    assert!(target.is_complete());
}

#[test]
fn every_status_but_complete_is_an_error() {
    let mut gl = FakeGl::new();
    let mut target = create_target(&mut gl).unwrap();
    for status in [0, 1, INCOMPLETE_ATTACHMENT, INCOMPLETE_MISSING_ATTACHMENT, 0x8CDD, u32::MAX] {
        target.resize(PhysicalSize::new(10, 10));
        assert_eq!(
            target.complete_resize(status),
            Err(RenderTargetError::FramebufferIncomplete { status })
        );
        assert!(!target.is_complete());
    }
    target.resize(PhysicalSize::new(10, 10));
    assert_eq!(target.complete_resize(0x8CD5), Ok(()));
    assert!(target.is_complete());
}

#[test]
fn bind_then_unbind_restores_the_window_framebuffer() {
    let mut gl = FakeGl::new();
    let mut target = create_target(&mut gl).unwrap();
    resize(&mut gl, &mut target, 300, 150).unwrap();
    let before = gl.framebuffer_binding;
    assert_eq!(before, None);

    gl.issue(&target.bind());
    assert_eq!(gl.framebuffer_binding, Some(target.framebuffer()));
    assert_eq!(gl.viewport, (0, 0, 300, 150));

    gl.issue(&target.unbind());
    assert_eq!(gl.framebuffer_binding, before);
}

#[test]
fn bind_and_unbind_are_these_commands() {
    let mut gl = FakeGl::new();
    let mut target = create_target(&mut gl).unwrap();
    resize(&mut gl, &mut target, 64, 48).unwrap();
    assert_eq!(
        target.bind(),
        vec![
            GlCommand::BindFramebuffer { target: glow::FRAMEBUFFER, framebuffer: Some(1) },
            GlCommand::Viewport { x: 0, y: 0, width: 64, height: 48 },
        ]
    );
    assert_eq!(
        target.unbind(),
        vec![GlCommand::BindFramebuffer { target: glow::FRAMEBUFFER, framebuffer: None }]
    );
}

#[test]
fn release_deletes_the_three_objects_once() {
    let mut gl = FakeGl::new();
    let target = create_target(&mut gl).unwrap();
    assert_eq!(gl.live.len(), 3);
    let commands = target.release();
    assert_eq!(
        commands,
        vec![
            GlCommand::DeleteFramebuffer { framebuffer: 1 },
            GlCommand::DeleteRenderbuffer { renderbuffer: 2 },
            GlCommand::DeleteTexture { texture: 3 },
        ]
    );
    gl.issue(&commands);
    assert!(gl.live.is_empty());
    assert!(gl.texture_storage.is_empty());
    assert!(gl.renderbuffer_storage.is_empty());
}

#[test]
fn extents_above_the_signed_range_wrap_as_the_driver_reads_them() {
    assert_eq!(to_gl_sizei(0), 0);
    assert_eq!(to_gl_sizei(1), 1);
    assert_eq!(to_gl_sizei(0x7fff_ffff), i32::MAX);
    assert_eq!(to_gl_sizei(0x8000_0000), i32::MIN);
    assert_eq!(to_gl_sizei(u32::MAX), -1);
}

#[test]
fn the_constants_are_those_of_the_gl_binding() {
    assert_eq!(gl::TEXTURE_2D, glow::TEXTURE_2D);
    assert_eq!(gl::TEXTURE_MAG_FILTER, glow::TEXTURE_MAG_FILTER);
    assert_eq!(gl::TEXTURE_MIN_FILTER, glow::TEXTURE_MIN_FILTER);
    assert_eq!(gl::TEXTURE_WRAP_S, glow::TEXTURE_WRAP_S);
    assert_eq!(gl::TEXTURE_WRAP_T, glow::TEXTURE_WRAP_T);
    assert_eq!(gl::LINEAR, glow::LINEAR);
    assert_eq!(gl::CLAMP_TO_EDGE, glow::CLAMP_TO_EDGE);
    assert_eq!(gl::RGBA, glow::RGBA);
    assert_eq!(gl::RGBA8, glow::RGBA8);
    assert_eq!(gl::UNSIGNED_BYTE, glow::UNSIGNED_BYTE);
    assert_eq!(gl::RENDERBUFFER, glow::RENDERBUFFER);
    assert_eq!(gl::DEPTH24_STENCIL8, glow::DEPTH24_STENCIL8);
    assert_eq!(gl::FRAMEBUFFER, glow::FRAMEBUFFER);
    assert_eq!(gl::COLOR_ATTACHMENT0, glow::COLOR_ATTACHMENT0);
    assert_eq!(gl::DEPTH_STENCIL_ATTACHMENT, glow::DEPTH_STENCIL_ATTACHMENT);
    assert_eq!(gl::FRAMEBUFFER_COMPLETE, glow::FRAMEBUFFER_COMPLETE);
    assert_eq!(gl::COLOR_BUFFER_BIT, glow::COLOR_BUFFER_BIT);
    assert_eq!(gl::DEPTH_BUFFER_BIT, glow::DEPTH_BUFFER_BIT);
    assert_eq!(f32::from_bits(scene_viewer::renderer::ONE), 1.0);
}

#[test]
fn resizing_to_the_same_size_is_a_no_op() {
    let mut gl = FakeGl::new();
    let mut target = create_target(&mut gl).unwrap();

    let commands = target.resize_if_changed(PhysicalSize::new(800, 600)).expect("a resize");
    assert_eq!(commands.len(), 15);
    let status = gl.issue(&commands).unwrap();
    assert_eq!(target.complete_resize(status), Ok(()));
    assert_eq!(gl.allocations, 4);

    for _ in 0..3 {
        assert_eq!(target.resize_if_changed(PhysicalSize::new(800, 600)), None);
        assert_eq!(target.size(), PhysicalSize::new(800, 600));
        assert!(target.is_complete());
        assert_eq!(gl.allocations, 4);
    }

    let commands = target.resize_if_changed(PhysicalSize::new(801, 600)).expect("a resize");
    gl.issue(&commands);
    assert_eq!(gl.allocations, 6);
    assert_eq!(target.size(), PhysicalSize::new(801, 600));
}

#[test]
fn a_plain_resize_allocates_even_at_the_same_size() {
    let mut gl = FakeGl::new();
    let mut target = create_target(&mut gl).unwrap();
    resize(&mut gl, &mut target, 64, 64).unwrap();
    let allocations = gl.allocations;
    resize(&mut gl, &mut target, 64, 64).unwrap();
    assert_eq!(gl.allocations, allocations + 2);
    assert_eq!(target.size(), PhysicalSize::new(64, 64));
}

#[test]
fn releasing_the_buffers_leaves_the_texture_to_its_new_owner() {
    let mut gl = FakeGl::new();
    let target = create_target(&mut gl).unwrap();
    let (texture, commands) = target.release_buffers();
    assert_eq!(texture, 3);
    assert_eq!(
        commands,
        vec![
            GlCommand::DeleteFramebuffer { framebuffer: 1 },
            GlCommand::DeleteRenderbuffer { renderbuffer: 2 },
        ]
    );
    gl.issue(&commands);
    assert_eq!(gl.live, vec![(GpuObject::Texture, 3)]);
    assert!(gl.texture_storage.contains_key(&3));
}

#[test]
fn fitting_to_the_same_size_allocates_nothing() {
    let mut gl = FakeGl::new();
    let target = create_target(&mut gl).unwrap();
    let mut display = SceneDisplay::new(target, 77);

    let commands = display.fit(PhysicalSize::new(800, 600)).expect("a resize");
    let status = gl.issue(&commands).unwrap();
    assert_eq!(display.complete_resize(status), Ok(()));
    assert_eq!(display.target_size(), PhysicalSize::new(800, 600));

    let allocations = gl.allocations;
    assert_eq!(display.fit(PhysicalSize::new(800, 600)), None);
    assert_eq!(display.target_size(), PhysicalSize::new(800, 600));
    assert_eq!(gl.allocations, allocations);
    assert!(display.render_to_target(&mut Renderer::new()).is_some());
}

#[test]
fn two_redraws_of_an_unchanged_region_resize_once() {
    let mut gl = FakeGl::new();
    let target = create_target(&mut gl).unwrap();
    let mut display = SceneDisplay::new(target, 1);
    let region = Vec2 { x: float_bits(533.5), y: float_bits(400.0) };
    let ratio = float_bits(1.5);
    let mut renderer = Renderer::new();

    let mut resizes = 0;
    for _ in 0..2 {
        let desired = SceneDisplay::points_to_pixels(region, ratio);
        assert_eq!(desired, PhysicalSize::new(800, 600));
        if let Some(commands) = display.fit(desired) {
            resizes += 1;
            let status = gl.issue(&commands).unwrap();
            display.complete_resize(status).unwrap();
        }
        let pass = display.render_to_target(&mut renderer).expect("a complete target");
        gl.issue(&pass);
        assert_eq!(gl.framebuffer_binding, None);
        assert_eq!(gl.cleared_to[&Some(1)], [0.2, 0.22, 0.26, 1.0]);
        assert_eq!(gl.cleared_to.get(&None), None);
    }
    assert_eq!(resizes, 1);
    assert_eq!(gl.allocations, 4);
    assert_eq!(gl.depth_cleared, vec![Some(1), Some(1)]);
}

#[test]
fn a_pass_of_the_user_interface_fits_the_target_to_its_region() {
    let mut gl = FakeGl::new();
    let target = create_target(&mut gl).unwrap();
    let mut display = SceneDisplay::new(target, 1);
    let region = Vec2 { x: float_bits(640.0), y: float_bits(360.25) };

    let commands = display.ui(region, float_bits(2.0)).expect("a resize");
    let status = gl.issue(&commands).unwrap();
    assert_eq!(display.complete_resize(status), Ok(()));
    assert_eq!(display.target_size(), PhysicalSize::new(1280, 721));
    assert_eq!(gl.texture_storage[&3], (glow::RGBA8 as i32, 1280, 721));

    assert_eq!(display.ui(region, float_bits(2.0)), None);
    assert_eq!(display.target_size(), PhysicalSize::new(1280, 721));

    let commands = display.ui(region, float_bits(1.0)).expect("a resize");
    gl.issue(&commands);
    assert_eq!(display.target_size(), PhysicalSize::new(640, 360));

    let nothing = Vec2 { x: float_bits(0.0), y: float_bits(-4.0) };
    let commands = display.ui(nothing, float_bits(1.0)).expect("a resize");
    gl.issue(&commands);
    assert_eq!(display.target_size(), PhysicalSize::new(1, 1));
}

#[test]
fn a_region_with_a_zero_extent_fits_as_one_pixel() {
    let mut gl = FakeGl::new();
    let target = create_target(&mut gl).unwrap();
    let mut display = SceneDisplay::new(target, 1);
    assert_eq!(display.fit(PhysicalSize::new(0, 0)), None);
    assert_eq!(display.fit(PhysicalSize::new(1, 0)), None);
    let commands = display.fit(PhysicalSize::new(0, 9)).expect("a resize");
    gl.issue(&commands);
    assert_eq!(display.target_size(), PhysicalSize::new(1, 9));
    assert_eq!(display.fit(PhysicalSize::new(0, 9)), None);
}

#[test]
fn no_scene_pass_while_the_target_is_not_complete() {
    let mut gl = FakeGl::new();
    gl.largest_extent = 512;
    let target = create_target(&mut gl).unwrap();
    let mut display = SceneDisplay::new(target, 9);
    let mut renderer = Renderer::new();
    assert!(display.render_to_target(&mut renderer).is_some());

    let commands = display.fit(PhysicalSize::new(2048, 16)).expect("a resize");
    assert_eq!(display.render_to_target(&mut renderer), None);
    let status = gl.issue(&commands).unwrap();
    assert_eq!(
        display.complete_resize(status),
        Err(RenderTargetError::FramebufferIncomplete { status: INCOMPLETE_ATTACHMENT })
    );
    assert_eq!(display.render_to_target(&mut renderer), None);
    assert_eq!(display.target_size(), PhysicalSize::new(2048, 16));

    let commands = display.fit(PhysicalSize::new(256, 16)).expect("a resize");
    let status = gl.issue(&commands).unwrap();
    assert_eq!(display.complete_resize(status), Ok(()));
    assert!(display.render_to_target(&mut renderer).is_some());
}

#[test]
fn shutting_the_display_down_releases_each_object_once() {
    let mut gl = FakeGl::new();
    let target = create_target(&mut gl).unwrap();
    let display = SceneDisplay::new(target, 42);
    assert_eq!(display.texture_id(), 42);
    let shutdown = display.shutdown();
    assert_eq!(shutdown.texture_id, 42);
    assert_eq!(shutdown.color_texture, 3);
    assert_eq!(
        shutdown.commands,
        vec![
            GlCommand::DeleteFramebuffer { framebuffer: 1 },
            GlCommand::DeleteRenderbuffer { renderbuffer: 2 },
        ]
    );
    gl.issue(&shutdown.commands);
    assert_eq!(gl.live, vec![(GpuObject::Texture, 3)]);
    gl.issue(&[GlCommand::DeleteTexture { texture: shutdown.color_texture }]);
    assert!(gl.live.is_empty());
}

#[test]
fn a_scene_pass_is_bind_draw_unbind() {
    let mut gl = FakeGl::new();
    let mut target = create_target(&mut gl).unwrap();
    resize(&mut gl, &mut target, 320, 240).unwrap();
    let display = SceneDisplay::new(target, 1);
    let pass = display.render_to_target(&mut Renderer::new()).unwrap();
    assert_eq!(
        pass,
        vec![
            GlCommand::BindFramebuffer { target: glow::FRAMEBUFFER, framebuffer: Some(1) },
            GlCommand::Viewport { x: 0, y: 0, width: 320, height: 240 },
            GlCommand::ClearColor {
                color: Rgba {
                    red: float_bits(0.2),
                    green: float_bits(0.22),
                    blue: float_bits(0.26),
                    alpha: float_bits(1.0),
                },
            },
            GlCommand::Clear { mask: glow::COLOR_BUFFER_BIT | glow::DEPTH_BUFFER_BIT },
            GlCommand::BindFramebuffer { target: glow::FRAMEBUFFER, framebuffer: None },
        ]
    );
}

#[test]
fn the_renderer_fills_the_bound_framebuffer() {
    let mut gl = FakeGl::new();
    let mut renderer = Renderer::new();
    let commands = renderer.render_color(float_bits(0.5), float_bits(0.25), float_bits(0.125));
    assert_eq!(
        commands,
        vec![
            GlCommand::ClearColor {
                color: Rgba {
                    red: float_bits(0.5),
                    green: float_bits(0.25),
                    blue: float_bits(0.125),
                    alpha: float_bits(1.0),
                },
            },
            GlCommand::Clear { mask: glow::COLOR_BUFFER_BIT },
        ]
    );
    gl.issue(&commands);
    assert_eq!(gl.cleared_to[&None], [0.5, 0.25, 0.125, 1.0]);
    assert!(gl.depth_cleared.is_empty());

    gl.issue(&renderer.render_scene_pass());
    assert_eq!(gl.cleared_to[&None], [0.2, 0.22, 0.26, 1.0]);
    assert_eq!(gl.depth_cleared, vec![None]);
}
