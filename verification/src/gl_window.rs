//! The window with its presentation surface and rendering context.
//!
//! The window, the surface and the context are created together by the
//! embedding program; this module decides with which pixel format, which API
//! version and which surface size, and which commands follow a change of size.

use vstd::prelude::*;
use crate::geometry::PhysicalSize;
use crate::binary32::Binary32;
use crate::gl::{gl_sizei, to_gl_sizei, GlCommand, GlState, Rgba, ViewportRect, COLOR_BUFFER_BIT};

verus! {

/// A version of the OpenGL API.
#[derive(Clone, Copy, Debug, PartialEq, Eq, Structural)]
pub struct ApiVersion {
    pub major: u8,
    pub minor: u8,
}

/// The colour and depth bits asked of the window's pixel format.
#[derive(Clone, Copy, Debug, PartialEq, Eq, Structural)]
pub struct PixelFormat {
    pub alpha_size: u8,
    pub depth_size: u8,
}

/// Why the window's context could not be set up. Neither can be recovered
/// from: without a context nothing can be drawn.
#[derive(Clone, Copy, Debug, PartialEq, Eq, Structural)]
pub enum FatalInitError {
    /// The platform offered no pixel format to choose from.
    NoPixelFormat,
    /// No context could be created, not even of the fallback version.
    ContextCreation,
}

/// The version asked for first.
pub open spec fn preferred_api() -> ApiVersion {
    ApiVersion { major: 4, minor: 1 }
}

/// The version asked for when the preferred one is not to be had.
pub open spec fn fallback_api() -> ApiVersion {
    ApiVersion { major: 3, minor: 3 }
}

/// `index` is the place of the last of the largest sample counts.
pub open spec fn is_last_maximum(sample_counts: Seq<u8>, index: int) -> bool {
    &&& 0 <= index < sample_counts.len()
    &&& forall|i: int| 0 <= i < sample_counts.len() ==> sample_counts[i] <= sample_counts[index]
    &&& forall|i: int| index < i < sample_counts.len() ==> sample_counts[i] < sample_counts[index]
}

/// A list has at most one last maximum.
pub proof fn lemma_last_maximum_unique(sample_counts: Seq<u8>, first: int, second: int)
    requires
        is_last_maximum(sample_counts, first),
        is_last_maximum(sample_counts, second),
    ensures
        first == second,
{
    if first < second {
        assert(sample_counts[second] < sample_counts[first]);
        assert(sample_counts[first] <= sample_counts[second]);
    } else if second < first {
        assert(sample_counts[first] < sample_counts[second]);
        assert(sample_counts[second] <= sample_counts[first]);
    }
}

/// Picks among the pixel formats the platform offers, given the number of
/// samples of each in the order offered: the one with the most samples, and
/// the last of these where several have the most. With nothing offered there
/// is nothing to pick.
pub fn select_config(sample_counts: &Vec<u8>) -> (choice: Result<usize, FatalInitError>)
    ensures
        choice is Err <==> sample_counts@.len() == 0,
        choice is Err ==> choice == Err::<usize, FatalInitError>(FatalInitError::NoPixelFormat),
        choice matches Ok(index) ==> is_last_maximum(sample_counts@, index as int),
{
    if sample_counts.len() == 0 {
        return Err(FatalInitError::NoPixelFormat);
    }
    let mut best: usize = 0;
    let mut i: usize = 1;
    while i < sample_counts.len()
        invariant
            1 <= i <= sample_counts.len(),
            best < i,
            forall|k: int| 0 <= k < i ==> sample_counts@[k] <= sample_counts@[best as int],
            forall|k: int| best < k < i ==> sample_counts@[k] < sample_counts@[best as int],
        decreases sample_counts.len() - i,
    {
        if sample_counts[i] >= sample_counts[best] {
            best = i;
        }
        i = i + 1;
    }
    Ok(best)
}

/// The negotiation of the context's API version: the preferred version is
/// asked for first, the fallback version once, after the preferred one was
/// refused.
#[derive(Clone, Copy, Debug, PartialEq, Eq, Structural)]
pub enum ContextNegotiation {
    /// A context of the preferred version is to be requested.
    TryPreferred,
    /// The preferred version was refused; a context of the fallback version
    /// is to be requested.
    TryFallback,
    /// A context of this version exists.
    Established { api: ApiVersion },
    /// Both versions were refused.
    Failed,
}

impl ContextNegotiation {
    /// The version to request in this state, if any is left to request.
    pub open spec fn wanted(self) -> Option<ApiVersion> {
        match self {
            ContextNegotiation::TryPreferred => Some(preferred_api()),
            ContextNegotiation::TryFallback => Some(fallback_api()),
            _ => None,
        }
    }

    /// The state after the platform has answered the request of this state.
    /// A state with nothing to request stays as it is.
    pub open spec fn next(self, created: bool) -> ContextNegotiation {
        match self {
            ContextNegotiation::TryPreferred => if created {
                ContextNegotiation::Established { api: preferred_api() }
            } else {
                ContextNegotiation::TryFallback
            },
            ContextNegotiation::TryFallback => if created {
                ContextNegotiation::Established { api: fallback_api() }
            } else {
                ContextNegotiation::Failed
            },
            _ => self,
        }
    }

    /// Nothing is left to request: a context exists or none can be had.
    pub open spec fn is_settled(self) -> bool {
        self is Established || self is Failed
    }

    pub fn start() -> (negotiation: ContextNegotiation)
        ensures
            negotiation == ContextNegotiation::TryPreferred,
    {
        ContextNegotiation::TryPreferred
    }

    /// The version to request now, or `None` once the negotiation is settled.
    pub fn request(&self) -> (version: Option<ApiVersion>)
        ensures
            version == self.wanted(),
            version is None <==> self.is_settled(),
    {
        match self {
            ContextNegotiation::TryPreferred => Some(ApiVersion { major: 4, minor: 1 }),
            ContextNegotiation::TryFallback => Some(ApiVersion { major: 3, minor: 3 }),
            _ => None,
        }
    }

    /// Takes the platform's answer to the last request: whether a context of
    /// the requested version was created.
    pub fn advance(self, created: bool) -> (negotiation: ContextNegotiation)
        ensures
            negotiation == self.next(created),
    {
        match self {
            ContextNegotiation::TryPreferred => if created {
                ContextNegotiation::Established { api: ApiVersion { major: 4, minor: 1 } }
            } else {
                ContextNegotiation::TryFallback
            },
            ContextNegotiation::TryFallback => if created {
                ContextNegotiation::Established { api: ApiVersion { major: 3, minor: 3 } }
            } else {
                ContextNegotiation::Failed
            },
            ContextNegotiation::Established { api } => ContextNegotiation::Established { api },
            ContextNegotiation::Failed => ContextNegotiation::Failed,
        }
    }

    /// Whatever the platform answers, the negotiation is settled after two
    /// answers at most. It ends with the preferred version exactly when the
    /// first request succeeds, with the fallback version exactly when the
    /// first fails and the second succeeds, and fails exactly when both do.
    pub proof fn lemma_settles_within_two(first: bool, second: bool)
        ensures
            ({
                let start = ContextNegotiation::TryPreferred;
                let end = start.next(first).next(second);
                &&& end.is_settled()
                &&& first ==> start.next(first) == (ContextNegotiation::Established {
                    api: preferred_api(),
                })
                &&& end == (ContextNegotiation::Established { api: preferred_api() }) <==> first
                &&& end == (ContextNegotiation::Established { api: fallback_api() }) <==> !first
                    && second
                &&& end is Failed <==> !first && !second
            }),
    {
    }
}

/// One thing the embedding program must do to the window's surface or
/// context.
#[derive(Clone, Copy, Debug, PartialEq, Eq)]
pub enum WindowCommand {
    /// Resize the presentation surface. Neither extent is zero.
    ResizeSurface { width: u32, height: u32 },
    /// Pace presentation to this many vertical syncs per swap. A platform
    /// that cannot do so is left as it is.
    SetSwapInterval { interval: u32 },
    /// Issue a GL command in the window's context.
    Gl { command: GlCommand },
    /// Swap the back buffer to the front. This may block until the next
    /// vertical sync.
    SwapBuffers,
}

/// The surface and context of a window as far as the commands change them.
pub struct SurfaceState {
    /// The size of the presentation surface.
    pub size: PhysicalSize,
    /// The swap interval, once one was set.
    pub swap_interval: Option<u32>,
    /// How many frames were presented.
    pub frames_presented: nat,
    pub gl: GlState,
}

impl SurfaceState {
    pub open spec fn apply(self, command: WindowCommand) -> SurfaceState {
        match command {
            WindowCommand::ResizeSurface { width, height } => SurfaceState {
                size: PhysicalSize { width, height },
                ..self
            },
            WindowCommand::SetSwapInterval { interval } => SurfaceState {
                swap_interval: Some(interval),
                ..self
            },
            WindowCommand::Gl { command } => SurfaceState { gl: self.gl.apply(command), ..self },
            WindowCommand::SwapBuffers => SurfaceState {
                frames_presented: self.frames_presented + 1,
                ..self
            },
        }
    }

    /// The state after the first `count` commands of a list.
    pub open spec fn run_prefix(self, commands: Seq<WindowCommand>, count: nat) -> SurfaceState
        decreases count,
    {
        if count == 0 {
            self
        } else {
            self.run_prefix(commands, (count - 1) as nat).apply(commands[count - 1])
        }
    }

    /// The state after a list of commands, issued in order.
    pub open spec fn run(self, commands: Seq<WindowCommand>) -> SurfaceState {
        self.run_prefix(commands, commands.len())
    }
}

/// What a window is, as a mathematical value.
pub struct WindowView {
    /// The size the surface was last given.
    pub surface_size: PhysicalSize,
    /// The API version of the window's context.
    pub api: ApiVersion,
}

impl WindowView {
    /// The viewport command that covers a surface of `size`.
    pub open spec fn full_viewport(size: PhysicalSize) -> GlCommand {
        GlCommand::Viewport {
            x: 0,
            y: 0,
            width: gl_sizei(size.width),
            height: gl_sizei(size.height),
        }
    }

    /// The commands that follow the creation of a surface of `size`, once
    /// the context is current on it.
    pub open spec fn setup_commands(size: PhysicalSize) -> Seq<WindowCommand> {
        seq![
            WindowCommand::SetSwapInterval { interval: 1 },
            WindowCommand::Gl { command: Self::full_viewport(size) },
        ]
    }

    /// The commands of a resize to `size`.
    pub open spec fn resize_commands(size: PhysicalSize) -> Seq<WindowCommand> {
        seq![
            WindowCommand::ResizeSurface { width: size.clamp().width, height: size.clamp().height },
            WindowCommand::Gl { command: Self::full_viewport(size.clamp()) },
        ]
    }

    pub open spec fn present_commands() -> Seq<WindowCommand> {
        seq![WindowCommand::SwapBuffers]
    }

    /// The commands that fill the window with a colour and present it.
    pub open spec fn render_clear_commands(color: Rgba) -> Seq<WindowCommand> {
        seq![
            WindowCommand::Gl { command: GlCommand::ClearColor { color } },
            WindowCommand::Gl { command: GlCommand::Clear { mask: COLOR_BUFFER_BIT } },
            WindowCommand::SwapBuffers,
        ]
    }

    /// Clearing and presenting, from a state in which the window's
    /// framebuffer is the render destination, fills the window with the
    /// colour and shows one more frame.
    pub proof fn lemma_render_clear_effect(color: Rgba, before: SurfaceState)
        requires
            before.gl.framebuffer_binding is None,
        ensures
            before.run(Self::render_clear_commands(color)) == (SurfaceState {
                frames_presented: before.frames_presented + 1,
                gl: GlState {
                    clear_color: color,
                    cleared_to: before.gl.cleared_to.insert(None, color),
                    ..before.gl
                },
                ..before
            }),
    {
        assert(Self::render_clear_commands(color).len() == 3);
        assert(COLOR_BUFFER_BIT & COLOR_BUFFER_BIT == COLOR_BUFFER_BIT) by (bit_vector);
        reveal_with_fuel(SurfaceState::run_prefix, 4);
    }

    /// Whatever the state was, after the commands of a resize the surface has
    /// the clamped size, no extent of which is zero, and the viewport covers
    /// the whole surface. Nothing else has changed.
    pub proof fn lemma_resize_effect(size: PhysicalSize, before: SurfaceState)
        ensures
            size.clamp().is_drawable(),
            before.run(Self::resize_commands(size)) == (SurfaceState {
                size: size.clamp(),
                gl: GlState {
                    viewport: ViewportRect {
                        x: 0,
                        y: 0,
                        width: gl_sizei(size.clamp().width) as int,
                        height: gl_sizei(size.clamp().height) as int,
                    },
                    ..before.gl
                },
                ..before
            }),
    {
        assert(Self::resize_commands(size).len() == 2);
        reveal_with_fuel(SurfaceState::run_prefix, 3);
    }

    /// After the commands of the setup presentation is paced to one vertical
    /// sync per swap and the viewport covers the whole surface.
    pub proof fn lemma_setup_effect(size: PhysicalSize, before: SurfaceState)
        ensures
            before.run(Self::setup_commands(size)) == (SurfaceState {
                swap_interval: Some(1u32),
                gl: GlState {
                    viewport: ViewportRect {
                        x: 0,
                        y: 0,
                        width: gl_sizei(size.width) as int,
                        height: gl_sizei(size.height) as int,
                    },
                    ..before.gl
                },
                ..before
            }),
    {
        assert(Self::setup_commands(size).len() == 2);
        reveal_with_fuel(SurfaceState::run_prefix, 3);
    }

    /// Presenting shows one more frame and changes nothing else.
    pub proof fn lemma_present_effect(before: SurfaceState)
        ensures
            before.run(Self::present_commands()) == (SurfaceState {
                frames_presented: before.frames_presented + 1,
                ..before
            }),
    {
        assert(Self::present_commands().len() == 1);
        reveal_with_fuel(SurfaceState::run_prefix, 2);
    }
}

/// What the embedding program needs to finish the creation of a window.
#[derive(Debug, PartialEq, Eq)]
pub struct SurfaceSetup {
    /// The size to create the presentation surface with. Neither extent is
    /// zero.
    pub surface_size: PhysicalSize,
    /// The commands to issue once the context is current on the surface.
    pub commands: Vec<WindowCommand>,
}

/// A window whose surface and context exist, as far as the library decides
/// about it: the size of its surface and the version of its context.
#[derive(Debug, PartialEq, Eq)]
pub struct GlWindow {
    surface_size: PhysicalSize,
    api: ApiVersion,
}

impl View for GlWindow {
    type V = WindowView;

    closed spec fn view(&self) -> WindowView {
        WindowView { surface_size: self.surface_size, api: self.api }
    }
}

impl GlWindow {
    #[verifier::type_invariant]
    spec fn valid(self) -> bool {
        self.surface_size.is_drawable()
    }

    /// The pixel format to ask the platform for: eight bits of alpha and
    /// twenty-four of depth.
    pub fn pixel_format() -> (format: PixelFormat)
        ensures
            format == (PixelFormat { alpha_size: 8, depth_size: 24 }),
    {
        PixelFormat { alpha_size: 8, depth_size: 24 }
    }

    /// Makes the window for a platform window of inner size `inner_size`
    /// whose context came out of `negotiation`.
    ///
    /// Without an established context there is no window:
    /// the result is `ContextCreation`. With one, the surface is to be created
    /// with the clamped inner size, and once the context is current on it,
    /// presentation is paced to one vertical sync per swap and the viewport
    /// is set to the whole surface.
    pub fn new(inner_size: PhysicalSize, negotiation: ContextNegotiation) -> (result: Result<
        (GlWindow, SurfaceSetup),
        FatalInitError,
    >)
        ensures
            result is Ok <==> negotiation is Established,
            result is Err ==> result is Err && result->Err_0 == FatalInitError::ContextCreation,
            result matches Ok((window, setup)) ==> {
                &&& window@.surface_size == inner_size.clamp()
                &&& window@.api == negotiation->api
                &&& setup.surface_size == inner_size.clamp()
                &&& setup.surface_size.is_drawable()
                &&& setup.commands@ == WindowView::setup_commands(inner_size.clamp())
            },
    {
        match negotiation {
            ContextNegotiation::Established { api } => {
                let surface_size = inner_size.clamped();
                let mut commands: Vec<WindowCommand> = Vec::new();
                commands.push(WindowCommand::SetSwapInterval { interval: 1 });
                commands.push(WindowCommand::Gl { command: Self::viewport_for(surface_size) });
                assert(commands@ =~= WindowView::setup_commands(surface_size));
                Ok((GlWindow { surface_size, api }, SurfaceSetup { surface_size, commands }))
            },
            _ => Err(FatalInitError::ContextCreation),
        }
    }

    /// Records the clamped `size` as the size of the surface and returns the
    /// commands that resize the surface to it and set the viewport to the
    /// whole of it. To be called whenever the platform reports a new size or
    /// a new scale factor.
    pub fn resize(&mut self, size: PhysicalSize) -> (commands: Vec<WindowCommand>)
        ensures
            final(self)@.surface_size == size.clamp(),
            final(self)@.surface_size.is_drawable(),
            final(self)@.api == old(self)@.api,
            commands@ == WindowView::resize_commands(size),
    {
        let clamped = size.clamped();
        self.surface_size = clamped;
        let mut commands: Vec<WindowCommand> = Vec::new();
        commands.push(
            WindowCommand::ResizeSurface { width: clamped.width, height: clamped.height },
        );
        commands.push(WindowCommand::Gl { command: Self::viewport_for(clamped) });
        assert(commands@ =~= WindowView::resize_commands(size));
        commands
    }

    /// The commands that show the finished frame.
    pub fn present(&self) -> (commands: Vec<WindowCommand>)
        ensures
            commands@ == WindowView::present_commands(),
    {
        let mut commands: Vec<WindowCommand> = Vec::new();
        commands.push(WindowCommand::SwapBuffers);
        assert(commands@ =~= WindowView::present_commands());
        commands
    }

    /// The commands that fill the window with the colour of the given red,
    /// green, blue and opacity and present it.
    pub fn render_clear(&mut self, r: Binary32, g: Binary32, b: Binary32, a: Binary32) -> (commands:
        Vec<WindowCommand>)
        ensures
            final(self)@ == old(self)@,
            commands@ == WindowView::render_clear_commands(
                Rgba { red: r, green: g, blue: b, alpha: a },
            ),
    {
        let color = Rgba { red: r, green: g, blue: b, alpha: a };
        let mut commands: Vec<WindowCommand> = Vec::new();
        commands.push(WindowCommand::Gl { command: GlCommand::ClearColor { color } });
        commands.push(WindowCommand::Gl { command: GlCommand::Clear { mask: COLOR_BUFFER_BIT } });
        commands.push(WindowCommand::SwapBuffers);
        assert(commands@ =~= WindowView::render_clear_commands(color));
        commands
    }

    /// The size the surface was last given.
    pub fn surface_size(&self) -> (size: PhysicalSize)
        ensures
            size == self@.surface_size,
            size.is_drawable(),
    {
        proof {
            use_type_invariant(self);
        }
        self.surface_size
    }

    /// The API version of the window's context.
    pub fn api(&self) -> (api: ApiVersion)
        ensures
            api == self@.api,
    {
        self.api
    }

    fn viewport_for(size: PhysicalSize) -> (command: GlCommand)
        ensures
            command == WindowView::full_viewport(size),
    {
        GlCommand::Viewport {
            x: 0,
            y: 0,
            width: to_gl_sizei(size.width),
            height: to_gl_sizei(size.height),
        }
    }
}

} // verus!
