//! A plain main window: it follows the size the platform gives it and clears
//! itself when asked to redraw.

use vstd::prelude::*;
use crate::application::PlatformEvent;
use crate::binary32::Binary32;
use crate::config::{MainWindowConfig, WindowAttributes};
use crate::geometry::{LogicalSize, PhysicalSize};
use crate::gl::Rgba;
use crate::gl_window::{GlWindow, WindowCommand, WindowView};

verus! {

/// Makes main windows from their settings.
#[derive(Clone, Copy, Debug, PartialEq, Eq, Structural)]
pub struct MainWindowFactory;

impl MainWindowFactory {
    pub fn new() -> (factory: MainWindowFactory)
        ensures
            factory == MainWindowFactory,
    {
        MainWindowFactory
    }

    /// The attributes of the window for these settings: their title and
    /// their size as the initial size, with no smallest size.
    pub fn window_attributes(&self, config: &MainWindowConfig) -> (attributes: WindowAttributes)
        ensures
            attributes.title == config.title,
            attributes.inner_size == Some(
                LogicalSize { width: config.width, height: config.height },
            ),
            attributes.min_inner_size is None,
    {
        WindowAttributes::titled(config.title.clone()).with_inner_size(
            LogicalSize::new(config.width, config.height),
        )
    }

    /// The main window around a window whose surface and context exist.
    pub fn create(&mut self, gl_window: GlWindow) -> (window: MainWindow)
        ensures
            window@ == gl_window@,
    {
        MainWindow { gl_window }
    }
}

/// One thing the embedding program must do for a main window.
#[derive(Clone, Copy, Debug, PartialEq, Eq)]
pub enum WindowAction {
    /// Ask the event pump to stop.
    Exit,
    /// Do this to the window's surface or context.
    Surface { command: WindowCommand },
    /// Ask the platform for a redraw of the window.
    RequestRedraw,
}

/// The actions with which a main window takes on a new size: the surface is
/// resized to the clamped size, the viewport set to the whole of it, and a
/// redraw asked for.
pub open spec fn resize_actions(size: PhysicalSize) -> Seq<WindowAction> {
    seq![
        WindowAction::Surface {
            command: WindowCommand::ResizeSurface {
                width: size.clamp().width,
                height: size.clamp().height,
            },
        },
        WindowAction::Surface {
            command: WindowCommand::Gl { command: WindowView::full_viewport(size.clamp()) },
        },
        WindowAction::RequestRedraw,
    ]
}

/// The background of a main window: red 0.1, green 0.12, blue 0.16, opaque.
pub open spec fn background() -> Rgba {
    Rgba {
        red: Binary32 { bits: 0x3DCC_CCCD },
        green: Binary32 { bits: 0x3DF5_C28F },
        blue: Binary32 { bits: 0x3E23_D70A },
        alpha: Binary32 { bits: 0x3F80_0000 },
    }
}

/// The actions a main window answers an event with.
pub open spec fn event_actions(event: PlatformEvent) -> Seq<WindowAction> {
    match event {
        PlatformEvent::CloseRequested => seq![WindowAction::Exit],
        PlatformEvent::Resized { size } => resize_actions(size),
        PlatformEvent::ScaleFactorChanged { inner_size } => resize_actions(inner_size),
        PlatformEvent::RedrawRequested => seq![
            WindowAction::Surface { command: WindowView::render_clear_commands(background())[0] },
            WindowAction::Surface { command: WindowView::render_clear_commands(background())[1] },
            WindowAction::Surface { command: WindowView::render_clear_commands(background())[2] },
        ],
        _ => Seq::empty(),
    }
}

/// A main window.
#[derive(Debug, PartialEq, Eq)]
pub struct MainWindow {
    gl_window: GlWindow,
}

impl View for MainWindow {
    type V = WindowView;

    closed spec fn view(&self) -> WindowView {
        self.gl_window@
    }
}

impl MainWindow {
    /// Takes one event of the window and returns what is to be done for it.
    ///
    /// A close request stops the event pump. A new size, or a new scale
    /// factor with the inner size that goes with it, resizes the surface and
    /// the viewport to the clamped size and asks for a redraw. A redraw
    /// fills the window with its background and presents it. Nothing else
    /// has any effect.
    pub fn handle_event(&mut self, event: &PlatformEvent) -> (actions: Vec<WindowAction>)
        ensures
            actions@ == event_actions(*event),
            final(self)@.api == old(self)@.api,
            final(self)@.surface_size == match *event {
                PlatformEvent::Resized { size } => size.clamp(),
                PlatformEvent::ScaleFactorChanged { inner_size } => inner_size.clamp(),
                _ => old(self)@.surface_size,
            },
    {
        let mut actions: Vec<WindowAction> = Vec::new();
        match *event {
            PlatformEvent::CloseRequested => {
                actions.push(WindowAction::Exit);
            },
            PlatformEvent::Resized { size } => {
                self.resize_into(size, &mut actions);
            },
            PlatformEvent::ScaleFactorChanged { inner_size } => {
                self.resize_into(inner_size, &mut actions);
            },
            PlatformEvent::RedrawRequested => {
                let commands = self.gl_window.render_clear(
                    Binary32 { bits: 0x3DCC_CCCD },
                    Binary32 { bits: 0x3DF5_C28F },
                    Binary32 { bits: 0x3E23_D70A },
                    Binary32 { bits: 0x3F80_0000 },
                );
                actions.push(WindowAction::Surface { command: commands[0] });
                actions.push(WindowAction::Surface { command: commands[1] });
                actions.push(WindowAction::Surface { command: commands[2] });
            },
            _ => {},
        }
        assert(actions@ =~= event_actions(*event));
        actions
    }

    /// The size of the window's surface.
    pub fn surface_size(&self) -> (size: PhysicalSize)
        ensures
            size == self@.surface_size,
            size.is_drawable(),
    {
        self.gl_window.surface_size()
    }

    fn resize_into(&mut self, size: PhysicalSize, actions: &mut Vec<WindowAction>)
        requires
            old(actions)@.len() == 0,
        ensures
            final(actions)@ == resize_actions(size),
            final(self)@.api == old(self)@.api,
            final(self)@.surface_size == size.clamp(),
    {
        let commands = self.gl_window.resize(size);
        actions.push(WindowAction::Surface { command: commands[0] });
        actions.push(WindowAction::Surface { command: commands[1] });
        actions.push(WindowAction::RequestRedraw);
        assert(actions@ =~= resize_actions(size));
    }
}

} // verus!
