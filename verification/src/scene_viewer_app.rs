//! The scene viewer as a client of the application: a side panel and the
//! display of the scene.

use vstd::prelude::*;
use crate::application::PlatformEvent;
use crate::config::{AppConfig, WindowAttributes};
use crate::geometry::LogicalSize;
use crate::gl::GlCommand;
use crate::left_panel::LeftPanel;
use crate::scene_display::{DisplayView, SceneDisplay};

verus! {

/// Makes the scene viewer and says what window it wants.
#[derive(Debug)]
pub struct SceneViewerAppFactory {
    config: AppConfig,
}

impl SceneViewerAppFactory {
    /// The settings the factory was made with.
    pub closed spec fn config(self) -> AppConfig {
        self.config
    }

    pub fn new(config: AppConfig) -> (factory: SceneViewerAppFactory)
        ensures
            factory.config() == config,
    {
        SceneViewerAppFactory { config }
    }

    /// The attributes of the viewer's window: the title of the settings,
    /// their size as the initial size and their smallest size as the size
    /// the window may not shrink below.
    pub fn window_attributes(&mut self) -> (attributes: WindowAttributes)
        ensures
            final(self).config() == old(self).config(),
            attributes.title == old(self).config().title,
            attributes.inner_size == Some(
                LogicalSize { width: old(self).config().width, height: old(self).config().height },
            ),
            attributes.min_inner_size == Some(
                LogicalSize {
                    width: old(self).config().min_width,
                    height: old(self).config().min_height,
                },
            ),
    {
        WindowAttributes::titled(self.config.title.clone()).with_min_inner_size(
            LogicalSize::new(self.config.min_width, self.config.min_height),
        ).with_inner_size(LogicalSize::new(self.config.width, self.config.height))
    }

    /// The viewer around a scene display whose render target exists, with a
    /// new side panel.
    pub fn create_client(&mut self, scene_display: SceneDisplay) -> (client: SceneViewerApp)
        ensures
            final(self).config() == old(self).config(),
            client.scene_display@ == scene_display@,
            client.left_panel == LeftPanel::new_spec(),
    {
        SceneViewerApp { left_panel: LeftPanel::new(), scene_display }
    }
}

/// What the viewer asks for after an event.
#[derive(Clone, Copy, Debug, PartialEq, Eq, Structural)]
pub struct ClientResponse {
    /// The window is to be drawn again.
    pub request_redraw: bool,
    /// The event pump is to stop.
    pub exit: bool,
}

/// One step of the viewer's teardown.
#[derive(Clone, Copy, Debug, PartialEq, Eq)]
pub enum ClientTeardown {
    /// Free this texture handle of the user interface, which deletes the
    /// texture behind it.
    FreeTexture { texture_id: u64 },
    /// Destroy the painter of the user interface.
    DestroyPainter,
    /// Issue this GL command.
    Gl { command: GlCommand },
}

/// The steps of the viewer's teardown, in order: the user interface frees
/// the target's colour texture and destroys its painter, then the target's
/// framebuffer and renderbuffer are deleted. Each of the three objects goes
/// exactly once.
pub open spec fn teardown_steps(display: DisplayView) -> Seq<ClientTeardown> {
    seq![
        ClientTeardown::FreeTexture { texture_id: display.texture_id },
        ClientTeardown::DestroyPainter,
        ClientTeardown::Gl {
            command: GlCommand::DeleteFramebuffer { framebuffer: display.target.framebuffer },
        },
        ClientTeardown::Gl {
            command: GlCommand::DeleteRenderbuffer { renderbuffer: display.target.depth_buffer },
        },
    ]
}

/// The scene viewer.
#[derive(Debug, PartialEq, Eq)]
pub struct SceneViewerApp {
    pub left_panel: LeftPanel,
    pub scene_display: SceneDisplay,
}

impl SceneViewerApp {
    /// Says what the viewer asks for after an event of the window: a redraw
    /// exactly when the user interface wants to be painted again, and the
    /// end of the event pump exactly when the event is a close request.
    pub fn on_window_event(&self, repaint: bool, event: &PlatformEvent) -> (response:
        ClientResponse)
        ensures
            response.request_redraw == repaint,
            response.exit == (*event is CloseRequested),
    {
        let exit = match *event {
            PlatformEvent::CloseRequested => true,
            _ => false,
        };
        ClientResponse { request_redraw: repaint, exit }
    }

    /// Gives up the viewer and returns the steps of its teardown. They must
    /// be taken while the rendering context still exists.
    pub fn shutdown(self) -> (steps: Vec<ClientTeardown>)
        ensures
            steps@ == teardown_steps(self.scene_display@),
    {
        let ghost display = self.scene_display@;
        let shutdown = self.scene_display.shutdown();
        let mut steps: Vec<ClientTeardown> = Vec::new();
        steps.push(ClientTeardown::FreeTexture { texture_id: shutdown.texture_id });
        steps.push(ClientTeardown::DestroyPainter);
        let mut i: usize = 0;
        while i < shutdown.commands.len()
            invariant
                i <= shutdown.commands@.len(),
                shutdown.commands@ == display.target.buffer_release_commands(),
                steps@.len() == 2 + i,
                steps@[0] == (ClientTeardown::FreeTexture { texture_id: display.texture_id }),
                steps@[1] == ClientTeardown::DestroyPainter,
                forall|k: int|
                    0 <= k < i ==> steps@[2 + k] == (ClientTeardown::Gl {
                        command: shutdown.commands@[k],
                    }),
            decreases shutdown.commands@.len() - i,
        {
            steps.push(ClientTeardown::Gl { command: shutdown.commands[i] });
            i = i + 1;
        }
        assert(steps@ =~= teardown_steps(display));
        steps
    }
}

} // verus!
