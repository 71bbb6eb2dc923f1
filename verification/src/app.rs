//! The application: what to do about each event of the window.
//!
//! The window and its event loop belong to the host. The host hands every
//! event over, carries out the action it gets back, and, where the action is
//! to draw, acquires the next image of the surface and asks for the frame.

use vstd::prelude::*;
use crate::command::{commands_view, frame_commands, GpuCommand, Upload};
use crate::device::leaves_no_buffer;
use crate::error::{RenderError, SurfaceError};
use crate::render::{Negotiation, RenderInstance, PIPELINE_NAME};
use crate::renderer::{are_uploads_of, can_draw, RenderSystem};
use crate::surface::{PhysicalSize, SurfaceConfiguration};

verus! {

/// What happened to a window.
#[derive(Clone, Copy, Debug, PartialEq, Eq, Structural)]
pub enum WindowEvent {
    CloseRequested,
    Resized(PhysicalSize),
    ScaleFactorChanged,
    KeyboardInput,
    RedrawRequested,
    Other,
}

/// What the event loop delivers.
#[derive(Clone, Copy, Debug, PartialEq, Eq, Structural)]
pub enum Event {
    /// Something happened to the window `window_id`.
    WindowEvent { window_id: u64, event: WindowEvent },
    /// Anything else.
    Other,
}

/// What the host is to do after an event.
#[derive(Debug, PartialEq, Eq)]
pub enum LoopAction {
    /// Leave the event loop.
    Exit,
    /// Apply this configuration to the surface.
    Configure(SurfaceConfiguration),
    /// Acquire the next image of the surface and draw a frame.
    Redraw,
    /// Nothing.
    Nothing,
}

/// The renderer of one window.
#[derive(Debug)]
pub struct Application {
    render_instance: RenderInstance,
    render_system: RenderSystem,
    window: u64,
}

impl Application {
    /// The context of the renderer.
    pub closed spec fn spec_instance(&self) -> &RenderInstance {
        &self.render_instance
    }

    /// The window the application draws into.
    pub closed spec fn spec_window(&self) -> u64 {
        self.window
    }

    /// The context of the renderer is well formed.
    pub open spec fn wf(&self) -> bool {
        self.spec_instance().wf()
    }

    /// What the application is to do about `event`: leave the loop when its
    /// window is to close, take the new size when its window was resized,
    /// draw when its window is to be redrawn, and nothing otherwise.
    pub open spec fn reacts(&self, before: &Application, event: Event, action: LoopAction) -> bool {
        &&& self.spec_window() == before.spec_window()
        &&& match event {
            Event::WindowEvent { window_id, event: WindowEvent::CloseRequested } if window_id
                == before.spec_window() => {
                &&& action == LoopAction::Exit
                &&& self.spec_instance() == before.spec_instance()
            },
            Event::WindowEvent { window_id, event: WindowEvent::Resized(size) } if window_id
                == before.spec_window() => {
                &&& *self.spec_instance() == before.spec_instance().resized(size)
                &&& self.spec_instance().is_resized_from(before.spec_instance(), size)
                &&& if size.spec_is_empty() {
                    action == LoopAction::Nothing
                } else {
                    action matches LoopAction::Configure(config) && config@
                        == self.spec_instance().spec_config()
                }
            },
            Event::WindowEvent { window_id, event: WindowEvent::RedrawRequested } if window_id
                == before.spec_window() => {
                &&& action == LoopAction::Redraw
                &&& self.spec_instance() == before.spec_instance()
            },
            _ => {
                &&& action == LoopAction::Nothing
                &&& self.spec_instance() == before.spec_instance()
            },
        }
    }

    /// Makes the application for the window `window` of `size` from the
    /// outcome of the negotiation with the GPU: the error of the step that
    /// failed, or the application with the context that such a window
    /// starts with.
    pub fn new(window: u64, size: PhysicalSize, negotiation: Negotiation) -> (made: Result<
        Application,
        RenderError,
    >)
        requires
            negotiation matches Negotiation::Ready(caps) ==> caps.spec_is_usable(),
        ensures
            match negotiation {
                Negotiation::SurfaceFailed => made matches Err(RenderError::SurfaceCreationFailed),
                Negotiation::NoAdapter => made matches Err(e) && e.is_adapter_unavailable(
                    "Could not create an adapter"@,
                ),
                Negotiation::DeviceFailed => made matches Err(RenderError::DeviceRequestFailed),
                Negotiation::ShaderFailed => made matches Err(RenderError::ShaderCompileFailed),
                Negotiation::Ready(caps) => {
                    &&& made matches Ok(app)
                    &&& app.wf()
                    &&& app.spec_window() == window
                    &&& app.spec_instance().starts_with(size, &caps)
                },
            },
    {
        let render_instance = match RenderInstance::new(size, negotiation) {
            Ok(render_instance) => render_instance,
            Err(e) => {
                return Err(e);
            },
        };
        let render_system = match RenderSystem::new(&render_instance) {
            Ok(render_system) => render_system,
            Err(e) => {
                return Err(e);
            },
        };
        Ok(Application { render_instance, render_system, window })
    }

    /// Decides what to do about one event of the event loop.
    pub fn on_loop(&mut self, event: Event) -> (action: LoopAction)
        ensures
            final(self).reacts(old(self), event, action),
            old(self).wf() ==> final(self).wf(),
    {
        match event {
            Event::WindowEvent { window_id, event } => {
                if window_id == self.window {
                    match event {
                        WindowEvent::CloseRequested => LoopAction::Exit,
                        WindowEvent::Resized(size) => {
                            match self.render_instance.resize(size) {
                                Some(config) => LoopAction::Configure(config),
                                None => LoopAction::Nothing,
                            }
                        },
                        WindowEvent::ScaleFactorChanged => LoopAction::Nothing,
                        WindowEvent::KeyboardInput => LoopAction::Nothing,
                        WindowEvent::RedrawRequested => LoopAction::Redraw,
                        WindowEvent::Other => LoopAction::Nothing,
                    }
                } else {
                    LoopAction::Nothing
                }
            },
            Event::Other => LoopAction::Nothing,
        }
    }

    /// Decides the frame that a redraw asked for, once the host has tried
    /// to acquire the next image of the surface: the commands of the frame,
    /// or the error for which the frame is skipped. The application does not
    /// change.
    pub fn redraw(&mut self, acquired: Result<(), SurfaceError>) -> (rendered: Result<
        Vec<GpuCommand>,
        RenderError,
    >)
        requires
            old(self).wf(),
        ensures
            *final(self) == *old(self),
            rendered is Ok <==> acquired is Ok && can_draw(old(self).spec_instance()),
            rendered matches Ok(commands) ==> exists|uploads: Seq<Upload>|
                {
                    &&& are_uploads_of(
                        uploads,
                        old(self).spec_instance().spec_objects(),
                        old(self).spec_instance().spec_cache(),
                    )
                    &&& commands_view(commands@) == #[trigger] frame_commands(
                        uploads,
                        PIPELINE_NAME@,
                    )
                },
            rendered matches Ok(commands) ==> leaves_no_buffer(commands_view(commands@)),
            rendered matches Err(e) ==> match acquired {
                Err(cause) => e matches RenderError::SurfaceAcquireFailed(c) && c == cause,
                Ok(_) => e.is_pipeline_lookup_failed("Unable to set Render Pipeline!"@),
            },
    {
        self.render_instance.render(&mut self.render_system, acquired)
    }

    /// The context of the renderer.
    pub fn render_instance(&self) -> (instance: &RenderInstance)
        ensures
            instance == self.spec_instance(),
    {
        &self.render_instance
    }

    /// The window the application draws into.
    #[verifier::when_used_as_spec(spec_window)]
    pub fn window(&self) -> (window: u64)
        ensures
            window == self.spec_window(),
    {
        self.window
    }
}

} // verus!
