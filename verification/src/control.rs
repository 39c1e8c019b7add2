//! The decisions of the event loop: what to do for each event of the
//! windowing system and for each outcome of drawing a frame. The caller
//! performs the command and reports the next event.

use vstd::prelude::*;
use crate::app_state::{AppState, Size, WindowInput, resized};

verus! {

/// An event of the windowing system, with window ids as numbers.
#[derive(Clone, Copy, Debug, PartialEq, Eq, Structural)]
pub enum LoopEvent {
    Window { window_id: u64, input: WindowInput },
    RedrawRequested { window_id: u64 },
    MainEventsCleared,
    Other,
}

/// How drawing a frame ended.
#[derive(Clone, Copy, Debug, PartialEq, Eq, Structural)]
pub enum RenderOutcome {
    /// The frame was presented.
    Presented,
    /// The surface was lost and must be configured again.
    SurfaceLost,
    /// The GPU ran out of memory.
    OutOfMemory,
    /// Any other surface error (timeout, outdated surface).
    Failed,
}

/// What the caller does next.
#[derive(Clone, Copy, Debug, PartialEq, Eq, Structural)]
pub enum Command {
    Nothing,
    /// Stop the event loop.
    Exit,
    /// Configure the surface and recreate the depth texture at this size.
    Reconfigure(Size),
    /// Recompute the uniforms for the current time and draw a frame.
    UpdateAndRender,
    /// Ask the window for a redraw.
    RequestRedraw,
    /// Report the surface error and go on.
    ReportError,
}

/// The state and command after `event`, for the window `window_id`.
pub open spec fn event_step(window_id: u64, app: AppState, event: LoopEvent) -> (AppState, Command) {
    match event {
        LoopEvent::Window { window_id: w, input } => {
            if w != window_id {
                (app, Command::Nothing)
            } else {
                match input {
                    WindowInput::CloseRequested => (app, Command::Exit),
                    WindowInput::Resized(s) => (resized(app, s), Command::Reconfigure(s)),
                    WindowInput::ScaleFactorChanged(s) => (resized(app, s), Command::Reconfigure(s)),
                    WindowInput::Other => (app, Command::Nothing),
                }
            }
        },
        LoopEvent::RedrawRequested { window_id: w } => {
            if w == window_id {
                (app, Command::UpdateAndRender)
            } else {
                (app, Command::Nothing)
            }
        },
        LoopEvent::MainEventsCleared => (app, Command::RequestRedraw),
        LoopEvent::Other => (app, Command::Nothing),
    }
}

/// The state and command after a frame ended with `outcome`.
pub open spec fn render_step(app: AppState, outcome: RenderOutcome) -> (AppState, Command) {
    match outcome {
        RenderOutcome::Presented => (app, Command::Nothing),
        RenderOutcome::SurfaceLost => (resized(app, app.size), Command::Reconfigure(app.size)),
        RenderOutcome::OutOfMemory => (app, Command::Exit),
        RenderOutcome::Failed => (app, Command::ReportError),
    }
}

/// The event loop's state: the id of its window and the renderer's state.
pub struct Session {
    pub window_id: u64,
    pub app: AppState,
}

impl Session {
    pub fn new(window_id: u64, app: AppState) -> (session: Session)
        ensures
            session.window_id == window_id,
            session.app == app,
    {
        Session { window_id, app }
    }

    /// Acts on one event of the windowing system.
    pub fn on_event(&mut self, event: LoopEvent) -> (command: Command)
        ensures
            final(self).window_id == old(self).window_id,
            (final(self).app, command) == event_step(old(self).window_id, old(self).app, event),
    {
        match event {
            LoopEvent::Window { window_id, input } => {
                if window_id == self.window_id {
                    if !self.app.handle_input(&input) {
                        match input {
                            WindowInput::CloseRequested => Command::Exit,
                            WindowInput::Resized(size) => {
                                self.app.resize(size);
                                Command::Reconfigure(size)
                            },
                            WindowInput::ScaleFactorChanged(size) => {
                                self.app.resize(size);
                                Command::Reconfigure(size)
                            },
                            WindowInput::Other => Command::Nothing,
                        }
                    } else {
                        Command::Nothing
                    }
                } else {
                    Command::Nothing
                }
            },
            LoopEvent::RedrawRequested { window_id } => {
                if window_id == self.window_id {
                    Command::UpdateAndRender
                } else {
                    Command::Nothing
                }
            },
            LoopEvent::MainEventsCleared => Command::RequestRedraw,
            LoopEvent::Other => Command::Nothing,
        }
    }

    /// Acts on how drawing a frame ended.
    pub fn on_render_outcome(&mut self, outcome: RenderOutcome) -> (command: Command)
        ensures
            final(self).window_id == old(self).window_id,
            (final(self).app, command) == render_step(old(self).app, outcome),
    {
        match outcome {
            RenderOutcome::Presented => Command::Nothing,
            RenderOutcome::SurfaceLost => {
                let size = self.app.size;
                self.app.resize(size);
                Command::Reconfigure(size)
            },
            RenderOutcome::OutOfMemory => Command::Exit,
            RenderOutcome::Failed => Command::ReportError,
        }
    }
}

/// Law: events about other windows change nothing and are not acted on.
pub proof fn lemma_other_windows_ignored(window_id: u64, app: AppState, event: LoopEvent)
    requires
        match event {
            LoopEvent::Window { window_id: w, .. } => w != window_id,
            LoopEvent::RedrawRequested { window_id: w } => w != window_id,
            _ => false,
        },
    ensures
        event_step(window_id, app, event) == (app, Command::Nothing),
{
}

/// Law: only a resize changes the state, and then only its size, to the
/// size the command reconfigures the surface with.
pub proof fn lemma_only_size_changes(window_id: u64, app: AppState, event: LoopEvent)
    ensures
        event_step(window_id, app, event).0.num_indices == app.num_indices,
        event_step(window_id, app, event).0 != app ==> event_step(window_id, app, event).1
            == Command::Reconfigure(event_step(window_id, app, event).0.size),
        event_step(window_id, app, event).1 matches Command::Reconfigure(s) ==> event_step(
            window_id,
            app,
            event,
        ).0.size == s,
{
}

/// Law: a lost surface is configured again at the current size, and the
/// state stays as it was.
pub proof fn lemma_lost_surface_recovers(app: AppState)
    ensures
        render_step(app, RenderOutcome::SurfaceLost) == (app, Command::Reconfigure(app.size)),
{
}

/// Law: the loop keeps drawing: when the pending events are handled it asks
/// for a redraw, and a redraw of its window updates and draws a frame.
pub proof fn lemma_redraw_cycle(window_id: u64, app: AppState)
    ensures
        event_step(window_id, app, LoopEvent::MainEventsCleared) == (app, Command::RequestRedraw),
        event_step(window_id, app, LoopEvent::RedrawRequested { window_id }) == (
            app,
            Command::UpdateAndRender,
        ),
{
}

/// Law: closing the window, or running out of GPU memory, stops the loop.
pub proof fn lemma_exit_conditions(window_id: u64, app: AppState)
    ensures
        event_step(
            window_id,
            app,
            LoopEvent::Window { window_id, input: WindowInput::CloseRequested },
        ).1 == Command::Exit,
        render_step(app, RenderOutcome::OutOfMemory).1 == Command::Exit,
{
}

/// Law: a resize of the loop's own window, or a change of its scale
/// factor, from any state, makes the new size the state's size, keeps the
/// index count, and reconfigures the surface at the new size.
pub proof fn lemma_resize_reconfigures(window_id: u64, app: AppState, s: Size)
    ensures
        event_step(window_id, app, LoopEvent::Window { window_id, input: WindowInput::Resized(s) })
            == (AppState { size: s, num_indices: app.num_indices }, Command::Reconfigure(s)),
        event_step(
            window_id,
            app,
            LoopEvent::Window { window_id, input: WindowInput::ScaleFactorChanged(s) },
        ) == (AppState { size: s, num_indices: app.num_indices }, Command::Reconfigure(s)),
{
}

/// Law: any other input on the loop's own window changes nothing and is
/// not acted on.
pub proof fn lemma_other_input_ignored(window_id: u64, app: AppState)
    ensures
        event_step(window_id, app, LoopEvent::Window { window_id, input: WindowInput::Other })
            == (app, Command::Nothing),
        event_step(window_id, app, LoopEvent::Other) == (app, Command::Nothing),
{
}

/// Law: among the events of the windowing system, closing the loop's own
/// window, and nothing else, stops the loop.
pub proof fn lemma_exit_only_on_close(window_id: u64, app: AppState, event: LoopEvent)
    ensures
        (event_step(window_id, app, event).1 == Command::Exit) <==> (event == LoopEvent::Window {
            window_id,
            input: WindowInput::CloseRequested,
        }),
{
}

/// Law: after a frame, running out of GPU memory, and nothing else, stops
/// the loop; a frame's outcome never changes the state; a presented frame
/// needs nothing more, and any other surface error is reported and the
/// loop goes on.
pub proof fn lemma_render_outcomes(app: AppState, outcome: RenderOutcome)
    ensures
        (render_step(app, outcome).1 == Command::Exit) <==> (outcome == RenderOutcome::OutOfMemory),
        render_step(app, outcome).0 == app,
        render_step(app, RenderOutcome::Presented).1 == Command::Nothing,
        render_step(app, RenderOutcome::Failed).1 == Command::ReportError,
        render_step(app, RenderOutcome::SurfaceLost).1 == Command::Reconfigure(app.size),
{
}

} // verus!
