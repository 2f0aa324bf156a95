//! The application shell: what to do about each thing that the platform
//! reports, from the first resume to the exit.

use vstd::prelude::*;
use crate::color::ClearColor;
use crate::event::{classify, recovery_for, Key, Recovery, SurfaceFault, WindowEvent};
use crate::geometry::Size;
use crate::state::{ContextError, State, StateView};
use crate::surface::{SurfaceCaps, SurfaceConfig};

verus! {

/// Why the event loop is asked to stop.
#[derive(Clone, Copy, Debug, PartialEq, Eq, Structural)]
pub enum ExitCause {
    /// The user closed the window or pressed escape.
    Requested,
    /// The render context could not be built.
    ContextFailed(ContextError),
    /// Presenting a frame failed beyond recovery.
    SurfaceFailed(SurfaceFault),
}

/// What the caller is to do after it reported something to the shell.
#[derive(Clone, Copy, Debug, PartialEq, Eq)]
pub enum Action {
    /// Nothing.
    Nothing,
    /// Create the window, then report its extent with `window_created`.
    CreateWindow,
    /// Acquire the surface, the adapter, the device and the queue, then
    /// report what the adapter supports with `context_acquired`.
    AcquireContext,
    /// Configure the surface with this configuration.
    Configure(SurfaceConfig),
    /// Ask the window for its next redraw, clear one frame to this colour,
    /// present it, and report how that went with `rendered`.
    Render(ClearColor),
    /// Warn that a frame was skipped.
    SkipFrame,
    /// Stop the event loop.
    Exit(ExitCause),
}

/// A stage of the shell without what it holds.
#[derive(Clone, Copy, Debug, PartialEq, Eq, Structural)]
pub enum Phase {
    Uninitialized,
    Opening,
    AwaitingContext,
    Failed,
    Ready,
}

/// How far the shell has come in bringing up its window and context.
pub enum StageView {
    /// Nothing exists yet.
    Uninitialized,
    /// The window was asked for and has not been reported yet.
    Opening,
    /// The window, of this extent, exists; the render context is being
    /// acquired.
    AwaitingContext(Size),
    /// The window exists, and the attempt to build a render context for it
    /// has failed.
    Failed,
    /// The window and its render context exist.
    Ready(StateView),
}

impl StageView {
    /// A window awaiting its context is never empty, and a context that
    /// exists is well formed.
    pub open spec fn well_formed(self) -> bool {
        match self {
            StageView::AwaitingContext(size) => !size.is_empty_spec(),
            StageView::Ready(state) => state.well_formed(),
            _ => true,
        }
    }

    /// The stage without what it holds.
    pub open spec fn phase(self) -> Phase {
        match self {
            StageView::Uninitialized => Phase::Uninitialized,
            StageView::Opening => Phase::Opening,
            StageView::AwaitingContext(_) => Phase::AwaitingContext,
            StageView::Failed => Phase::Failed,
            StageView::Ready(_) => Phase::Ready,
        }
    }

    /// The action that reporting the extent `new_size` to a context calls
    /// for: configuring the surface when the resize takes effect.
    pub open spec fn resize_action(state: StateView, new_size: Size) -> Action {
        if state.resize_applies(new_size) {
            Action::Configure(state.resize(new_size).surface_config)
        } else {
            Action::Nothing
        }
    }

    /// The platform resumed the application. The first resume asks for the
    /// window; a later one changes nothing.
    pub open spec fn resumed(self) -> (StageView, Action) {
        match self {
            StageView::Uninitialized => (StageView::Opening, Action::CreateWindow),
            _ => (self, Action::Nothing),
        }
    }

    /// The window was created with the extent `size`. For an empty window the
    /// context fails before anything is acquired, and the event loop is asked
    /// to stop; for any other window the context is to be acquired.
    pub open spec fn window_created(self, size: Size) -> (StageView, Action) {
        match self {
            StageView::Opening => if size.is_empty_spec() {
                (StageView::Failed, Action::Exit(ExitCause::ContextFailed(ContextError::ZeroSize)))
            } else {
                (StageView::AwaitingContext(size), Action::AcquireContext)
            },
            _ => (self, Action::Nothing),
        }
    }

    /// The device was acquired on an adapter that supports `caps`: the
    /// context is built for the window, the surface is to be configured with
    /// the context's configuration, and the shell is ready.
    pub open spec fn context_acquired(self, caps: SurfaceCaps) -> (StageView, Action) {
        match self {
            StageView::AwaitingContext(size) => (
                StageView::Ready(StateView::initial(size, caps)),
                Action::Configure(SurfaceConfig::for_window_spec(size, caps)),
            ),
            _ => (self, Action::Nothing),
        }
    }

    /// The window reported `event`. A ready shell offers the event to its
    /// context first and acts only on what the context leaves to it. Without
    /// a context only a close request is honoured.
    pub open spec fn window_event(self, event: WindowEvent) -> (StageView, Action) {
        match self {
            StageView::Ready(state) => if StateView::handles(event) {
                (StageView::Ready(state.input(event)), Action::Nothing)
            } else if event.asks_to_quit() {
                (self, Action::Exit(ExitCause::Requested))
            } else {
                match event {
                    WindowEvent::Resized(size) => (
                        StageView::Ready(state.resize(size)),
                        Self::resize_action(state, size),
                    ),
                    WindowEvent::RedrawRequested => (self, Action::Render(state.clear_color)),
                    _ => (self, Action::Nothing),
                }
            },
            _ => if event is CloseRequested {
                (self, Action::Exit(ExitCause::Requested))
            } else {
                (self, Action::Nothing)
            },
        }
    }

    /// Presenting a frame ended with `outcome`. A presented frame calls for
    /// nothing. A lost or outdated surface is configured again, with the
    /// context's configuration as it stands. A timeout skips the frame. Any
    /// other fault stops the event loop. The context stays as it is.
    pub open spec fn rendered(self, outcome: Result<(), SurfaceFault>) -> (StageView, Action) {
        match self {
            StageView::Ready(state) => match recovery_for(outcome) {
                Recovery::Proceed => (self, Action::Nothing),
                Recovery::Reconfigure => (self, Action::Configure(state.surface_config)),
                Recovery::SkipFrame => (self, Action::SkipFrame),
                Recovery::Fatal => (self, Action::Exit(ExitCause::SurfaceFailed(outcome->Err_0))),
            },
            _ => (self, Action::Nothing),
        }
    }
}

/// What the shell holds: the stage it is in, and whether the event loop has
/// announced its shutdown.
pub struct AppView {
    pub stage: StageView,
    pub exiting: bool,
}

impl AppView {
    /// A shell for which nothing exists yet.
    pub open spec fn initial() -> AppView {
        AppView { stage: StageView::Uninitialized, exiting: false }
    }

    pub open spec fn well_formed(self) -> bool {
        self.stage.well_formed()
    }

    /// The shell in another stage.
    pub open spec fn at(self, step: (StageView, Action)) -> (AppView, Action) {
        (AppView { stage: step.0, exiting: self.exiting }, step.1)
    }

    pub open spec fn resumed(self) -> (AppView, Action) {
        self.at(self.stage.resumed())
    }

    pub open spec fn window_created(self, size: Size) -> (AppView, Action) {
        self.at(self.stage.window_created(size))
    }

    pub open spec fn context_acquired(self, caps: SurfaceCaps) -> (AppView, Action) {
        self.at(self.stage.context_acquired(caps))
    }

    pub open spec fn window_event(self, event: WindowEvent) -> (AppView, Action) {
        self.at(self.stage.window_event(event))
    }

    pub open spec fn rendered(self, outcome: Result<(), SurfaceFault>) -> (AppView, Action) {
        self.at(self.stage.rendered(outcome))
    }

    /// The event loop is shutting down. The shell takes note and keeps its
    /// stage, and with it the context if there is one.
    pub open spec fn exiting(self) -> AppView {
        AppView { stage: self.stage, exiting: true }
    }
}

#[derive(Clone, Copy, Debug, PartialEq, Eq)]
enum Stage {
    Uninitialized,
    Opening,
    AwaitingContext(Size),
    Failed,
    Ready(State),
}

/// The application shell. It starts uninitialized, becomes ready once the
/// window and its render context exist, and is told when the event loop
/// shuts down.
#[derive(Clone, Copy, Debug, PartialEq, Eq)]
pub struct App {
    stage: Stage,
    exiting: bool,
}

impl View for App {
    type V = AppView;

    closed spec fn view(&self) -> AppView {
        AppView {
            stage: match self.stage {
                Stage::Uninitialized => StageView::Uninitialized,
                Stage::Opening => StageView::Opening,
                Stage::AwaitingContext(size) => StageView::AwaitingContext(size),
                Stage::Failed => StageView::Failed,
                Stage::Ready(state) => StageView::Ready(state@),
            },
            exiting: self.exiting,
        }
    }
}

impl Default for App {
    /// A shell for which nothing exists yet.
    fn default() -> (app: App)
        ensures
            app@ == AppView::initial(),
    {
        App { stage: Stage::Uninitialized, exiting: false }
    }
}

impl App {
    #[verifier::type_invariant]
    spec fn inv(self) -> bool {
        self.stage matches Stage::AwaitingContext(size) ==> !size.is_empty_spec()
    }

    /// The stage that the shell is in.
    pub fn phase(&self) -> (phase: Phase)
        ensures
            phase == self@.stage.phase(),
            self@.well_formed(),
    {
        proof {
            use_type_invariant(self);
        }
        match self.stage {
            Stage::Uninitialized => Phase::Uninitialized,
            Stage::Opening => Phase::Opening,
            Stage::AwaitingContext(_) => Phase::AwaitingContext,
            Stage::Failed => Phase::Failed,
            Stage::Ready(state) => {
                proof {
                    use_type_invariant(&state);
                }
                Phase::Ready
            },
        }
    }

    /// Whether the event loop has announced its shutdown.
    pub fn is_exiting(&self) -> (exiting: bool)
        ensures
            exiting == self@.exiting,
    {
        self.exiting
    }

    /// The render context, once the shell is ready.
    pub fn state(&self) -> (state: Option<State>)
        ensures
            match self@.stage {
                StageView::Ready(view) => state is Some && state->0@ == view,
                _ => state is None,
            },
    {
        match self.stage {
            Stage::Ready(state) => Some(state),
            _ => None,
        }
    }

    /// The platform resumed the application.
    pub fn resumed(&mut self) -> (action: Action)
        ensures
            (final(self)@, action) == old(self)@.resumed(),
    {
        match self.stage {
            Stage::Uninitialized => {
                *self = App { stage: Stage::Opening, exiting: self.exiting };
                Action::CreateWindow
            },
            _ => Action::Nothing,
        }
    }

    /// The window was created with the extent `size`.
    pub fn window_created(&mut self, size: Size) -> (action: Action)
        ensures
            (final(self)@, action) == old(self)@.window_created(size),
    {
        match self.stage {
            Stage::Opening => {
                if size.is_empty() {
                    *self = App { stage: Stage::Failed, exiting: self.exiting };
                    Action::Exit(ExitCause::ContextFailed(ContextError::ZeroSize))
                } else {
                    *self = App { stage: Stage::AwaitingContext(size), exiting: self.exiting };
                    Action::AcquireContext
                }
            },
            _ => Action::Nothing,
        }
    }

    /// The surface, the adapter, the device and the queue were acquired, and
    /// the adapter supports `caps` for the surface.
    pub fn context_acquired(&mut self, caps: &SurfaceCaps) -> (action: Action)
        requires
            old(self)@.stage is AwaitingContext ==> caps.usable(),
        ensures
            (final(self)@, action) == old(self)@.context_acquired(*caps),
    {
        proof {
            use_type_invariant(&*self);
        }
        match self.stage {
            Stage::AwaitingContext(size) => {
                match State::new(size, caps) {
                    Ok(state) => {
                        *self = App { stage: Stage::Ready(state), exiting: self.exiting };
                        Action::Configure(state.surface_config())
                    },
                    Err(_) => Action::Nothing,
                }
            },
            _ => Action::Nothing,
        }
    }

    /// The window reported `event`.
    pub fn window_event(&mut self, event: WindowEvent) -> (action: Action)
        ensures
            (final(self)@, action) == old(self)@.window_event(event),
    {
        match self.stage {
            Stage::Ready(state) => {
                let mut state = state;
                if state.input(&event) {
                    *self = App { stage: Stage::Ready(state), exiting: self.exiting };
                    return Action::Nothing;
                }
                match event {
                    WindowEvent::CloseRequested => Action::Exit(ExitCause::Requested),
                    WindowEvent::KeyboardInput { pressed: true, key: Key::Escape } => Action::Exit(
                        ExitCause::Requested,
                    ),
                    WindowEvent::Resized(size) => {
                        let action = if state.resize(size) {
                            Action::Configure(state.surface_config())
                        } else {
                            Action::Nothing
                        };
                        *self = App { stage: Stage::Ready(state), exiting: self.exiting };
                        action
                    },
                    WindowEvent::RedrawRequested => {
                        state.update();
                        Action::Render(state.clear_color())
                    },
                    _ => Action::Nothing,
                }
            },
            _ => {
                match event {
                    WindowEvent::CloseRequested => Action::Exit(ExitCause::Requested),
                    _ => Action::Nothing,
                }
            },
        }
    }

    /// Presenting the frame that a `Render` action asked for ended with
    /// `outcome`.
    pub fn rendered(&mut self, outcome: Result<(), SurfaceFault>) -> (action: Action)
        ensures
            (final(self)@, action) == old(self)@.rendered(outcome),
    {
        match self.stage {
            Stage::Ready(state) => {
                match classify(outcome) {
                    Recovery::Proceed => Action::Nothing,
                    Recovery::Reconfigure => Action::Configure(state.surface_config()),
                    Recovery::SkipFrame => Action::SkipFrame,
                    Recovery::Fatal => match outcome {
                        Err(fault) => Action::Exit(ExitCause::SurfaceFailed(fault)),
                        Ok(_) => Action::Nothing,
                    },
                }
            },
            _ => Action::Nothing,
        }
    }

    /// The event loop is shutting down.
    pub fn exiting(&mut self)
        ensures
            final(self)@ == old(self)@.exiting(),
    {
        proof {
            use_type_invariant(&*self);
        }
        *self = App { stage: self.stage, exiting: true };
    }
}

} // verus!
