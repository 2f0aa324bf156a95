//! What holds of the render context and of the shell over every input and
//! over sequences of reports.

use vstd::prelude::*;
use crate::app::{Action, AppView, ExitCause, StageView};
use crate::color::ClearColor;
use crate::event::{recovery_for, Recovery, SurfaceFault, WindowEvent};
use crate::geometry::Size;
use crate::state::{ContextError, StateView};
use crate::surface::{is_preferred_index, preferred_index, SurfaceCaps, SurfaceConfig};

verus! {

/// A window that covers no pixel never gets a render context: whatever stage
/// the shell is in, reporting such a window neither asks for anything to be
/// acquired nor makes the shell ready, and a shell that was waiting for its
/// window fails with `ZeroSize` and asks the event loop to stop.
pub proof fn lemma_empty_window_acquires_nothing(stage: StageView, size: Size)
    requires
        size.is_empty_spec(),
    ensures
        stage.window_created(size).1 != Action::AcquireContext,
        stage.window_created(size).0 is AwaitingContext ==> stage is AwaitingContext,
        stage.window_created(size).0 is Ready ==> stage is Ready,
        stage is Opening ==> stage.window_created(size) == (
            StageView::Failed,
            Action::Exit(ExitCause::ContextFailed(ContextError::ZeroSize)),
        ),
{
}

/// Bringing up a window that covers at least one pixel configures its
/// surface exactly once: the first resume asks for the window, the window's
/// report asks for the context, and the context's report asks for the surface
/// to be configured, to the window's extent and in the preferred format, and
/// leaves the shell ready with a context that holds that configuration.
pub proof fn lemma_startup_configures_once(size: Size, caps: SurfaceCaps)
    requires
        !size.is_empty_spec(),
        caps.usable(),
    ensures
        ({
            let opening = AppView::initial().resumed();
            let awaiting = opening.0.window_created(size);
            let ready = awaiting.0.context_acquired(caps);
            &&& opening.1 == Action::CreateWindow
            &&& awaiting.1 == Action::AcquireContext
            &&& ready.1 == Action::Configure(SurfaceConfig::for_window_spec(size, caps))
            &&& ready.0.stage == StageView::Ready(StateView::initial(size, caps))
            &&& ready.0.well_formed()
            &&& !ready.0.exiting
        }),
        SurfaceConfig::for_window_spec(size, caps).size() == size,
        is_preferred_index(caps.formats@, preferred_index(caps.formats@)),
        StateView::initial(size, caps).surface_config == SurfaceConfig::for_window_spec(
            size,
            caps,
        ),
{
    crate::surface::lemma_preferred_index_exists(caps.formats@);
}

/// A resize to a non-empty extent other than the current one moves the
/// context and its surface configuration to that extent, keeps everything
/// else, and calls for the surface to be configured. Reporting the same
/// extent again changes nothing and calls for nothing, so the surface is
/// configured exactly once.
pub proof fn lemma_resize_configures_once(state: StateView, new_size: Size)
    requires
        state.well_formed(),
        !new_size.is_empty_spec(),
        new_size != state.size,
    ensures
        state.resize(new_size).size == new_size,
        state.resize(new_size).surface_config.size() == new_size,
        state.resize(new_size).surface_config == state.surface_config.resized(new_size),
        state.resize(new_size).clear_color == state.clear_color,
        state.resize(new_size).well_formed(),
        StageView::Ready(state).window_event(WindowEvent::Resized(new_size)) == (
            StageView::Ready(state.resize(new_size)),
            Action::Configure(state.resize(new_size).surface_config),
        ),
        state.resize(new_size).resize(new_size) == state.resize(new_size),
        StageView::Ready(state.resize(new_size)).window_event(WindowEvent::Resized(new_size)) == (
            StageView::Ready(state.resize(new_size)),
            Action::Nothing,
        ),
{
}

/// A resize to an empty extent, or to the extent that the context already
/// has, changes nothing and calls for nothing.
pub proof fn lemma_resize_ignored(state: StateView, new_size: Size)
    requires
        new_size.is_empty_spec() || new_size == state.size,
    ensures
        state.resize(new_size) == state,
        StageView::Ready(state).window_event(WindowEvent::Resized(new_size)) == (
            StageView::Ready(state),
            Action::Nothing,
        ),
{
}

/// After a cursor movement the clear colour has the cursor's position as its
/// dividends and the window's extent at that moment as its divisors, which
/// are positive. Nothing else in the context changes, and a later resize
/// leaves the colour as it is.
pub proof fn lemma_cursor_sets_clear_color(state: StateView, x: u64, y: u64, later: Size)
    requires
        state.well_formed(),
    ensures
        state.input(WindowEvent::CursorMoved { x, y }).clear_color == (ClearColor::Cursor {
            x,
            y,
            width: state.size.width,
            height: state.size.height,
        }),
        state.size.width > 0,
        state.size.height > 0,
        state.input(WindowEvent::CursorMoved { x, y }).size == state.size,
        state.input(WindowEvent::CursorMoved { x, y }).surface_config == state.surface_config,
        state.input(WindowEvent::CursorMoved { x, y }).well_formed(),
        state.input(WindowEvent::CursorMoved { x, y }).resize(later).clear_color == state.input(
            WindowEvent::CursorMoved { x, y },
        ).clear_color,
{
}

/// Every event but a cursor movement leaves the context as it is.
pub proof fn lemma_other_events_are_not_input(state: StateView, event: WindowEvent)
    requires
        !(event is CursorMoved),
    ensures
        !StateView::handles(event),
        state.input(event) == state,
{
}

/// Every outcome of presenting a frame falls in exactly one class, and each
/// class has one answer from a ready shell: a presented frame calls for
/// nothing, a lost or outdated surface for the surface to be configured once
/// more at the window's extent, a timeout for a skipped frame, a fatal fault
/// for the event loop to stop. The context is the same after every outcome.
pub proof fn lemma_render_outcomes(state: StateView, outcome: Result<(), SurfaceFault>)
    requires
        state.well_formed(),
    ensures
        recovery_for(outcome) == Recovery::Proceed <==> outcome is Ok,
        recovery_for(outcome) == Recovery::Reconfigure <==> outcome is Err && (outcome->Err_0
            == SurfaceFault::Lost || outcome->Err_0 == SurfaceFault::Outdated),
        recovery_for(outcome) == Recovery::SkipFrame <==> outcome is Err && outcome->Err_0
            == SurfaceFault::Timeout,
        recovery_for(outcome) == Recovery::Fatal <==> outcome is Err && (outcome->Err_0
            == SurfaceFault::OutOfMemory || outcome->Err_0 == SurfaceFault::Other),
        StageView::Ready(state).rendered(outcome).0 == StageView::Ready(state),
        StageView::Ready(state).rendered(outcome).1 == match recovery_for(outcome) {
            Recovery::Proceed => Action::Nothing,
            Recovery::Reconfigure => Action::Configure(state.surface_config),
            Recovery::SkipFrame => Action::SkipFrame,
            Recovery::Fatal => Action::Exit(ExitCause::SurfaceFailed(outcome->Err_0)),
        },
        state.surface_config.size() == state.size,
{
}

/// No report takes a well-formed shell to one that is not.
pub proof fn lemma_shell_stays_well_formed(
    app: AppView,
    size: Size,
    caps: SurfaceCaps,
    event: WindowEvent,
    outcome: Result<(), SurfaceFault>,
)
    requires
        app.well_formed(),
    ensures
        AppView::initial().well_formed(),
        app.resumed().0.well_formed(),
        app.window_created(size).0.well_formed(),
        app.context_acquired(caps).0.well_formed(),
        app.window_event(event).0.well_formed(),
        app.rendered(outcome).0.well_formed(),
        app.exiting().well_formed(),
{
}

/// Only a report that the context was acquired makes a shell ready that was
/// not, and until then a window event changes nothing: a close request asks
/// the event loop to stop, and every other event is ignored.
pub proof fn lemma_ready_only_after_acquisition(
    stage: StageView,
    size: Size,
    event: WindowEvent,
    outcome: Result<(), SurfaceFault>,
)
    requires
        !(stage is Ready),
    ensures
        !(stage.resumed().0 is Ready),
        !(stage.window_created(size).0 is Ready),
        !(stage.window_event(event).0 is Ready),
        !(stage.rendered(outcome).0 is Ready),
        stage.window_event(event).0 == stage,
        stage.window_event(event).1 == Action::Exit(ExitCause::Requested) <==> event
            is CloseRequested,
        stage.window_event(event).1 == Action::Nothing <==> !(event is CloseRequested),
{
}

/// The announcement that the event loop shuts down tears nothing down: the
/// shell keeps its stage, and with it its context, and answers every later
/// report as it would have answered it before. No report takes the
/// announcement back.
pub proof fn lemma_exiting_keeps_the_shell(
    app: AppView,
    size: Size,
    caps: SurfaceCaps,
    event: WindowEvent,
    outcome: Result<(), SurfaceFault>,
)
    ensures
        app.exiting().stage == app.stage,
        app.exiting().exiting,
        app.exiting().resumed() == app.exiting().at(app.stage.resumed()),
        app.exiting().resumed().1 == app.resumed().1,
        app.exiting().window_created(size).1 == app.window_created(size).1,
        app.exiting().context_acquired(caps).1 == app.context_acquired(caps).1,
        app.exiting().window_event(event).1 == app.window_event(event).1,
        app.exiting().rendered(outcome).1 == app.rendered(outcome).1,
        app.exiting().resumed().0.stage == app.resumed().0.stage,
        app.exiting().window_created(size).0.stage == app.window_created(size).0.stage,
        app.exiting().context_acquired(caps).0.stage == app.context_acquired(caps).0.stage,
        app.exiting().window_event(event).0.stage == app.window_event(event).0.stage,
        app.exiting().rendered(outcome).0.stage == app.rendered(outcome).0.stage,
        app.resumed().0.exiting == app.exiting,
        app.window_created(size).0.exiting == app.exiting,
        app.context_acquired(caps).0.exiting == app.exiting,
        app.window_event(event).0.exiting == app.exiting,
        app.rendered(outcome).0.exiting == app.exiting,
{
}

} // verus!
