//! The render context: the surface's configuration, the window's extent and
//! the colour to clear to.

use vstd::prelude::*;
use crate::color::ClearColor;
use crate::event::WindowEvent;
use crate::geometry::Size;
use crate::surface::{is_preferred_index, preferred_index, SurfaceCaps, SurfaceConfig};

verus! {

/// Why a render context could not be built.
#[derive(Clone, Copy, Debug, PartialEq, Eq, Structural)]
pub enum ContextError {
    /// The window covers no pixel, so no surface can be configured for it.
    ZeroSize,
}

/// What a render context holds.
pub struct StateView {
    /// The configuration that the surface has, or is to be given next.
    pub surface_config: SurfaceConfig,
    /// The window's current extent.
    pub size: Size,
    /// The colour that the next frame is cleared to.
    pub clear_color: ClearColor,
}

impl StateView {
    /// The extent is never empty, the surface is configured to exactly that
    /// extent, and the clear colour has positive divisors.
    pub open spec fn well_formed(self) -> bool {
        &&& !self.size.is_empty_spec()
        &&& self.surface_config.size() == self.size
        &&& self.clear_color.well_formed()
    }

    /// The context right after construction: configured for the window, and
    /// clearing to black.
    pub open spec fn initial(size: Size, caps: SurfaceCaps) -> StateView {
        StateView {
            surface_config: SurfaceConfig::for_window_spec(size, caps),
            size,
            clear_color: ClearColor::Black,
        }
    }

    /// A resize takes effect when the new extent is not empty and differs
    /// from the current one.
    pub open spec fn resize_applies(self, new_size: Size) -> bool {
        !new_size.is_empty_spec() && new_size != self.size
    }

    /// The context after the window reported the extent `new_size`.
    pub open spec fn resize(self, new_size: Size) -> StateView {
        if self.resize_applies(new_size) {
            StateView {
                surface_config: self.surface_config.resized(new_size),
                size: new_size,
                clear_color: self.clear_color,
            }
        } else {
            self
        }
    }

    /// Only a cursor movement is an input to the context.
    pub open spec fn handles(event: WindowEvent) -> bool {
        event is CursorMoved
    }

    /// The context after it was offered `event`.
    pub open spec fn input(self, event: WindowEvent) -> StateView {
        match event {
            WindowEvent::CursorMoved { x, y } => StateView {
                clear_color: ClearColor::at_cursor(x, y, self.size),
                ..self
            },
            _ => self,
        }
    }
}

/// The render context of one window.
#[derive(Clone, Copy, Debug, PartialEq, Eq)]
pub struct State {
    surface_config: SurfaceConfig,
    size: Size,
    clear_color: ClearColor,
}

impl View for State {
    type V = StateView;

    closed spec fn view(&self) -> StateView {
        StateView {
            surface_config: self.surface_config,
            size: self.size,
            clear_color: self.clear_color,
        }
    }
}

impl State {
    #[verifier::type_invariant]
    pub(crate) open spec fn inv(self) -> bool {
        self@.well_formed()
    }

    /// Builds the context for a window of extent `size` on an adapter that
    /// supports `caps`. An empty window is refused, whatever the adapter
    /// supports; any other window gets a context that clears to black.
    pub fn new(size: Size, caps: &SurfaceCaps) -> (result: Result<State, ContextError>)
        requires
            !size.is_empty_spec() ==> caps.usable(),
        ensures
            size.is_empty_spec() ==> result == Err::<State, ContextError>(ContextError::ZeroSize),
            !size.is_empty_spec() ==> result is Ok && result->Ok_0@ == StateView::initial(
                size,
                *caps,
            ),
            result matches Ok(state) ==> state@.well_formed(),
            !size.is_empty_spec() ==> is_preferred_index(
                caps.formats@,
                preferred_index(caps.formats@),
            ),
    {
        if size.is_empty() {
            return Err(ContextError::ZeroSize);
        }
        Ok(
            State {
                surface_config: SurfaceConfig::for_window(size, caps),
                size,
                clear_color: ClearColor::Black,
            },
        )
    }

    /// Takes over a new window extent. An empty or unchanged extent changes
    /// nothing. Any other extent becomes the context's and its surface
    /// configuration's extent, and the answer `true` tells the caller to
    /// configure the surface, once, with that configuration.
    pub fn resize(&mut self, new_size: Size) -> (reconfigure: bool)
        ensures
            reconfigure == old(self)@.resize_applies(new_size),
            final(self)@ == old(self)@.resize(new_size),
            final(self)@.well_formed(),
    {
        proof {
            use_type_invariant(&*self);
        }
        if new_size.width > 0 && new_size.height > 0 && (self.size.width != new_size.width
            || self.size.height != new_size.height) {
            *self = State {
                surface_config: SurfaceConfig {
                    width: new_size.width,
                    height: new_size.height,
                    ..self.surface_config
                },
                size: new_size,
                clear_color: self.clear_color,
            };
            true
        } else {
            false
        }
    }

    /// Offers an event to the context. A cursor movement sets the clear
    /// colour from the cursor's position and the window's current extent and
    /// is answered `true`; every other event is left to the caller and
    /// answered `false`.
    pub fn input(&mut self, event: &WindowEvent) -> (handled: bool)
        ensures
            handled == StateView::handles(*event),
            final(self)@ == old(self)@.input(*event),
            final(self)@.well_formed(),
    {
        proof {
            use_type_invariant(&*self);
        }
        match event {
            WindowEvent::CursorMoved { x, y } => {
                *self = State {
                    surface_config: self.surface_config,
                    size: self.size,
                    clear_color: ClearColor::Cursor {
                        x: *x,
                        y: *y,
                        width: self.size.width,
                        height: self.size.height,
                    },
                };
                true
            },
            _ => false,
        }
    }

    /// Advances the context by one frame, which changes nothing.
    pub fn update(&mut self)
        ensures
            *final(self) == *old(self),
    {
    }

    /// The window's current extent, which is never empty.
    pub fn size(&self) -> (size: Size)
        ensures
            size == self@.size,
            self@.well_formed(),
    {
        proof {
            use_type_invariant(self);
        }
        self.size
    }

    /// The configuration that the surface has, or is to be given next. Its
    /// extent is the window's.
    pub fn surface_config(&self) -> (config: SurfaceConfig)
        ensures
            config == self@.surface_config,
            self@.well_formed(),
    {
        proof {
            use_type_invariant(self);
        }
        self.surface_config
    }

    /// The colour that the next frame is cleared to.
    pub fn clear_color(&self) -> (color: ClearColor)
        ensures
            color == self@.clear_color,
            self@.well_formed(),
    {
        proof {
            use_type_invariant(self);
        }
        self.clear_color
    }
}

} // verus!
