//! Windowing adapter: the engine's view of the host window.
//!
//! The engine consumes a windowing contract with three members: an
//! on-demand geometry query, an animation-state notification, and a render
//! surface accessor. This module holds the geometry data and the two
//! members with verifiable content; the render surface is an opaque
//! resource owned by the process bootstrap and stays beside, not inside,
//! this state.

use vstd::prelude::*;

verus! {

/// Callbacks implemented by the embedding host and raised by the engine's
/// glue layer. The full embedder surface enumerates many notification
/// categories (load lifecycle, title changes, prompts, ...); this shell
/// acts only on the animation-state change, so only that member is
/// required. Implementors that need nothing may leave the body empty:
/// dropping the notification never blocks the engine.
pub trait HostTrait {
    /// The page's animation state changed. While `animating` is true the
    /// host should keep pumping the engine instead of blocking on input.
    /// Every transition is reported; the adapter does no filtering.
    fn on_animating_changed(&mut self, animating: bool);
}

/// An integer point in device pixels.
#[derive(Clone, Copy, Debug, PartialEq, Eq, Structural)]
pub struct PointI {
    pub x: i32,
    pub y: i32,
}

/// An integer size in device pixels.
#[derive(Clone, Copy, Debug, PartialEq, Eq, Structural)]
pub struct SizeI {
    pub width: i32,
    pub height: i32,
}

/// An integer rectangle given by origin and size.
#[derive(Clone, Copy, Debug, PartialEq, Eq, Structural)]
pub struct RectI {
    pub origin: PointI,
    pub size: SizeI,
}

/// An integer rectangle given by its two corners, as the geometry query
/// reports the viewport.
#[derive(Clone, Copy, Debug, PartialEq, Eq, Structural)]
pub struct BoxI {
    pub min: PointI,
    pub max: PointI,
}

/// The pixel-density scale factor as an exact ratio `numer / denom`.
#[derive(Clone, Copy, Debug, PartialEq, Eq, Structural)]
pub struct Scale {
    pub numer: u32,
    pub denom: u32,
}

/// The window geometry owned by the adapter: the visible viewport and the
/// separately sized framebuffer the engine renders into. Both sizes are at
/// least 1x1, and the viewport's far corner stays representable.
#[derive(Clone, Copy, Debug, PartialEq, Eq, Structural)]
pub struct Coordinates {
    pub viewport: RectI,
    pub framebuffer: SizeI,
}

impl Coordinates {
    /// Viewport and framebuffer are at least 1x1 and the viewport's far
    /// corner does not overflow a device-pixel coordinate.
    pub open spec fn wf(self) -> bool {
        &&& 1 <= self.viewport.size.width
        &&& 1 <= self.viewport.size.height
        &&& 1 <= self.framebuffer.width
        &&& 1 <= self.framebuffer.height
        &&& self.viewport.origin.x + self.viewport.size.width <= i32::MAX
        &&& self.viewport.origin.y + self.viewport.size.height <= i32::MAX
    }

    /// Assembles the geometry from plain values.
    pub fn new(
        x: i32,
        y: i32,
        width: i32,
        height: i32,
        fb_width: i32,
        fb_height: i32,
    ) -> (c: Coordinates)
        requires
            1 <= width,
            1 <= height,
            1 <= fb_width,
            1 <= fb_height,
            x + width <= i32::MAX,
            y + height <= i32::MAX,
        ensures
            c == (Coordinates {
                viewport: RectI {
                    origin: PointI { x, y },
                    size: SizeI { width, height },
                },
                framebuffer: SizeI { width: fb_width, height: fb_height },
            }),
            c.wf(),
    {
        Coordinates {
            viewport: RectI { origin: PointI { x, y }, size: SizeI { width, height } },
            framebuffer: SizeI { width: fb_width, height: fb_height },
        }
    }
}

/// The page's animation state as the engine reports it.
#[derive(Clone, Copy, Debug, PartialEq, Eq, Structural)]
pub enum AnimationState {
    Idle,
    Animating,
}

/// Everything the geometry query reports in one value: the viewport as a
/// corner box, the framebuffer size, the window as size plus origin, the
/// screen and available-screen sizes, and the pixel density.
#[derive(Clone, Copy, Debug, PartialEq, Eq, Structural)]
pub struct EmbedderCoordinates {
    pub viewport: BoxI,
    pub framebuffer: SizeI,
    pub window_size: SizeI,
    pub window_origin: PointI,
    pub screen: SizeI,
    pub screen_avail: SizeI,
    pub hidpi_factor: Scale,
}

/// What the geometry query answers for a given geometry and density: the
/// viewport box spans the stored viewport rectangle, the window sits at the
/// origin with the viewport's size, and screen and available screen equal
/// the viewport size (the terminal is the whole screen).
pub open spec fn embedder_coords(c: Coordinates, density: Scale) -> EmbedderCoordinates {
    EmbedderCoordinates {
        viewport: BoxI {
            min: c.viewport.origin,
            max: PointI {
                x: (c.viewport.origin.x + c.viewport.size.width) as i32,
                y: (c.viewport.origin.y + c.viewport.size.height) as i32,
            },
        },
        framebuffer: c.framebuffer,
        window_size: c.viewport.size,
        window_origin: PointI { x: 0, y: 0 },
        screen: c.viewport.size,
        screen_avail: c.viewport.size,
        hidpi_factor: density,
    }
}

/// The adapter that satisfies the engine's windowing contract. It owns the
/// geometry exclusively: nothing else mutates it, and the engine reads it
/// by value through [`WindowCallbacks::get_coordinates`].
pub struct WindowCallbacks<H: HostTrait> {
    host_callbacks: H,
    coordinates: Coordinates,
    density: Scale,
    forwarded: Ghost<Seq<bool>>,
}

impl<H: HostTrait> WindowCallbacks<H> {
    /// The host sink the adapter forwards notifications to.
    pub closed spec fn host(self) -> H {
        self.host_callbacks
    }

    /// The geometry the adapter currently holds.
    pub closed spec fn coords(self) -> Coordinates {
        self.coordinates
    }

    /// The pixel-density ratio the adapter was created with.
    pub closed spec fn density_ratio(self) -> Scale {
        self.density
    }

    /// The animation flags forwarded to the host so far, oldest first.
    pub closed spec fn forwarded_log(self) -> Seq<bool> {
        self.forwarded@
    }

    pub open spec fn wf(self) -> bool {
        &&& self.coords().wf()
        &&& 1 <= self.density_ratio().denom
    }

    pub fn new(host_callbacks: H, coordinates: Coordinates, density: Scale) -> (w: Self)
        requires
            coordinates.wf(),
            1 <= density.denom,
        ensures
            w.host() == host_callbacks,
            w.coords() == coordinates,
            w.density_ratio() == density,
            w.forwarded_log() == Seq::<bool>::empty(),
            w.wf(),
    {
        WindowCallbacks {
            host_callbacks,
            coordinates,
            density,
            forwarded: Ghost(Seq::empty()),
        }
    }

    /// Answers the engine's geometry query. The result is a pure projection
    /// of the stored geometry and density: queries are idempotent between
    /// resizes, and notifications do not disturb them.
    pub fn get_coordinates(&self) -> (r: EmbedderCoordinates)
        requires
            self.wf(),
        ensures
            r == embedder_coords(self.coords(), self.density_ratio()),
    {
        let c = self.coordinates;
        EmbedderCoordinates {
            viewport: BoxI {
                min: c.viewport.origin,
                max: PointI {
                    x: c.viewport.origin.x + c.viewport.size.width,
                    y: c.viewport.origin.y + c.viewport.size.height,
                },
            },
            framebuffer: c.framebuffer,
            window_size: c.viewport.size,
            window_origin: PointI { x: 0, y: 0 },
            screen: c.viewport.size,
            screen_avail: c.viewport.size,
            hidpi_factor: self.density,
        }
    }

    /// Replaces the geometry on a terminal resize. Density and the
    /// forwarding log are untouched.
    pub fn set_coordinates(&mut self, coordinates: Coordinates)
        requires
            coordinates.wf(),
            old(self).wf(),
        ensures
            final(self).coords() == coordinates,
            final(self).density_ratio() == old(self).density_ratio(),
            final(self).forwarded_log() == old(self).forwarded_log(),
            final(self).wf(),
    {
        self.coordinates = coordinates;
    }

    /// Consumes the adapter and hands the host sink back, for teardown or
    /// inspection.
    pub fn into_host(self) -> (h: H)
        ensures
            h == self.host(),
    {
        self.host_callbacks
    }

    /// Receives an animation-state change from the engine and forwards it
    /// verbatim to the host: the log grows by exactly the reported flag, so
    /// no transition is filtered or debounced. Geometry and density are
    /// untouched.
    pub fn set_animation_state(&mut self, state: AnimationState)
        ensures
            final(self).coords() == old(self).coords(),
            final(self).density_ratio() == old(self).density_ratio(),
            final(self).forwarded_log() == old(self).forwarded_log().push(
                state is Animating,
            ),
    {
        let animating = state == AnimationState::Animating;
        self.forwarded = Ghost(self.forwarded@.push(animating));
        self.host_callbacks.on_animating_changed(animating);
    }
}

/// Geometry reported by the adapter is stable: it is a function of the
/// stored geometry and density alone. Two adapters that agree on those
/// report the same embedder coordinates, whatever their hosts or forwarding
/// histories; with no resize between two queries of one adapter, the
/// queries agree.
pub proof fn lemma_geometry_stable<H1: HostTrait, H2: HostTrait>(
    a: WindowCallbacks<H1>,
    b: WindowCallbacks<H2>,
)
    requires
        a.coords() == b.coords(),
        a.density_ratio() == b.density_ratio(),
    ensures
        embedder_coords(a.coords(), a.density_ratio()) == embedder_coords(
            b.coords(),
            b.density_ratio(),
        ),
{
}

} // verus!
