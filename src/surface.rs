//! Whether a display frame callback draws, and what: nothing is drawn before
//! the compositor configured the surface, and a frame is drawn only when
//! something changed since the last one.

use vstd::prelude::*;

verus! {

/// What a frame callback draws.
#[derive(Clone, Copy, Debug, PartialEq, Eq, Structural)]
pub enum DrawAction {
    /// The surface has no size yet: draw nothing.
    NotConfigured,
    /// Nothing changed since the last frame: draw nothing.
    NothingNew,
    /// Draw the next frame of the running transition.
    Transition,
    /// Draw the wallpaper itself.
    Wallpaper,
}

/// The drawing state of the surface.
pub struct SurfaceState {
    first_configured: bool,
    damaged: bool,
}

impl SurfaceState {
    /// Whether the compositor configured the surface yet.
    pub closed spec fn configured(&self) -> bool {
        self.first_configured
    }

    /// Whether something is to be drawn.
    pub closed spec fn is_damaged(&self) -> bool {
        self.damaged
    }

    /// A new surface: not configured, with the first image to draw.
    pub fn new() -> (r: SurfaceState)
        ensures
            !r.configured(),
            r.is_damaged(),
    {
        SurfaceState { first_configured: false, damaged: true }
    }

    /// The compositor gave the surface a size: it is drawn anew.
    pub fn configure(&mut self)
        ensures
            final(self).configured(),
            final(self).is_damaged(),
    {
        self.first_configured = true;
        self.damaged = true;
    }

    /// Something changed: the next frame draws it.
    pub fn damage(&mut self)
        ensures
            final(self).configured() == old(self).configured(),
            final(self).is_damaged(),
    {
        self.damaged = true;
    }

    /// Decides what a frame callback draws while a transition is `animating`
    /// or not. Drawing consumes the damage; after a transition frame the caller
    /// damages the surface again, so that the next frame continues it.
    pub fn begin_draw(&mut self, animating: bool) -> (r: DrawAction)
        ensures
            final(self).configured() == old(self).configured(),
            !old(self).configured() ==> r == DrawAction::NotConfigured && final(self).is_damaged()
                == old(self).is_damaged(),
            old(self).configured() && !old(self).is_damaged() ==> r == DrawAction::NothingNew
                && !final(self).is_damaged(),
            old(self).configured() && old(self).is_damaged() ==> !final(self).is_damaged() && r
                == if animating {
                DrawAction::Transition
            } else {
                DrawAction::Wallpaper
            },
    {
        if !self.first_configured {
            return DrawAction::NotConfigured;
        }
        if !self.damaged {
            return DrawAction::NothingNew;
        }
        self.damaged = false;
        if animating {
            DrawAction::Transition
        } else {
            DrawAction::Wallpaper
        }
    }
}

} // verus!
