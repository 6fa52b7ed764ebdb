//! The frame's draw commands, computed from the state alone (RenderStep).
//!
//! The original geometry centers the grow effect on the player by shifting
//! the rectangle's corner by half the effect magnitude. Half a unit is not
//! an integer, so every geometric field here is measured in half units:
//! twice its value in canvas units. The surrounding program divides by two
//! when it paints.

use vstd::prelude::*;

use crate::state::App;

verus! {

/// The side of the player's square in canvas units before any effect.
pub const BASE_SIZE: i64 = 10;

/// The two fixed colors a frame uses. The painting backend chooses the
/// concrete channel values; the library only tells the commands apart.
#[derive(Clone, Copy, Debug, PartialEq, Eq, Structural)]
pub enum Color {
    /// The fixed color the whole canvas is cleared to.
    Background,
    /// The fixed color of the player's square.
    Foreground,
}

/// An axis-aligned rectangle in half units: each field is twice the
/// corresponding value in canvas units.
#[derive(Clone, Copy, Debug, PartialEq, Eq, Structural)]
pub struct Rect {
    pub x2: i128,
    pub y2: i128,
    pub w2: i128,
    pub h2: i128,
}

/// One frame's draw commands, in issue order: clear the whole canvas to
/// `clear_color`, then fill `rect` with `rect_color`. The canvas extents
/// are carried along for the viewport.
#[derive(Clone, Copy, Debug, PartialEq, Eq, Structural)]
pub struct Frame {
    pub width: u32,
    pub height: u32,
    pub clear_color: Color,
    pub rect: Rect,
    pub rect_color: Color,
}

/// The frame drawn for state `a` on a canvas of the given extents: the
/// square's corner is the position shifted up-left by half the effect
/// magnitude, its side the base size plus the effect magnitude.
pub open spec fn spec_frame(a: App, width: u32, height: u32) -> Frame {
    Frame {
        width,
        height,
        clear_color: Color::Background,
        rect: Rect {
            x2: (2 * a.player.x - a.expand) as i128,
            y2: (2 * a.player.y - a.expand) as i128,
            w2: (2 * a.expand + 2 * BASE_SIZE) as i128,
            h2: (2 * a.expand + 2 * BASE_SIZE) as i128,
        },
        rect_color: Color::Foreground,
    }
}

/// No field of `spec_frame` is truncated by its `i128` representation:
/// stated over unbounded integers, the rectangle is exactly the centered
/// geometry of the effect.
pub proof fn lemma_frame_rect_exact(a: App, width: u32, height: u32)
    ensures
        spec_frame(a, width, height).rect.x2 == 2 * a.player.x - a.expand,
        spec_frame(a, width, height).rect.y2 == 2 * a.player.y - a.expand,
        spec_frame(a, width, height).rect.w2 == 2 * a.expand + 2 * BASE_SIZE,
        spec_frame(a, width, height).rect.h2 == 2 * a.expand + 2 * BASE_SIZE,
{
}

/// Render purity: the draw commands are a function of the state and the
/// canvas extents alone, so identical state and extents yield identical
/// command sequences (and rendering takes the state read-only, so the
/// state is unchanged by it).
pub proof fn lemma_render_deterministic(a: App, b: App, width: u32, height: u32)
    requires
        a == b,
    ensures
        spec_frame(a, width, height) == spec_frame(b, width, height),
{
}

impl App {
    /// Computes the frame's draw commands for the current state
    /// (RenderStep): reads the state only, mutates nothing, and pins every
    /// field of the result.
    pub fn render(&self, width: u32, height: u32) -> (f: Frame)
        ensures
            f == spec_frame(*self, width, height),
            f.rect.x2 == 2 * self.player.x - self.expand,
            f.rect.y2 == 2 * self.player.y - self.expand,
            f.rect.w2 == 2 * self.expand + 2 * BASE_SIZE,
            f.rect.h2 == 2 * self.expand + 2 * BASE_SIZE,
    {
        let x = self.player.x as i128;
        let y = self.player.y as i128;
        let e = self.expand as i128;
        Frame {
            width,
            height,
            clear_color: Color::Background,
            rect: Rect {
                x2: 2 * x - e,
                y2: 2 * y - e,
                w2: 2 * e + 2 * (BASE_SIZE as i128),
                h2: 2 * e + 2 * (BASE_SIZE as i128),
            },
            rect_color: Color::Foreground,
        }
    }
}

} // verus!
