//! The canvas panel: the part of the window in which the canvas is shown.

use vstd::prelude::*;
use crate::camera::{Camera, CameraModel};
use crate::rect::Rect;
use crate::spaces::PointInSpaces;

verus! {

/// The canvas panel.
#[derive(Clone, Copy, Debug, PartialEq, Eq)]
pub struct CanvasUi {
    has_focus: bool,
}

impl CanvasUi {
    /// Whether the pointer is over the panel.
    pub closed spec fn focused(self) -> bool {
        self.has_focus
    }

    /// A panel without focus.
    pub fn init() -> (r: Self)
        ensures
            !r.focused(),
    {
        let has_focus = false;
        Self { has_focus }
    }

    /// Lays the panel out for this frame: `rect` is the rectangle that the
    /// layout gave it, in window coordinates, and `hovered` says whether the
    /// pointer is over it. The camera shows the canvas in that rectangle
    /// from now on.
    pub fn ui(&mut self, rect: Rect, hovered: bool, camera: &mut Camera)
        requires
            rect@.positive(),
        ensures
            final(self).focused() == hovered,
            final(camera)@ == (CameraModel { view: old(camera)@.view, viewport: rect@ }),
    {
        camera.set_viewport(rect);
        self.has_focus = hovered;
    }

    /// Whether the pointer is over the panel.
    pub fn has_focus(&self) -> (b: bool)
        ensures
            b == self.focused(),
    {
        self.has_focus
    }

    /// The cursor sample of this frame for the tools: the pointer counts
    /// only while it is pressed and within the on-screen rectangle.
    pub fn cursor(pointer: Option<PointInSpaces>, pressed: bool) -> (r: Option<PointInSpaces>)
        ensures
            r == match pointer {
                Some(at) if pressed && at.in_screen => Some(at),
                _ => None,
            },
    {
        match pointer {
            Some(at) => {
                if pressed && at.in_screen {
                    Some(at)
                } else {
                    None
                }
            },
            None => None,
        }
    }

    /// Whether an input event reaches the canvas: one that the widgets
    /// claim for themselves does so only while the panel has focus.
    pub fn receives(&self, exclusive: bool) -> (b: bool)
        ensures
            b == (!exclusive || self.focused()),
    {
        !exclusive || self.has_focus
    }
}

} // verus!
