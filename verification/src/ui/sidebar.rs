//! The toolbox: tool selection and the settings of the selected tool.

use vstd::prelude::*;
use crate::camera::{Camera, CameraModel};
use crate::canvas::{Color, PositiveRange, ViewportModel};
use crate::fixed::{clamp_raw, Fixed, ONE_RAW};
use crate::spaces::CanvasPoint;
use crate::tool::{CursorTool, PenModel, SpecificTool, ToolKind, ToolModel};

verus! {

/// The speed of the zoom control is three thousandths of the current
/// zoom: this is the numerator of that part.
pub const ZOOM_SPEED_NUM: i64 = 3;

/// The denominator of that part.
pub const ZOOM_SPEED_DEN: i64 = 1000;

/// The raw value of the speed factor of the zoom control.
pub open spec fn zoom_speed_factor() -> int {
    (ZOOM_SPEED_NUM * ONE_RAW) / (ZOOM_SPEED_DEN as int)
}

/// The speed at which dragging changes the zoom: it grows with the zoom,
/// so that dragging feels the same at every zoom.
pub fn zoom_drag_speed(zoom: Fixed) -> (r: Fixed)
    ensures
        r@ == clamp_raw((zoom@ * zoom_speed_factor()) / (ONE_RAW as int)),
{
    zoom.mul(Fixed::from_ratio(ZOOM_SPEED_NUM, ZOOM_SPEED_DEN))
}

/// A tool button: tells whether the button shows as selected, and selects
/// its tool if it was clicked.
pub fn selectable_tool(cursor_tool: &mut CursorTool, selectable: ToolKind, clicked: bool) -> (shown:
    bool)
    ensures
        shown == (old(cursor_tool).specific@.kind() == selectable),
        final(cursor_tool).specific@ == if clicked {
            old(cursor_tool).specific@.select(selectable)
        } else {
            old(cursor_tool).specific@
        },
        !clicked ==> *final(cursor_tool) == *old(cursor_tool),
        final(cursor_tool).canvas_pos == old(cursor_tool).canvas_pos,
        final(cursor_tool).active == old(cursor_tool).active,
{
    let shown: bool = cursor_tool.specific.kind() == selectable;
    if clicked {
        cursor_tool.select(selectable);
    }
    shown
}

/// What the user did to the widgets of the toolbox in one frame.
#[derive(Clone, Copy, Debug, PartialEq, Eq)]
pub struct SidebarResponse {
    /// The tool button that was clicked.
    pub clicked_tool: Option<ToolKind>,
    /// The colour that the colour button holds now.
    pub pen_color: Option<Color>,
    /// The value that the pen size slider was dragged to.
    pub pen_size: Option<Fixed>,
    /// The value that the zoom control was dragged to.
    pub zoom: Option<Fixed>,
    /// The position that the translate controls were dragged to.
    pub position: Option<CanvasPoint>,
}

/// The pen after the settings that the toolbox made.
pub open spec fn pen_settings(pen: PenModel, response: SidebarResponse, sizes: PositiveRange) -> PenModel {
    PenModel {
        size: match response.pen_size {
            Some(size) => sizes.clamped(size@),
            None => pen.size,
        },
        color: match response.pen_color {
            Some(color) => color,
            None => pen.color,
        },
        current: pen.current,
    }
}

/// The tool after one frame of the toolbox: a clicked button selects its
/// tool, then the settings of the tool that is selected now apply.
pub open spec fn sidebar_tool(tool: ToolModel, response: SidebarResponse, sizes: PositiveRange) -> ToolModel {
    let selected = match response.clicked_tool {
        Some(kind) => tool.select(kind),
        None => tool,
    };
    match selected {
        ToolModel::Pen(pen) => ToolModel::Pen(pen_settings(pen, response, sizes)),
        _ => selected,
    }
}

/// The camera after one frame of the toolbox: the hand tool shows the
/// position of the camera, the scale tool its zoom.
pub open spec fn sidebar_camera(
    tool: ToolModel,
    camera: CameraModel,
    response: SidebarResponse,
    zooms: PositiveRange,
) -> CameraModel {
    let selected = match response.clicked_tool {
        Some(kind) => tool.select(kind),
        None => tool,
    };
    match selected {
        ToolModel::Hand { .. } => match response.position {
            Some(position) => CameraModel {
                view: ViewportModel { center: position@, size: camera.view.size },
                viewport: camera.viewport,
            },
            None => camera,
        },
        ToolModel::Scale { .. } => match response.zoom {
            Some(zoom) => CameraModel {
                view: ViewportModel { center: camera.view.center, size: zooms.clamped(zoom@) },
                viewport: camera.viewport,
            },
            None => camera,
        },
        _ => camera,
    }
}

/// The toolbox.
#[derive(Clone, Copy, Debug, PartialEq, Eq)]
pub struct SidebarUi {
    /// Whether the pen changes its colour by itself while it draws.
    pub rainbow_mode: bool,
    /// The range of the pen size slider.
    pub pen_sizes: PositiveRange,
    /// The range of the zoom control.
    pub zooms: PositiveRange,
}

impl SidebarUi {
    /// One frame of the toolbox.
    pub fn ui(&self, response: &SidebarResponse, cursor_tool: &mut CursorTool, camera: &mut Camera)
        ensures
            final(cursor_tool).specific@ == sidebar_tool(
                old(cursor_tool).specific@,
                *response,
                self.pen_sizes,
            ),
            final(camera)@ == sidebar_camera(
                old(cursor_tool).specific@,
                old(camera)@,
                *response,
                self.zooms,
            ),
            final(cursor_tool).canvas_pos == old(cursor_tool).canvas_pos,
            final(cursor_tool).active == old(cursor_tool).active,
    {
        match response.clicked_tool {
            Some(kind) => {
                cursor_tool.select(kind);
            },
            None => {},
        }
        match &mut cursor_tool.specific {
            SpecificTool::Pen(pen) => {
                match response.pen_color {
                    Some(color) => {
                        pen.color = color;
                    },
                    None => {},
                }
                match response.pen_size {
                    Some(size) => {
                        pen.size = self.pen_sizes.clamp(size);
                    },
                    None => {},
                }
            },
            SpecificTool::Hand { .. } => {
                match response.position {
                    Some(position) => {
                        let mut view = camera.visible();
                        view.set_center(position);
                        camera.set_visible(view);
                    },
                    None => {},
                }
            },
            SpecificTool::Scale { .. } => {
                match response.zoom {
                    Some(zoom) => {
                        camera.set_zoom(zoom, &self.zooms);
                    },
                    None => {},
                }
            },
            _ => {},
        }
    }
}

impl Default for SidebarUi {
    /// No rainbow; pen sizes and zooms from a tenth to ten.
    fn default() -> (r: SidebarUi)
        ensures
            !r.rainbow_mode,
            r.pen_sizes.lower() == ONE_RAW / 10,
            r.pen_sizes.upper() == 10 * ONE_RAW,
            r.zooms.lower() == ONE_RAW / 10,
            r.zooms.upper() == 10 * ONE_RAW,
    {
        SidebarUi {
            rainbow_mode: false,
            pen_sizes: PositiveRange::default(),
            zooms: PositiveRange::default(),
        }
    }
}

} // verus!
