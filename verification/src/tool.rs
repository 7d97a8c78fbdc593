//! The tools: what a cursor sample does to the scene and the camera.
//!
//! Exactly one tool is selected at a time, and what a tool remembers from
//! one frame to the next lives inside its variant, so that selecting
//! another tool discards it. Every frame the selected tool receives the
//! cursor, if it is on the canvas and pressed, and edits the content or
//! moves the camera.

use vstd::prelude::*;
use crate::camera::{Camera, CameraModel};
use crate::canvas::{points_model, white, Color, CurrentCurve, Curve, CurveModel};
use crate::content::{curves_model, Content, ContentModel};
use crate::fixed::{Fixed, ONE_RAW};
use crate::geometry::{GeometryLine, GeometryPoint, LineModel};
use crate::spaces::{
    CanvasPoint, CanvasVector, CanvasVectorExt, PointInSpaces, ScreenNormPoint, ScreenNormVector,
};
use crate::typed::SpacePoint;
use crate::vec2::{coord_perp_dot, coord_sub, Coord};

verus! {

/// Two directions whose perpendicular dot product is no larger than this
/// count as parallel. The raw product carries the scale `2^64`, so this is
/// the number `2^-23`.
pub const CROSS_EPSILON: i128 = 0x200_0000_0000;

/// Whether the ratio `n / c` lies in `[0, 1]`, for `c != 0`.
pub open spec fn ratio_in_unit(n: int, c: int) -> bool {
    if c > 0 {
        0 <= n <= c
    } else {
        c <= n <= 0
    }
}

/// Whether the segment from `p0` along `pv` crosses the segment from `q0`
/// along `qv`. Segments that are parallel, or nearly so, never cross by
/// this test, even where they overlap.
pub open spec fn segments_intersect(p0: Coord, pv: Coord, q0: Coord, qv: Coord) -> bool {
    let cross = coord_perp_dot(pv, qv);
    let between = Coord { x: q0.x - p0.x, y: q0.y - p0.y };
    &&& (cross > CROSS_EPSILON || cross < -CROSS_EPSILON)
    &&& ratio_in_unit(coord_perp_dot(between, pv), cross)
    &&& ratio_in_unit(coord_perp_dot(between, qv), cross)
}

/// The test means what it says: where it reports a crossing, the point
/// `p0 + (a / c) * pv` of the first segment is the point `q0 + (b / c) * qv` of
/// the second one, with both ratios in `[0, 1]`. Here `c` is the
/// perpendicular dot product of the two directions, and `a` and `b` are
/// those of the displacement between the two origins with `qv` and `pv`.
pub proof fn lemma_crossing_has_common_point(p0: Coord, pv: Coord, q0: Coord, qv: Coord)
    requires
        segments_intersect(p0, pv, q0, qv),
    ensures
        ({
            let between = Coord { x: q0.x - p0.x, y: q0.y - p0.y };
            let c = coord_perp_dot(pv, qv);
            let a = coord_perp_dot(between, qv);
            let b = coord_perp_dot(between, pv);
            &&& c != 0
            &&& ratio_in_unit(a, c)
            &&& ratio_in_unit(b, c)
            &&& c * p0.x + a * pv.x == c * q0.x + b * qv.x
            &&& c * p0.y + a * pv.y == c * q0.y + b * qv.y
        }),
{
    lemma_perp_dot_identity(q0.x - p0.x, q0.y - p0.y, pv.x, pv.y, qv.x, qv.y);
    lemma_perp_dot_identity(q0.y - p0.y, q0.x - p0.x, pv.y, pv.x, qv.y, qv.x);
    let dx = q0.x - p0.x;
    let dy = q0.y - p0.y;
    let c = pv.x * qv.y - pv.y * qv.x;
    let a = dx * qv.y - dy * qv.x;
    let b = dx * pv.y - dy * pv.x;
    assert(c * dx == a * pv.x - b * qv.x);
    assert(c * p0.x + c * dx == c * q0.x) by (nonlinear_arith)
        requires
            dx == q0.x - p0.x,
    ;
    // the same along the other axis, where every product changes its sign
    let c2 = pv.y * qv.x - pv.x * qv.y;
    let a2 = dy * qv.x - dx * qv.y;
    let b2 = dy * pv.x - dx * pv.y;
    assert(c2 * dy == a2 * pv.y - b2 * qv.y);
    assert(c2 == -c && a2 == -a && b2 == -b);
    assert(c * dy == a * pv.y - b * qv.y) by (nonlinear_arith)
        requires
            c2 * dy == a2 * pv.y - b2 * qv.y,
            c2 == -c,
            a2 == -a,
            b2 == -b,
    ;
    assert(c * p0.y + c * dy == c * q0.y) by (nonlinear_arith)
        requires
            dy == q0.y - p0.y,
    ;
}

/// And the test misses no crossing of segments that are not parallel: if
/// some point `p0 + (tn / den) * pv` of the first segment is the point
/// `q0 + (sn / den) * qv` of the second one, with both ratios in `[0, 1]`,
/// the test reports a crossing.
pub proof fn lemma_common_point_is_crossing(
    p0: Coord,
    pv: Coord,
    q0: Coord,
    qv: Coord,
    tn: int,
    sn: int,
    den: int,
)
    requires
        coord_perp_dot(pv, qv) > CROSS_EPSILON || coord_perp_dot(pv, qv) < -CROSS_EPSILON,
        den > 0,
        0 <= tn <= den,
        0 <= sn <= den,
        den * p0.x + tn * pv.x == den * q0.x + sn * qv.x,
        den * p0.y + tn * pv.y == den * q0.y + sn * qv.y,
    ensures
        segments_intersect(p0, pv, q0, qv),
{
    let dx = q0.x - p0.x;
    let dy = q0.y - p0.y;
    let c = pv.x * qv.y - pv.y * qv.x;
    let a = dx * qv.y - dy * qv.x;
    let b = dx * pv.y - dy * pv.x;
    assert(den * dx == tn * pv.x - sn * qv.x) by (nonlinear_arith)
        requires
            dx == q0.x - p0.x,
            den * p0.x + tn * pv.x == den * q0.x + sn * qv.x,
    ;
    assert(den * dy == tn * pv.y - sn * qv.y) by (nonlinear_arith)
        requires
            dy == q0.y - p0.y,
            den * p0.y + tn * pv.y == den * q0.y + sn * qv.y,
    ;
    lemma_scaled_perp_dot(den, dx, dy, tn, sn, pv.x, pv.y, qv.x, qv.y, qv.x, qv.y);
    assert(qv.x * qv.y - qv.y * qv.x == 0) by (nonlinear_arith);
    assert(sn * 0 == 0);
    assert(den * a == tn * c);
    lemma_scaled_perp_dot(den, dx, dy, tn, sn, pv.x, pv.y, qv.x, qv.y, pv.x, pv.y);
    assert(pv.x * pv.y - pv.y * pv.x == 0) by (nonlinear_arith);
    assert(tn * 0 == 0);
    assert(qv.x * pv.y - qv.y * pv.x == -c) by (nonlinear_arith)
        requires
            c == pv.x * qv.y - pv.y * qv.x,
    ;
    assert(sn * (-c) == -(sn * c)) by (nonlinear_arith);
    assert(den * b == sn * c);
    lemma_scaled_ratio_in_unit(a, c, tn, den);
    lemma_scaled_ratio_in_unit(b, c, sn, den);
}

/// The perpendicular dot product with `(vx, vy)` of a displacement that is
/// given by its multiple `den * (dx, dy) == tn * (px, py) - sn * (qx, qy)`.
proof fn lemma_scaled_perp_dot(
    den: int,
    dx: int,
    dy: int,
    tn: int,
    sn: int,
    px: int,
    py: int,
    qx: int,
    qy: int,
    vx: int,
    vy: int,
)
    requires
        den * dx == tn * px - sn * qx,
        den * dy == tn * py - sn * qy,
    ensures
        den * (dx * vy - dy * vx) == tn * (px * vy - py * vx) - sn * (qx * vy - qy * vx),
{
    let x = den * dx;
    let y = den * dy;
    assert(den * (dx * vy - dy * vx) == x * vy - y * vx) by (nonlinear_arith)
        requires
            x == den * dx,
            y == den * dy,
    ;
    let tp = tn * px;
    let sq = sn * qx;
    assert((tp - sq) * vy == tp * vy - sq * vy) by (nonlinear_arith);
    let tq = tn * py;
    let sr = sn * qy;
    assert((tq - sr) * vx == tq * vx - sr * vx) by (nonlinear_arith);
    assert(tp * vy == tn * (px * vy)) by (nonlinear_arith)
        requires
            tp == tn * px,
    ;
    assert(sq * vy == sn * (qx * vy)) by (nonlinear_arith)
        requires
            sq == sn * qx,
    ;
    assert(tq * vx == tn * (py * vx)) by (nonlinear_arith)
        requires
            tq == tn * py,
    ;
    assert(sr * vx == sn * (qy * vx)) by (nonlinear_arith)
        requires
            sr == sn * qy,
    ;
    assert(tn * (px * vy - py * vx) == tn * (px * vy) - tn * (py * vx)) by (nonlinear_arith);
    assert(sn * (qx * vy - qy * vx) == sn * (qx * vy) - sn * (qy * vx)) by (nonlinear_arith);
}

/// A ratio `n / c` that equals a ratio `tn / den` in `[0, 1]` lies in
/// `[0, 1]`.
proof fn lemma_scaled_ratio_in_unit(n: int, c: int, tn: int, den: int)
    requires
        c != 0,
        den > 0,
        0 <= tn <= den,
        den * n == tn * c,
    ensures
        ratio_in_unit(n, c),
{
    if c > 0 {
        assert(0 <= tn * c <= den * c) by (nonlinear_arith)
            requires
                c > 0,
                0 <= tn <= den,
        ;
        assert(0 <= n <= c) by (nonlinear_arith)
            requires
                den > 0,
                0 <= den * n <= den * c,
        ;
    } else {
        assert(den * c <= tn * c <= 0) by (nonlinear_arith)
            requires
                c < 0,
                0 <= tn <= den,
        ;
        assert(c <= n <= 0) by (nonlinear_arith)
            requires
                den > 0,
                den * c <= den * n <= 0,
        ;
    }
}

/// The identity behind the crossing point, along one axis:
/// `(px * qy - py * qx) * dx == (dx * qy - dy * qx) * px - (dx * py - dy * px) * qx`.
proof fn lemma_perp_dot_identity(dx: int, dy: int, px: int, py: int, qx: int, qy: int)
    ensures
        (px * qy - py * qx) * dx == (dx * qy - dy * qx) * px - (dx * py - dy * px) * qx,
{
    let m1 = dx * qy;
    let m2 = dy * qx;
    let m3 = dx * py;
    let m4 = dy * px;
    assert((m1 - m2) * px == m1 * px - m2 * px) by (nonlinear_arith);
    assert((m3 - m4) * qx == m3 * qx - m4 * qx) by (nonlinear_arith);
    assert(m2 * px == m4 * qx) by (nonlinear_arith)
        requires
            m2 == dy * qx,
            m4 == dy * px,
    ;
    let n1 = px * qy;
    let n2 = py * qx;
    assert((n1 - n2) * dx == n1 * dx - n2 * dx) by (nonlinear_arith);
    assert(n1 * dx == m1 * px) by (nonlinear_arith)
        requires
            n1 == px * qy,
            m1 == dx * qy,
    ;
    assert(n2 * dx == m3 * qx) by (nonlinear_arith)
        requires
            n2 == py * qx,
            m3 == dx * py,
    ;
}

/// The exact perpendicular dot product of a difference of positions with
/// a displacement.
fn wide_perp_dot(dx: i128, dy: i128, vx: i64, vy: i64) -> (r: i128)
    requires
        -0x8000_0000_0000_0000 <= dx <= 0x8000_0000_0000_0000,
        -0x8000_0000_0000_0000 <= dy <= 0x8000_0000_0000_0000,
        -0x4000_0000_0000_0000 <= vx <= 0x4000_0000_0000_0000,
        -0x4000_0000_0000_0000 <= vy <= 0x4000_0000_0000_0000,
    ensures
        r == dx * vy - dy * vx,
{
    assert(-0x2000_0000_0000_0000_0000_0000_0000_0000 <= dx * vy
        <= 0x2000_0000_0000_0000_0000_0000_0000_0000) by (nonlinear_arith)
        requires
            -0x8000_0000_0000_0000 <= dx <= 0x8000_0000_0000_0000,
            -0x4000_0000_0000_0000 <= vy <= 0x4000_0000_0000_0000,
    ;
    assert(-0x2000_0000_0000_0000_0000_0000_0000_0000 <= dy * vx
        <= 0x2000_0000_0000_0000_0000_0000_0000_0000) by (nonlinear_arith)
        requires
            -0x8000_0000_0000_0000 <= dy <= 0x8000_0000_0000_0000,
            -0x4000_0000_0000_0000 <= vx <= 0x4000_0000_0000_0000,
    ;
    dx * (vy as i128) - dy * (vx as i128)
}

/// Whether `n / c` lies in `[0, 1]`.
fn is_ratio_in_unit(n: i128, c: i128) -> (b: bool)
    ensures
        b == ratio_in_unit(n as int, c as int),
{
    if c > 0 {
        0 <= n && n <= c
    } else {
        c <= n && n <= 0
    }
}

/// Whether the segment from `p0` along `pv` crosses the segment from `q0`
/// along `qv`.
pub fn are_segments_intersecting(
    p0: CanvasPoint,
    pv: CanvasVector,
    q0: CanvasPoint,
    qv: CanvasVector,
) -> (b: bool)
    ensures
        b == segments_intersect(p0@, pv@, q0@, qv@),
{
    let pvqv_cross: i128 = pv.perp_dot(qv);
    if pvqv_cross > CROSS_EPSILON || pvqv_cross < -CROSS_EPSILON {
        let dx: i128 = (q0.x.raw() as i128) - (p0.x.raw() as i128);
        let dy: i128 = (q0.y.raw() as i128) - (p0.y.raw() as i128);
        let t: i128 = wide_perp_dot(dx, dy, pv.x.raw(), pv.y.raw());
        let s: i128 = wide_perp_dot(dx, dy, qv.x.raw(), qv.y.raw());
        is_ratio_in_unit(t, pvqv_cross) && is_ratio_in_unit(s, pvqv_cross)
    } else {
        false
    }
}

/// The coordinates of an optional position.
pub open spec fn coord_of<S>(point: Option<SpacePoint<S>>) -> Option<Coord> {
    match point {
        Some(p) => Some(p@),
        None => None,
    }
}

/// The model of an optional stroke.
pub open spec fn curve_of(curve: Option<Curve>) -> Option<CurveModel> {
    match curve {
        Some(c) => Some(c@),
        None => None,
    }
}

/// Mathematical model of the pen: its settings and its stroke in progress.
pub struct PenModel {
    pub size: int,
    pub color: Color,
    pub current: Option<CurveModel>,
}

/// Mathematical model of the selected tool and what it remembers.
pub enum ToolModel {
    Pen(PenModel),
    Eraser { last_pos: Option<Coord> },
    Hand { last_pos: Option<Coord> },
    Scale { last_pos: Option<Coord> },
    PointPlacer,
    LinePlacer { pending: Option<Coord> },
}

/// The points of a stroke after the sample `pos`: a sample that repeats
/// the last point is dropped.
pub open spec fn append_sample(points: Seq<Coord>, pos: Coord) -> Seq<Coord> {
    if points.len() > 0 && points.last() == pos {
        points
    } else {
        points.push(pos)
    }
}

/// The stroke that the pen is drawing, or the empty stroke that it starts
/// now, whose width is fixed by the zoom at this moment.
pub open spec fn pen_stroke(pen: PenModel, camera: CameraModel) -> CurveModel {
    match pen.current {
        Some(c) => c,
        None => CurveModel {
            points: Seq::empty(),
            width: camera.stroke_width(pen.size),
            color: pen.color,
        },
    }
}

/// One frame of the pen. With a cursor the sample joins the stroke in
/// progress; without one the stroke in progress, if any, is committed.
pub open spec fn pen_step(
    pen: PenModel,
    cursor: Option<Coord>,
    camera: CameraModel,
    content: ContentModel,
) -> (PenModel, ContentModel) {
    match cursor {
        Some(pos) => {
            let stroke = pen_stroke(pen, camera);
            let drawn = CurveModel { points: append_sample(stroke.points, pos), ..stroke };
            (PenModel { current: Some(drawn), ..pen }, content)
        },
        None => match pen.current {
            Some(c) => (
                PenModel { current: None, ..pen },
                ContentModel { curves: content.curves.push(c), ..content },
            ),
            None => (pen, content),
        },
    }
}

/// Whether the sweep from `e0` to `e1` crosses the segment of `points`
/// that starts at index `i`.
pub open spec fn segment_hit(points: Seq<Coord>, i: int, e0: Coord, e1: Coord) -> bool {
    segments_intersect(e0, coord_sub(e1, e0), points[i], coord_sub(points[i + 1], points[i]))
}

/// Whether the sweep from `e0` to `e1` crosses some segment of the stroke.
pub open spec fn curve_hit(curve: CurveModel, e0: Coord, e1: Coord) -> bool {
    exists|i: int| 0 <= i < curve.points.len() - 1 && #[trigger] segment_hit(curve.points, i, e0, e1)
}

/// The strokes that the sweep from `e0` to `e1` leaves: those it does not
/// cross, in their order.
pub open spec fn erase(curves: Seq<CurveModel>, e0: Coord, e1: Coord) -> Seq<CurveModel> {
    curves.filter(|c: CurveModel| !curve_hit(c, e0, e1))
}

/// One frame of the eraser: the content after it.
pub open spec fn eraser_step(last_pos: Option<Coord>, cursor: Option<Coord>, content: ContentModel) -> ContentModel {
    match (last_pos, cursor) {
        (Some(e0), Some(e1)) => ContentModel { curves: erase(content.curves, e0, e1), ..content },
        _ => content,
    }
}

/// One frame of the hand: the camera after it. The positions are
/// normalized screen positions.
pub open spec fn hand_step(last_pos: Option<Coord>, pos: Option<Coord>, camera: CameraModel) -> CameraModel {
    match (pos, last_pos) {
        (Some(p), Some(last)) => camera.pan_back(camera.canvas_vec_from_norm(coord_sub(p, last))),
        _ => camera,
    }
}

/// One frame of the scale tool: the camera after it.
pub open spec fn scale_step(last_pos: Option<Coord>, cursor: Option<Coord>, camera: CameraModel) -> CameraModel {
    match (cursor, last_pos) {
        (Some(p), Some(last)) => camera.pan_back(coord_sub(p, last)),
        _ => camera,
    }
}

/// One frame of the point placer: the content after it.
pub open spec fn point_step(cursor: Option<Coord>, content: ContentModel) -> ContentModel {
    match cursor {
        Some(pos) => ContentModel { points: content.points.push(pos), ..content },
        None => content,
    }
}

/// One frame of the line placer: what is pending and the content after it.
pub open spec fn line_step(pending: Option<Coord>, cursor: Option<Coord>, content: ContentModel) -> (
    Option<Coord>,
    ContentModel,
) {
    match cursor {
        Some(pos) => match pending {
            Some(p) => (
                None,
                ContentModel { lines: content.lines.push(LineModel { p, q: pos }), ..content },
            ),
            None => (Some(pos), content),
        },
        None => (pending, content),
    }
}

/// The pen: its settings and the stroke it is drawing.
#[derive(Clone, Debug, PartialEq, Eq)]
pub struct PenTool {
    pub size: Fixed,
    pub color: Color,
    pub current: CurrentCurve,
}

impl PenTool {
    pub open spec fn view(self) -> PenModel {
        PenModel { size: self.size@, color: self.color, current: curve_of(self.current.0) }
    }
}

impl Default for PenTool {
    /// A white pen of size one that is not drawing.
    fn default() -> (r: PenTool)
        ensures
            r@ == (PenModel { size: ONE_RAW as int, color: white(), current: None }),
            r@.color.is_white(),
    {
        PenTool { size: Fixed::one(), color: Color::white(), current: CurrentCurve(None) }
    }
}

/// The selected tool together with what it remembers between frames.
#[derive(Clone, Debug, PartialEq, Eq)]
#[allow(inconsistent_fields)]
pub enum SpecificTool {
    /// Draws strokes.
    Pen(PenTool),
    /// Deletes the strokes that the cursor sweeps over.
    Eraser { last_pos: Option<CanvasPoint> },
    /// Drags the canvas.
    Hand { last_pos: Option<ScreenNormPoint> },
    /// Drags the canvas by the movement of the cursor on it.
    Scale { last_pos: Option<CanvasPoint> },
    /// Places point markers.
    PointPlacer,
    /// Places line markers, one end at a time.
    LinePlacer { pending: Option<GeometryPoint> },
}

impl SpecificTool {
    pub open spec fn view(self) -> ToolModel {
        match self {
            SpecificTool::Pen(pen) => ToolModel::Pen(pen@),
            SpecificTool::Eraser { last_pos } => ToolModel::Eraser { last_pos: coord_of(last_pos) },
            SpecificTool::Hand { last_pos } => ToolModel::Hand { last_pos: coord_of(last_pos) },
            SpecificTool::Scale { last_pos } => ToolModel::Scale { last_pos: coord_of(last_pos) },
            SpecificTool::PointPlacer => ToolModel::PointPlacer,
            SpecificTool::LinePlacer { pending } => ToolModel::LinePlacer {
                pending: match pending {
                    Some(p) => Some(p@),
                    None => None,
                },
            },
        }
    }
}

/// The tool under the cursor.
#[derive(Clone, Debug, PartialEq, Eq)]
pub struct CursorTool {
    /// The last position of the cursor on the canvas.
    pub canvas_pos: CanvasPoint,
    /// Whether the cursor is on the canvas and pressed.
    pub active: bool,
    /// The selected tool.
    pub specific: SpecificTool,
}

/// One frame of the pen, if the pen is selected.
pub fn pen_tool_sys(
    cursor_tool: &mut CursorTool,
    cursor: Option<CanvasPoint>,
    camera: &Camera,
    content: &mut Content,
)
    ensures
        final(cursor_tool).canvas_pos == old(cursor_tool).canvas_pos,
        final(cursor_tool).active == old(cursor_tool).active,
        match old(cursor_tool).specific@ {
            ToolModel::Pen(pen) => {
                &&& final(cursor_tool).specific@ == ToolModel::Pen(
                    pen_step(pen, coord_of(cursor), camera@, old(content)@).0,
                )
                &&& final(content)@ == pen_step(pen, coord_of(cursor), camera@, old(content)@).1
            },
            _ => *final(cursor_tool) == *old(cursor_tool) && *final(content) == *old(content),
        },
{
    match &mut cursor_tool.specific {
        SpecificTool::Pen(pen) => {
            match cursor {
                Some(pos) => {
                    if pen.current.0.is_none() {
                        let curve_width: Fixed = camera.stroke_width(pen.size);
                        pen.current.0 = Some(Curve::new(curve_width, pen.color));
                    }
                    assert(curve_of(pen.current.0) == Some(pen_stroke(old(cursor_tool).specific@->Pen_0, camera@)));
                    match &mut pen.current.0 {
                        Some(current) => {
                            let n: usize = current.points.len();
                            let ghost before: Seq<CanvasPoint> = current.points@;
                            if n == 0 || !current.points[n - 1].is_same(&pos) {
                                current.points.push(pos);
                                assert(points_model(before.push(pos)) =~= points_model(before).push(pos@));
                            }
                            assert(current@.points == append_sample(points_model(before), pos@));
                        },
                        None => {},
                    }
                },
                None => {
                    match pen.current.0.take() {
                        Some(c) => {
                            content.spawn_curve(c);
                        },
                        None => {},
                    }
                },
            }
        },
        _ => {},
    }
}

/// Whether the sweep from `e0` to `e1` crosses some segment of the stroke.
pub fn sweep_hits_curve(curve: &Curve, e0: CanvasPoint, e1: CanvasPoint) -> (b: bool)
    ensures
        b == curve_hit(curve@, e0@, e1@),
{
    let e01: CanvasVector = e1.sub(e0);
    let segments: usize = if curve.points.len() == 0 {
        0
    } else {
        curve.points.len() - 1
    };
    let mut i: usize = 0;
    while i < segments
        invariant
            segments == curve@.points.len() - 1 || (segments == 0 && curve@.points.len() == 0),
            i <= segments,
            e01@ == coord_sub(e1@, e0@),
            forall|j: int| 0 <= j < i ==> !#[trigger] segment_hit(curve@.points, j, e0@, e1@),
        decreases segments - i,
    {
        let c0: CanvasPoint = curve.points[i];
        let c1: CanvasPoint = curve.points[i + 1];
        let c01: CanvasVector = c1.sub(c0);
        if are_segments_intersecting(e0, e01, c0, c01) {
            assert(segment_hit(curve@.points, i as int, e0@, e1@));
            return true;
        }
        i += 1;
    }
    false
}

/// Removes the strokes that the sweep from `e0` to `e1` crosses.
fn erase_curves(curves: Vec<Curve>, e0: CanvasPoint, e1: CanvasPoint) -> (kept: Vec<Curve>)
    ensures
        curves_model(kept@) == erase(curves_model(curves@), e0@, e1@),
{
    let ghost keep = |c: CurveModel| !curve_hit(c, e0@, e1@);
    let ghost all: Seq<Curve> = curves@;
    let mut kept: Vec<Curve> = Vec::new();
    assert(curves_model(kept@) =~= curves_model(all.take(0)).filter(keep));
    for curve in it: curves
        invariant
            it.seq() == all,
            keep == |c: CurveModel| !curve_hit(c, e0@, e1@),
            curves_model(kept@) == curves_model(all.take(it.index() as int)).filter(keep),
    {
        proof {
            let done: Seq<Curve> = all.take(it.index() as int);
            assert(all.take(it.index() + 1) =~= done.push(curve));
            assert(curves_model(done.push(curve)) =~= curves_model(done).push(curve@));
            Seq::lemma_filter_push(curves_model(done), curve@, keep);
            assert(curves_model(kept@.push(curve)) =~= curves_model(kept@).push(curve@));
        }
        if !sweep_hits_curve(&curve, e0, e1) {
            kept.push(curve);
        }
    }
    assert(all.take(all.len() as int) =~= all);
    kept
}

/// One frame of the eraser, if the eraser is selected: every stroke that
/// the sweep from the last cursor position to this one crosses is deleted
/// whole.
pub fn eraser_tool_sys(cursor_tool: &mut CursorTool, cursor: Option<CanvasPoint>, content: &mut Content)
    ensures
        final(cursor_tool).canvas_pos == old(cursor_tool).canvas_pos,
        final(cursor_tool).active == old(cursor_tool).active,
        match old(cursor_tool).specific@ {
            ToolModel::Eraser { last_pos } => {
                &&& final(cursor_tool).specific@ == (ToolModel::Eraser { last_pos: coord_of(cursor) })
                &&& final(content)@ == eraser_step(last_pos, coord_of(cursor), old(content)@)
            },
            _ => *final(cursor_tool) == *old(cursor_tool) && *final(content) == *old(content),
        },
{
    match &mut cursor_tool.specific {
        SpecificTool::Eraser { last_pos } => {
            match (*last_pos, cursor) {
                (Some(e0), Some(e1)) => {
                    let mut curves: Vec<Curve> = Vec::new();
                    core::mem::swap(&mut content.curves, &mut curves);
                    content.curves = erase_curves(curves, e0, e1);
                },
                _ => {},
            }
            *last_pos = cursor;
        },
        _ => {},
    }
}

/// One frame of the hand, if the hand is selected: the camera follows the
/// movement of the cursor on the normalized screen, so that the canvas
/// stays under the cursor.
pub fn hand_tool_sys(cursor_tool: &mut CursorTool, pos: Option<ScreenNormPoint>, camera: &mut Camera)
    ensures
        final(cursor_tool).canvas_pos == old(cursor_tool).canvas_pos,
        final(cursor_tool).active == old(cursor_tool).active,
        match old(cursor_tool).specific@ {
            ToolModel::Hand { last_pos } => {
                &&& final(cursor_tool).specific@ == (ToolModel::Hand { last_pos: coord_of(pos) })
                &&& final(camera)@ == hand_step(last_pos, coord_of(pos), old(camera)@)
            },
            _ => *final(cursor_tool) == *old(cursor_tool) && *final(camera) == *old(camera),
        },
{
    match &mut cursor_tool.specific {
        SpecificTool::Hand { last_pos } => {
            match (pos, *last_pos) {
                (Some(p), Some(last)) => {
                    let delta: ScreenNormVector = p.sub(last);
                    let canvas_delta: CanvasVector = CanvasVector::from_screen_norm(delta, camera);
                    camera.pan_back(canvas_delta);
                },
                _ => {},
            }
            *last_pos = pos;
        },
        _ => {},
    }
}

/// One frame of the scale tool, if it is selected: the camera moves
/// against the movement of the cursor on the canvas.
pub fn scale_tool_sys(cursor_tool: &mut CursorTool, cursor: Option<CanvasPoint>, camera: &mut Camera)
    ensures
        final(cursor_tool).canvas_pos == old(cursor_tool).canvas_pos,
        final(cursor_tool).active == old(cursor_tool).active,
        match old(cursor_tool).specific@ {
            ToolModel::Scale { last_pos } => {
                &&& final(cursor_tool).specific@ == (ToolModel::Scale { last_pos: coord_of(cursor) })
                &&& final(camera)@ == scale_step(last_pos, coord_of(cursor), old(camera)@)
            },
            _ => *final(cursor_tool) == *old(cursor_tool) && *final(camera) == *old(camera),
        },
{
    match &mut cursor_tool.specific {
        SpecificTool::Scale { last_pos } => {
            match (cursor, *last_pos) {
                (Some(p), Some(last)) => {
                    let delta: CanvasVector = p.sub(last);
                    camera.pan_back(delta);
                },
                _ => {},
            }
            *last_pos = cursor;
        },
        _ => {},
    }
}

/// One frame of the point placer, if it is selected: a cursor on the
/// canvas leaves a point marker.
pub fn point_placer_tool_sys(cursor_tool: &CursorTool, cursor: Option<CanvasPoint>, content: &mut Content)
    ensures
        match cursor_tool.specific@ {
            ToolModel::PointPlacer => final(content)@ == point_step(coord_of(cursor), old(content)@),
            _ => *final(content) == *old(content),
        },
{
    match &cursor_tool.specific {
        SpecificTool::PointPlacer => {
            match cursor {
                Some(pos) => {
                    content.spawn_point(GeometryPoint::new(pos));
                },
                None => {},
            }
        },
        _ => {},
    }
}

/// One frame of the line placer, if it is selected: the first sample is
/// kept as one end, the next one completes the line.
pub fn line_placer_tool_sys(cursor_tool: &mut CursorTool, cursor: Option<CanvasPoint>, content: &mut Content)
    ensures
        final(cursor_tool).canvas_pos == old(cursor_tool).canvas_pos,
        final(cursor_tool).active == old(cursor_tool).active,
        match old(cursor_tool).specific@ {
            ToolModel::LinePlacer { pending } => {
                &&& final(cursor_tool).specific@ == (ToolModel::LinePlacer {
                    pending: line_step(pending, coord_of(cursor), old(content)@).0,
                })
                &&& final(content)@ == line_step(pending, coord_of(cursor), old(content)@).1
            },
            _ => *final(cursor_tool) == *old(cursor_tool) && *final(content) == *old(content),
        },
{
    match &mut cursor_tool.specific {
        SpecificTool::LinePlacer { pending } => {
            match cursor {
                Some(pos) => {
                    match pending.take() {
                        Some(p) => {
                            content.spawn_line(GeometryLine::new(p, GeometryPoint::new(pos)));
                        },
                        None => {
                            *pending = Some(GeometryPoint::new(pos));
                        },
                    }
                },
                None => {},
            }
        },
        _ => {},
    }
}

/// The tools that can be selected.
#[derive(Clone, Copy, Debug, PartialEq, Eq, Structural)]
pub enum ToolKind {
    Pen,
    Eraser,
    Hand,
    Scale,
    PointPlacer,
    LinePlacer,
}

impl ToolModel {
    /// Which tool this is.
    pub open spec fn kind(self) -> ToolKind {
        match self {
            ToolModel::Pen(_) => ToolKind::Pen,
            ToolModel::Eraser { .. } => ToolKind::Eraser,
            ToolModel::Hand { .. } => ToolKind::Hand,
            ToolModel::Scale { .. } => ToolKind::Scale,
            ToolModel::PointPlacer => ToolKind::PointPlacer,
            ToolModel::LinePlacer { .. } => ToolKind::LinePlacer,
        }
    }

    /// Whether the tool remembers nothing from earlier frames.
    pub open spec fn is_fresh(self) -> bool {
        match self {
            ToolModel::Pen(pen) => pen.current is None,
            ToolModel::Eraser { last_pos } => last_pos is None,
            ToolModel::Hand { last_pos } => last_pos is None,
            ToolModel::Scale { last_pos } => last_pos is None,
            ToolModel::PointPlacer => true,
            ToolModel::LinePlacer { pending } => pending is None,
        }
    }

    /// The tool of the given kind as it is right after its selection: it
    /// remembers nothing, and the pen has its default settings.
    pub open spec fn fresh(kind: ToolKind) -> ToolModel {
        match kind {
            ToolKind::Pen => ToolModel::Pen(
                PenModel { size: ONE_RAW as int, color: white(), current: None },
            ),
            ToolKind::Eraser => ToolModel::Eraser { last_pos: None },
            ToolKind::Hand => ToolModel::Hand { last_pos: None },
            ToolKind::Scale => ToolModel::Scale { last_pos: None },
            ToolKind::PointPlacer => ToolModel::PointPlacer,
            ToolKind::LinePlacer => ToolModel::LinePlacer { pending: None },
        }
    }

    /// The tool after the selection of `kind`: selecting the tool that is
    /// selected already changes nothing, selecting another one starts it
    /// afresh.
    pub open spec fn select(self, kind: ToolKind) -> ToolModel {
        if self.kind() == kind {
            self
        } else {
            ToolModel::fresh(kind)
        }
    }
}

impl SpecificTool {
    /// Which tool this is.
    pub fn kind(&self) -> (k: ToolKind)
        ensures
            k == self@.kind(),
    {
        match self {
            SpecificTool::Pen(_) => ToolKind::Pen,
            SpecificTool::Eraser { .. } => ToolKind::Eraser,
            SpecificTool::Hand { .. } => ToolKind::Hand,
            SpecificTool::Scale { .. } => ToolKind::Scale,
            SpecificTool::PointPlacer => ToolKind::PointPlacer,
            SpecificTool::LinePlacer { .. } => ToolKind::LinePlacer,
        }
    }

    /// The tool of the given kind as it is right after its selection: it
    /// remembers nothing, and the pen has its default settings.
    pub fn fresh(kind: ToolKind) -> (r: SpecificTool)
        ensures
            r@ == ToolModel::fresh(kind),
    {
        match kind {
            ToolKind::Pen => SpecificTool::Pen(PenTool::default()),
            ToolKind::Eraser => SpecificTool::Eraser { last_pos: None },
            ToolKind::Hand => SpecificTool::Hand { last_pos: None },
            ToolKind::Scale => SpecificTool::Scale { last_pos: None },
            ToolKind::PointPlacer => SpecificTool::PointPlacer,
            ToolKind::LinePlacer => SpecificTool::LinePlacer { pending: None },
        }
    }
}

/// The cursor of a frame as the tools see it.
pub struct CursorModel {
    pub screen_norm: Coord,
    pub canvas: Coord,
}

/// The cursor sample of a frame, if there is one.
pub open spec fn cursor_of(cursor: Option<PointInSpaces>) -> Option<CursorModel> {
    match cursor {
        Some(c) => Some(CursorModel { screen_norm: c.screen_norm@, canvas: c.canvas@ }),
        None => None,
    }
}

/// The canvas position of a cursor sample.
pub open spec fn canvas_of(cursor: Option<CursorModel>) -> Option<Coord> {
    match cursor {
        Some(c) => Some(c.canvas),
        None => None,
    }
}

/// The normalized screen position of a cursor sample.
pub open spec fn screen_norm_of(cursor: Option<CursorModel>) -> Option<Coord> {
    match cursor {
        Some(c) => Some(c.screen_norm),
        None => None,
    }
}

/// Everything that a frame can change.
pub struct FrameModel {
    pub tool: ToolModel,
    pub camera: CameraModel,
    pub content: ContentModel,
}

/// One frame: the selected tool, and no other, handles the cursor.
pub open spec fn frame_step(state: FrameModel, cursor: Option<CursorModel>) -> FrameModel {
    match state.tool {
        ToolModel::Pen(pen) => {
            let next = pen_step(pen, canvas_of(cursor), state.camera, state.content);
            FrameModel { tool: ToolModel::Pen(next.0), camera: state.camera, content: next.1 }
        },
        ToolModel::Eraser { last_pos } => FrameModel {
            tool: ToolModel::Eraser { last_pos: canvas_of(cursor) },
            camera: state.camera,
            content: eraser_step(last_pos, canvas_of(cursor), state.content),
        },
        ToolModel::Hand { last_pos } => FrameModel {
            tool: ToolModel::Hand { last_pos: screen_norm_of(cursor) },
            camera: hand_step(last_pos, screen_norm_of(cursor), state.camera),
            content: state.content,
        },
        ToolModel::Scale { last_pos } => FrameModel {
            tool: ToolModel::Scale { last_pos: canvas_of(cursor) },
            camera: scale_step(last_pos, canvas_of(cursor), state.camera),
            content: state.content,
        },
        ToolModel::PointPlacer => FrameModel {
            tool: ToolModel::PointPlacer,
            camera: state.camera,
            content: point_step(canvas_of(cursor), state.content),
        },
        ToolModel::LinePlacer { pending } => {
            let next = line_step(pending, canvas_of(cursor), state.content);
            FrameModel {
                tool: ToolModel::LinePlacer { pending: next.0 },
                camera: state.camera,
                content: next.1,
            }
        },
    }
}

impl CursorTool {
    /// The state that a frame works on.
    pub open spec fn frame(self, camera: Camera, content: Content) -> FrameModel {
        FrameModel { tool: self.specific@, camera: camera@, content: content@ }
    }

    /// The pen, not drawing, with the cursor off the canvas.
    pub fn new() -> (r: CursorTool)
        ensures
            r.specific@ == ToolModel::fresh(ToolKind::Pen),
            !r.active,
            r.canvas_pos@ == (Coord { x: 0, y: 0 }),
    {
        CursorTool {
            canvas_pos: CanvasPoint::new(Fixed::zero(), Fixed::zero()),
            active: false,
            specific: SpecificTool::fresh(ToolKind::Pen),
        }
    }

    /// Selects a tool. What the tool selected so far remembers is
    /// discarded, unless it is selected again. The settings of the pen live
    /// in its variant, so they go with it: a pen that is selected after
    /// another tool has the default size and colour, not those it had when
    /// it was last selected.
    pub fn select(&mut self, kind: ToolKind)
        ensures
            final(self).specific@ == old(self).specific@.select(kind),
            final(self).specific@.kind() == kind,
            old(self).specific@.kind() != kind ==> final(self).specific@.is_fresh(),
            final(self).canvas_pos == old(self).canvas_pos,
            final(self).active == old(self).active,
    {
        if self.specific.kind() != kind {
            self.specific = SpecificTool::fresh(kind);
        }
    }

    /// One frame. The cursor is given where it is on the canvas and
    /// pressed; the selected tool handles it.
    pub fn update(&mut self, cursor: Option<PointInSpaces>, camera: &mut Camera, content: &mut Content)
        ensures
            final(self).frame(*final(camera), *final(content)) == frame_step(
                old(self).frame(*old(camera), *old(content)),
                cursor_of(cursor),
            ),
            final(self).active == cursor is Some,
            final(self).canvas_pos == match cursor {
                Some(c) => c.canvas,
                None => old(self).canvas_pos,
            },
    {
        let mut canvas_cursor: Option<CanvasPoint> = None;
        let mut norm_cursor: Option<ScreenNormPoint> = None;
        match cursor {
            Some(c) => {
                canvas_cursor = Some(c.canvas);
                norm_cursor = Some(c.screen_norm);
                self.canvas_pos = c.canvas;
                self.active = true;
            },
            None => {
                self.active = false;
            },
        }
        pen_tool_sys(self, canvas_cursor, camera, content);
        eraser_tool_sys(self, canvas_cursor, content);
        hand_tool_sys(self, norm_cursor, camera);
        scale_tool_sys(self, canvas_cursor, camera);
        point_placer_tool_sys(self, canvas_cursor, content);
        line_placer_tool_sys(self, canvas_cursor, content);
    }
}

impl Default for CursorTool {
    fn default() -> (r: CursorTool)
        ensures
            r.specific@ == ToolModel::fresh(ToolKind::Pen),
            !r.active,
    {
        CursorTool::new()
    }
}

/// A sample that repeats the last point of a stroke is stored once:
/// appending the same position twice in a row leaves what appending it
/// once leaves.
pub proof fn lemma_append_sample_once(points: Seq<Coord>, pos: Coord)
    ensures
        append_sample(append_sample(points, pos), pos) == append_sample(points, pos),
        append_sample(points, pos).last() == pos,
        append_sample(Seq::empty(), pos) == seq![pos],
{
    assert(append_sample(Seq::empty(), pos) =~= seq![pos]);
}

/// The pen drops a repeated sample: a second frame with the cursor at the
/// same position changes nothing, whatever the camera does in between.
pub proof fn lemma_pen_dedup(
    pen: PenModel,
    pos: Coord,
    camera: CameraModel,
    later_camera: CameraModel,
    content: ContentModel,
)
    ensures
        ({
            let once = pen_step(pen, Some(pos), camera, content);
            pen_step(once.0, Some(pos), later_camera, once.1) == once
        }),
{
    let once = pen_step(pen, Some(pos), camera, content);
    let stroke = pen_stroke(pen, camera);
    lemma_append_sample_once(stroke.points, pos);
}

/// Selecting another tool discards what the selected tool remembers, and
/// selecting the first tool again starts it afresh: no stroke in progress,
/// no last position and no pending end survive the change.
pub proof fn lemma_tool_exclusive(tool: ToolModel, other: ToolKind)
    requires
        tool.kind() != other,
    ensures
        tool.select(other) == ToolModel::fresh(other),
        tool.select(other).is_fresh(),
        tool.select(other).select(tool.kind()) == ToolModel::fresh(tool.kind()),
        tool.select(other).select(tool.kind()).is_fresh(),
{
}

/// However a tool came to its state, selecting a tool of another kind
/// leaves that tool fresh.
pub proof fn lemma_select_is_fresh(tool: ToolModel, kind: ToolKind)
    ensures
        tool.select(kind).kind() == kind,
        tool.kind() != kind ==> tool.select(kind) == ToolModel::fresh(kind),
        tool.kind() == kind ==> tool.select(kind) == tool,
        ToolModel::fresh(kind).is_fresh(),
{
}

/// A frame never changes which tool is selected, and it changes the
/// camera and the content only as the selected tool does.
pub proof fn lemma_frame_keeps_tool(state: FrameModel, cursor: Option<CursorModel>)
    ensures
        frame_step(state, cursor).tool.kind() == state.tool.kind(),
        !(state.tool is Hand || state.tool is Scale) ==> frame_step(state, cursor).camera
            == state.camera,
        (state.tool is Hand || state.tool is Scale) ==> frame_step(state, cursor).content
            == state.content,
{
}

/// A frame without a cursor changes neither the camera nor the markers,
/// and it changes the strokes only by committing the stroke in progress.
pub proof fn lemma_frame_without_cursor(state: FrameModel)
    ensures
        frame_step(state, None).camera == state.camera,
        frame_step(state, None).content.points == state.content.points,
        frame_step(state, None).content.lines == state.content.lines,
        frame_step(state, None).content.curves == match state.tool {
            ToolModel::Pen(PenModel { current: Some(c), .. }) => state.content.curves.push(c),
            _ => state.content.curves,
        },
{
}

/// Two clicks make one line: the first sample becomes the pending end,
/// the second one completes the line and clears the pending end, and a
/// third one is the pending end of a new line.
pub proof fn lemma_line_two_clicks(first: Coord, second: Coord, third: Coord, content: ContentModel)
    ensures
        ({
            let one = line_step(None, Some(first), content);
            let two = line_step(one.0, Some(second), one.1);
            let three = line_step(two.0, Some(third), two.1);
            &&& one == (Some(first), content)
            &&& two.0 is None
            &&& two.1 == (ContentModel {
                lines: content.lines.push(LineModel { p: first, q: second }),
                ..content
            })
            &&& three == (Some(third), two.1)
        }),
{
}

/// The eraser leaves exactly the strokes that the sweep does not cross,
/// each of them unchanged and in the order they had.
pub proof fn lemma_erase_keeps_unhit(curves: Seq<CurveModel>, e0: Coord, e1: Coord)
    ensures
        erase(curves, e0, e1).len() <= curves.len(),
        forall|c: CurveModel| #[trigger]
            erase(curves, e0, e1).contains(c) <==> curves.contains(c) && !curve_hit(c, e0, e1),
        (forall|i: int| 0 <= i < curves.len() ==> !curve_hit(#[trigger] curves[i], e0, e1)) ==> erase(
            curves,
            e0,
            e1,
        ) == curves,
{
    let keep = |c: CurveModel| !curve_hit(c, e0, e1);
    curves.lemma_filter_len(keep);
    assert forall|c: CurveModel| #[trigger]
        erase(curves, e0, e1).contains(c) <==> curves.contains(c) && !curve_hit(c, e0, e1) by {
        if erase(curves, e0, e1).contains(c) {
            let i = choose|i: int| 0 <= i < curves.filter(keep).len() && curves.filter(keep)[i] == c;
            curves.lemma_filter_pred(keep, i);
            curves.lemma_filter_contains_rev(keep, c);
        }
        if curves.contains(c) && !curve_hit(c, e0, e1) {
            let i = choose|i: int| 0 <= i < curves.len() && curves[i] == c;
            curves.lemma_filter_contains(keep, i);
        }
    }
    if forall|i: int| 0 <= i < curves.len() ==> !curve_hit(#[trigger] curves[i], e0, e1) {
        lemma_filter_all(curves, keep);
    }
}

/// A filter that every element passes keeps the sequence.
proof fn lemma_filter_all(s: Seq<CurveModel>, keep: spec_fn(CurveModel) -> bool)
    requires
        forall|i: int| 0 <= i < s.len() ==> keep(#[trigger] s[i]),
    ensures
        s.filter(keep) == s,
    decreases s.len(),
{
    reveal(Seq::filter);
    if s.len() > 0 {
        lemma_filter_all(s.drop_last(), keep);
        assert(s.drop_last().push(s.last()) =~= s);
    }
}

} // verus!
