//! The decisions of the Infwinity Wayland compositor: where outputs and windows sit on
//! the infinite canvas, how the canvas pans from frame to frame, and how the compositor
//! reacts to the events of its windowing backend.
use vstd::prelude::*;

pub mod backends;
pub mod geometry;
pub mod util;

use crate::geometry::{saturate_i32, saturating_sub, Point, Size};
use crate::util::{canvas_center, CanvasCoords};

verus! {

/// What the compositor reads of an output: the size of its current mode, in physical
/// pixels, if it has one, and its integer scale (at least 1).
#[derive(Debug, Clone, Copy, PartialEq, Eq, Structural)]
pub struct OutputInfo {
    mode: Option<Size>,
    scale: i32,
}

impl OutputInfo {
    #[verifier::type_invariant]
    spec fn scale_positive(self) -> bool {
        self.scale >= 1
    }

    /// The physical size of the output's current mode, if it has one.
    pub closed spec fn mode(self) -> Option<Size> {
        self.mode
    }

    /// The output's integer scale.
    pub closed spec fn scale(self) -> int {
        self.scale as int
    }

    pub fn new(mode: Option<Size>, scale: i32) -> (o: OutputInfo)
        requires
            scale >= 1,
        ensures
            o.mode() == mode,
            o.scale() == scale,
            valid_output(o),
    {
        let o = OutputInfo { mode, scale };
        proof {
            if let Some(m) = mode {
                use_type_invariant(&m);
                m.lemma_non_negative();
            }
        }
        o
    }

    pub fn current_mode(&self) -> (r: Option<Size>)
        ensures
            r == self.mode(),
            r matches Some(m) ==> m.width() >= 0 && m.height() >= 0,
    {
        match self.mode {
            Some(m) => {
                proof {
                    use_type_invariant(&m);
                    m.lemma_non_negative();
                }
                Some(m)
            },
            None => None,
        }
    }

    pub fn integer_scale(&self) -> (r: i32)
        ensures
            r == self.scale(),
            r >= 1,
    {
        proof {
            use_type_invariant(self);
        }
        self.scale
    }
}

/// Half the logical size of the output's current mode (no size where it has no mode):
/// how far the output's top-left corner lies from its center.
pub open spec fn output_half_extent(o: OutputInfo) -> (int, int) {
    match o.mode() {
        Some(m) => ((m.width() as int / o.scale()) / 2, (m.height() as int / o.scale()) / 2),
        None => (0, 0),
    }
}

/// Where an output is mapped so that its center lies at the canvas center.
pub open spec fn centered_output_location(o: OutputInfo) -> (int, int) {
    (canvas_center() - output_half_extent(o).0, canvas_center() - output_half_extent(o).1)
}

/// Where an output is mapped after the canvas has been panned by `(pan_x, pan_y)`
/// (the subtraction saturating at the bounds of `i32`).
pub open spec fn panned_output_location(o: OutputInfo, pan_x: int, pan_y: int) -> (int, int) {
    (
        saturate_i32(canvas_center() - (output_half_extent(o).0 + pan_x)),
        saturate_i32(canvas_center() - (output_half_extent(o).1 + pan_y)),
    )
}

/// The pan can be added to the output's half extent within the `i32` range.
pub open spec fn pan_in_range(o: OutputInfo, pan_x: int, pan_y: int) -> bool {
    &&& i32::MIN <= output_half_extent(o).0 + pan_x <= i32::MAX
    &&& i32::MIN <= output_half_extent(o).1 + pan_y <= i32::MAX
}

/// Where a window of the given geometry size is mapped so that its center lies at the
/// canvas origin.
pub open spec fn centered_window_location(size: Size) -> (int, int) {
    (canvas_center() - size.width() as int / 2, canvas_center() - size.height() as int / 2)
}

/// The compositor itself
///
/// This struct maintains the compositor's state, which is affected
/// by the event loop: whether the loop is to keep running.
pub struct Infwinity {
    running: bool,
}

impl Infwinity {
    /// Whether the compositor's event loop is to keep running.
    pub closed spec fn running(self) -> bool {
        self.running
    }

    /// Creates a new instance of the compositor, with its event loop running.
    pub fn new() -> (c: Infwinity)
        ensures
            c.running(),
    {
        Infwinity { running: true }
    }

    pub fn is_running(&self) -> (r: bool)
        ensures
            r == self.running(),
    {
        self.running
    }

    /// Stops the compositor's event loop.
    pub fn shutdown(&mut self)
        ensures
            !final(self).running(),
    {
        self.running = false;
    }

    /// Half the logical size of the output's current mode.
    fn output_offset(output: &OutputInfo) -> (s: Size)
        ensures
            s.width() == output_half_extent(*output).0,
            s.height() == output_half_extent(*output).1,
            s.width() >= 0,
            s.height() >= 0,
    {
        let scale = output.integer_scale();
        match output.current_mode() {
            Some(size) => size.to_logical(scale).downscale(2),
            None => Size::new(0, 0),
        }
    }

    /// Registers the provided output to the canvas: returns the location at which it is
    /// mapped, so that its center lies at the center of the canvas.
    pub fn register_output(&self, output: &OutputInfo) -> (loc: Point)
        ensures
            loc.x == centered_output_location(*output).0,
            loc.y == centered_output_location(*output).1,
            loc.x + output_half_extent(*output).0 == canvas_center(),
            loc.y + output_half_extent(*output).1 == canvas_center(),
    {
        let offset = Self::output_offset(output);
        CanvasCoords::center().sub_size(offset)
    }

    /// Adds a window to our canvas
    ///
    /// The provided window will be positioned at canvas origin: returns the location at
    /// which a window of the given geometry size is mapped so that its center lies there.
    pub fn register_window(&self, geometry: Size) -> (loc: Point)
        ensures
            loc.x == centered_window_location(geometry).0,
            loc.y == centered_window_location(geometry).1,
            loc.x + geometry.width() as int / 2 == canvas_center(),
            loc.y + geometry.height() as int / 2 == canvas_center(),
    {
        let offset = geometry.downscale(2);
        CanvasCoords::center().sub_size(offset)
    }

    /// To be called after a frame has been rendered on the provided output: returns the
    /// location at which the output is mapped, the canvas having panned by
    /// `(pan_x, pan_y)` away from the centered position.
    pub fn after_frame_rendered(&self, output: &OutputInfo, pan_x: i32, pan_y: i32) -> (loc: Point)
        requires
            pan_in_range(*output, pan_x as int, pan_y as int),
        ensures
            loc.x == panned_output_location(*output, pan_x as int, pan_y as int).0,
            loc.y == panned_output_location(*output, pan_x as int, pan_y as int).1,
    {
        let offset = Self::output_offset(output);
        let w = offset.w() + pan_x;
        let h = offset.h() + pan_y;
        let center = CanvasCoords::center();
        Point::new(saturating_sub(center.x, w), saturating_sub(center.y, h))
    }
}

/// What every `OutputInfo` satisfies: a scale of at least 1 and a mode of non-negative size.
pub open spec fn valid_output(o: OutputInfo) -> bool {
    &&& o.scale() >= 1
    &&& o.mode() matches Some(m) ==> m.width() >= 0 && m.height() >= 0
}

/// The half extent of a valid output is at most half the positive `i32` range.
proof fn lemma_half_extent_bounds(o: OutputInfo)
    requires
        valid_output(o),
    ensures
        0 <= output_half_extent(o).0 <= canvas_center(),
        0 <= output_half_extent(o).1 <= canvas_center(),
{
    if let Some(m) = o.mode() {
        let s = o.scale();
        let w = m.width() as int;
        let h = m.height() as int;
        assert(0 <= w / s <= w) by (nonlinear_arith)
            requires
                w >= 0,
                s >= 1,
        ;
        assert(0 <= h / s <= h) by (nonlinear_arith)
            requires
                h >= 0,
                s >= 1,
        ;
    }
}

/// Halving a size at a scale: `h` is half of `w` at scale `s`, rounded down, exactly when
/// `2 * h * s <= w < (2 * h + 2) * s`.
proof fn lemma_halved_at_scale(w: int, s: int)
    requires
        w >= 0,
        s >= 1,
    ensures
        2 * ((w / s) / 2) * s <= w,
        w < (2 * ((w / s) / 2) + 2) * s,
{
    let q = w / s;
    let h = q / 2;
    assert(q * s <= w < q * s + s) by (nonlinear_arith)
        requires
            w >= 0,
            s >= 1,
            q == w / s,
    ;
    assert(2 * h <= q <= 2 * h + 1);
    assert(2 * h * s <= q * s) by (nonlinear_arith)
        requires
            2 * h <= q,
            s >= 1,
    ;
    assert(q * s + s <= (2 * h + 2) * s) by (nonlinear_arith)
        requires
            q <= 2 * h + 1,
            s >= 1,
    ;
}

/// An output is centered by half of its logical size: on each axis on its own, the
/// offset from the canvas center is the mode's extent on that axis divided by the scale
/// and halved, rounded down, for every mode and every scale. That is, with the mode
/// `w x h` at scale `s`, the offsets `(ox, oy)` are the only numbers with
/// `2 * ox * s <= w < (2 * ox + 2) * s` and `2 * oy * s <= h < (2 * oy + 2) * s`. An
/// output without a mode is centered on its top-left corner.
pub proof fn lemma_output_centered_by_half_logical_size(o: OutputInfo)
    requires
        valid_output(o),
    ensures
        o.mode() matches Some(m) ==> {
            let ox = canvas_center() - centered_output_location(o).0;
            let oy = canvas_center() - centered_output_location(o).1;
            &&& 0 <= ox
            &&& 0 <= oy
            &&& 2 * ox * o.scale() <= m.width()
            &&& m.width() < (2 * ox + 2) * o.scale()
            &&& 2 * oy * o.scale() <= m.height()
            &&& m.height() < (2 * oy + 2) * o.scale()
        },
        o.mode() is None ==> centered_output_location(o) == (canvas_center(), canvas_center()),
{
    lemma_half_extent_bounds(o);
    if let Some(m) = o.mode() {
        lemma_halved_at_scale(m.width() as int, o.scale());
        lemma_halved_at_scale(m.height() as int, o.scale());
    }
}

/// After a frame panned by `(pan_x, pan_y)`, the output sits against the pan from where
/// half its logical size centers it: the offsets `(ox, oy)` of the location from the
/// canvas center, less the pan, satisfy `2 * ox * s <= w < (2 * ox + 2) * s` and
/// `2 * oy * s <= h < (2 * oy + 2) * s` for the mode `w x h` at scale `s`, on every
/// output and for every pan whose result lies within `i32`.
pub proof fn lemma_panned_output_by_half_logical_size(o: OutputInfo, pan_x: int, pan_y: int)
    requires
        valid_output(o),
        i32::MIN <= centered_output_location(o).0 - pan_x <= i32::MAX,
        i32::MIN <= centered_output_location(o).1 - pan_y <= i32::MAX,
    ensures
        o.mode() matches Some(m) ==> {
            let ox = canvas_center() - panned_output_location(o, pan_x, pan_y).0 - pan_x;
            let oy = canvas_center() - panned_output_location(o, pan_x, pan_y).1 - pan_y;
            &&& 2 * ox * o.scale() <= m.width()
            &&& m.width() < (2 * ox + 2) * o.scale()
            &&& 2 * oy * o.scale() <= m.height()
            &&& m.height() < (2 * oy + 2) * o.scale()
        },
        o.mode() is None ==> panned_output_location(o, pan_x, pan_y) == (
            canvas_center() - pan_x,
            canvas_center() - pan_y,
        ),
{
    lemma_output_centered_by_half_logical_size(o);
}

/// A frame rendered without panning maps the output where registering it did.
pub proof fn lemma_unpanned_frame_is_centered(o: OutputInfo)
    requires
        valid_output(o),
    ensures
        panned_output_location(o, 0, 0) == centered_output_location(o),
{
    lemma_half_extent_bounds(o);
}

/// Panning the canvas by `(pan_x, pan_y)` moves the output by the opposite amount from
/// its centered position, as long as the result stays within `i32`.
pub proof fn lemma_pan_moves_output(o: OutputInfo, pan_x: int, pan_y: int)
    requires
        i32::MIN <= centered_output_location(o).0 - pan_x <= i32::MAX,
        i32::MIN <= centered_output_location(o).1 - pan_y <= i32::MAX,
    ensures
        panned_output_location(o, pan_x, pan_y).0 == centered_output_location(o).0 - pan_x,
        panned_output_location(o, pan_x, pan_y).1 == centered_output_location(o).1 - pan_y,
{
}

/// The location of a frame depends on nothing but the output's mode and scale and the
/// pan: not on the compositor's state, nor on where the output was mapped before.
pub proof fn lemma_frame_location_depends_only_on_output_and_pan(
    o1: OutputInfo,
    o2: OutputInfo,
    pan_x: int,
    pan_y: int,
)
    requires
        o1.mode() == o2.mode(),
        o1.scale() == o2.scale(),
    ensures
        panned_output_location(o1, pan_x, pan_y) == panned_output_location(o2, pan_x, pan_y),
{
}

/// Every pan of a valid output by `i32` amounts no larger than the room left right of the
/// canvas center is accepted by `after_frame_rendered`.
pub proof fn lemma_pan_in_range(o: OutputInfo, pan_x: i32, pan_y: i32)
    requires
        valid_output(o),
        pan_x <= i32::MAX - canvas_center(),
        pan_y <= i32::MAX - canvas_center(),
    ensures
        pan_in_range(o, pan_x as int, pan_y as int),
{
    lemma_half_extent_bounds(o);
}

/// A registered output, and a registered window, lie within the positive canvas range,
/// with their top-left corner no further right or down than the canvas center.
pub proof fn lemma_registered_locations_on_canvas(o: OutputInfo, window: Size)
    requires
        valid_output(o),
        window.width() >= 0,
        window.height() >= 0,
    ensures
        0 <= centered_output_location(o).0 <= canvas_center(),
        0 <= centered_output_location(o).1 <= canvas_center(),
        0 <= centered_window_location(window).0 <= canvas_center(),
        0 <= centered_window_location(window).1 <= canvas_center(),
{
    lemma_half_extent_bounds(o);
}

} // verus!
