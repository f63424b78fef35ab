//! The persistent viewport state, its transform between canvas and screen
//! space, and the per-frame interaction update.
use crate::geometry::{in_coord_bound, lemma_div_shrinks, div_floor, fmul, in_bound, abs, mul_fixed, Pos2, Vec2, COORD_BOUND, UNIT};
use vstd::arithmetic::div_mod::lemma_fundamental_div_mod;
use vstd::prelude::*;

verus! {

/// Multiplier on the raw scroll delta, in units (one).
pub const SCROLL_SPEED: i64 = UNIT;

/// Multiplier on the zoom gesture delta, in units (one).
pub const ZOOM_SPEED: i64 = UNIT;

/// Largest valid scale, in units (ten).
pub const MAX_SCALE: i64 = 10 * UNIT;

/// Largest valid magnitude of each shift component, in units.
pub const SHIFT_BOUND: i64 = 100_000 * UNIT;

/// Which way the vertical screen axis runs relative to the canvas axis.
#[derive(Debug, Clone, Copy, PartialEq, Eq, Structural)]
pub enum Origin {
    TopLeft,
    BottomLeft,
}

/// Scale and pan of one canvas widget.
#[derive(Debug, Clone, Copy, PartialEq, Eq, Structural)]
pub struct VisCanvasStateInner {
    pub origin: Origin,
    /// Zoom factor, in units.
    pub current_scale: i64,
    /// Screen-space pan offset, in units.
    pub shift: Vec2,
}

/// What one frame of input reports about the canvas area.
#[derive(Debug, Clone, Copy, PartialEq, Eq, Structural)]
pub struct FrameInput {
    /// The drag delta of this frame, when the area is dragged with the middle button.
    pub middle_drag: Option<Vec2>,
    /// The pointer position, when it hovers the area.
    pub hover_pos: Option<Pos2>,
    /// The screen position of the area's top-left corner.
    pub area_min: Pos2,
    /// The raw scroll delta of this frame.
    pub scroll_delta: Vec2,
    /// The multiplicative zoom gesture delta, in units (`UNIT` is no zoom).
    pub zoom_delta: i64,
}

impl FrameInput {
    pub open spec fn wf(self) -> bool {
        &&& (self.middle_drag matches Some(d) ==> d.within(COORD_BOUND as int))
        &&& (self.hover_pos matches Some(h) ==> h.within(COORD_BOUND as int))
        &&& self.area_min.within(COORD_BOUND as int)
        &&& self.scroll_delta.within(COORD_BOUND as int)
        &&& in_bound(self.zoom_delta as int, COORD_BOUND as int)
    }

    /// Whether every position and delta lies within `COORD_BOUND`.
    pub fn is_wf(&self) -> (r: bool)
        ensures
            r == self.wf(),
    {
        let drag_ok = match self.middle_drag {
            Some(d) => d.in_coord_bound(),
            None => true,
        };
        let hover_ok = match self.hover_pos {
            Some(h) => h.in_coord_bound(),
            None => true,
        };
        drag_ok && hover_ok && self.area_min.in_coord_bound() && self.scroll_delta.in_coord_bound()
            && in_coord_bound(self.zoom_delta)
    }
}

/// Scale and shift within the limits every stored state keeps.
pub open spec fn values_valid(v: (int, int, int)) -> bool {
    &&& 0 <= v.0 <= MAX_SCALE
    &&& in_bound(v.1, SHIFT_BOUND as int)
    &&& in_bound(v.2, SHIFT_BOUND as int)
}

/// Cursor-anchored zoom of `(scale, shift)` by factor `d` about `(px, py)`:
/// `scale * d` and `shift * d + pos * (1 - d)`.
pub open spec fn zoom_values(s: int, x: int, y: int, px: int, py: int, d: int) -> (int, int, int) {
    (fmul(s, d), fmul(x, d) + fmul(px, UNIT - d), fmul(y, d) + fmul(py, UNIT - d))
}

impl VisCanvasStateInner {
    pub open spec fn valid(self) -> bool {
        values_valid((self.current_scale as int, self.shift.x as int, self.shift.y as int))
    }

    pub open spec fn scale_y(self) -> int {
        match self.origin {
            Origin::TopLeft => self.current_scale as int,
            Origin::BottomLeft => -self.current_scale,
        }
    }

    /// Canvas x to area-relative screen x.
    pub open spec fn area_x(self, px: int) -> int {
        fmul(px, self.current_scale as int) + self.shift.x
    }

    /// Canvas y to area-relative screen y.
    pub open spec fn area_y(self, py: int) -> int {
        fmul(py, self.scale_y()) + self.shift.y
    }

    /// Canvas point to screen point, for an area whose corner is at `clip`.
    pub open spec fn screen_of(self, p: Pos2, clip: Pos2) -> Pos2 {
        Pos2 { x: (clip.x + self.area_x(p.x as int)) as i64, y: (clip.y + self.area_y(p.y as int)) as i64 }
    }

    /// Area-relative screen x back to canvas x (rounded down).
    pub open spec fn canvas_x(self, qx: int) -> int {
        ((qx - self.shift.x) * UNIT) / (self.current_scale as int)
    }

    /// Area-relative screen y back to canvas y (rounded toward the shift).
    pub open spec fn canvas_y(self, qy: int) -> int {
        match self.origin {
            Origin::TopLeft => ((qy - self.shift.y) * UNIT) / (self.current_scale as int),
            Origin::BottomLeft => -(((qy - self.shift.y) * UNIT) / (self.current_scale as int)),
        }
    }

    /// Scale and shift after the pan, scroll and zoom of one frame, before
    /// validation.
    pub open spec fn frame_values(self, input: FrameInput) -> (int, int, int) {
        let x0: int = match input.middle_drag {
            Some(d) => self.shift.x + d.x,
            None => self.shift.x as int,
        };
        let y0: int = match input.middle_drag {
            Some(d) => self.shift.y + d.y,
            None => self.shift.y as int,
        };
        match input.hover_pos {
            None => (self.current_scale as int, x0, y0),
            Some(h) => zoom_values(
                self.current_scale as int,
                x0 + fmul(input.scroll_delta.x as int, SCROLL_SPEED as int),
                y0 + fmul(input.scroll_delta.y as int, SCROLL_SPEED as int),
                h.x - input.area_min.x,
                h.y - input.area_min.y,
                fmul(input.zoom_delta as int, ZOOM_SPEED as int),
            ),
        }
    }

    /// The state after one frame: the updated values when they are valid, the
    /// unchanged state otherwise.
    pub open spec fn after_frame(self, input: FrameInput) -> VisCanvasStateInner {
        let v = self.frame_values(input);
        if values_valid(v) {
            VisCanvasStateInner {
                origin: self.origin,
                current_scale: v.0 as i64,
                shift: Vec2 { x: v.1 as i64, y: v.2 as i64 },
            }
        } else {
            self
        }
    }

    /// The per-axis scale: the vertical one is negated under a bottom-left origin.
    pub fn current_scale_vec(&self) -> (r: Vec2)
        requires
            self.valid(),
        ensures
            r.x == self.current_scale,
            r.y == self.scale_y(),
    {
        match self.origin {
            Origin::TopLeft => Vec2 { x: self.current_scale, y: self.current_scale },
            Origin::BottomLeft => Vec2 { x: self.current_scale, y: -self.current_scale },
        }
    }

    pub fn is_valid(&self) -> (r: bool)
        ensures
            r == self.valid(),
    {
        0 <= self.current_scale && self.current_scale <= MAX_SCALE && -SHIFT_BOUND <= self.shift.x
            && self.shift.x <= SHIFT_BOUND && -SHIFT_BOUND <= self.shift.y && self.shift.y <= SHIFT_BOUND
    }

    /// Maps a canvas point to the screen, for an area whose corner is at `clip`.
    pub fn to_screen(&self, p: Pos2, clip: Pos2) -> (r: Pos2)
        requires
            self.valid(),
            p.within(COORD_BOUND as int),
            clip.within(COORD_BOUND as int),
        ensures
            r == self.screen_of(p, clip),
            r.within(12 * COORD_BOUND),
    {
        let sv = self.current_scale_vec();
        let ax = mul_fixed(p.x as i128, sv.x as i128);
        let ay = mul_fixed(p.y as i128, sv.y as i128);
        proof {
            lemma_fmul_bound(p.x as int, sv.x as int);
            lemma_fmul_bound(p.y as int, sv.y as int);
        }
        Pos2 { x: clip.x + (ax as i64 + self.shift.x), y: clip.y + (ay as i64 + self.shift.y) }
    }

    /// Maps an area-relative screen point back to canvas space; `None` when
    /// the scale is zero and the map has no inverse.
    pub fn to_canvas(&self, q: Pos2) -> (r: Option<Pos2>)
        requires
            self.valid(),
            q.within(COORD_BOUND as int),
        ensures
            r is None <==> self.current_scale == 0,
            r matches Some(c) ==> c.x == self.canvas_x(q.x as int) && c.y == self.canvas_y(q.y as int),
    {
        if self.current_scale == 0 {
            return None;
        }
        let s = self.current_scale as i128;
        proof {
            let dx = q.x - self.shift.x;
            let dy = q.y - self.shift.y;
            assert(in_bound(dx * UNIT, 2 * UNIT * COORD_BOUND)) by (nonlinear_arith)
                requires in_bound(dx, 2 * COORD_BOUND);
            assert(in_bound(dy * UNIT, 2 * UNIT * COORD_BOUND)) by (nonlinear_arith)
                requires in_bound(dy, 2 * COORD_BOUND);
        }
        let nx = (q.x as i128 - self.shift.x as i128) * (UNIT as i128);
        let ny = (q.y as i128 - self.shift.y as i128) * (UNIT as i128);
        let cx = div_floor(nx, s);
        let cy0 = div_floor(ny, s);
        proof {
            lemma_div_shrinks(nx as int, s as int);
            lemma_div_shrinks(ny as int, s as int);
        }
        let cy = match self.origin {
            Origin::TopLeft => cy0,
            Origin::BottomLeft => -cy0,
        };
        Some(Pos2 { x: cx as i64, y: cy as i64 })
    }

    /// Applies one frame of input: middle-button drag pans, then, under hover,
    /// scroll pans and the zoom gesture zooms about the pointer. When the
    /// result leaves the valid range, the whole frame is discarded.
    pub fn apply_input(&mut self, input: &FrameInput)
        requires
            old(self).valid(),
            input.wf(),
        ensures
            *final(self) == old(self).after_frame(*input),
            final(self).valid(),
    {
        let mut x: i128 = self.shift.x as i128;
        let mut y: i128 = self.shift.y as i128;
        let mut s: i128 = self.current_scale as i128;
        if let Some(d) = input.middle_drag {
            x = x + d.x as i128;
            y = y + d.y as i128;
        }
        if let Some(h) = input.hover_pos {
            x = x + mul_fixed(input.scroll_delta.x as i128, SCROLL_SPEED as i128);
            y = y + mul_fixed(input.scroll_delta.y as i128, SCROLL_SPEED as i128);
            let d = mul_fixed(input.zoom_delta as i128, ZOOM_SPEED as i128);
            proof {
                lemma_fmul_unit(input.scroll_delta.x as int);
                lemma_fmul_unit(input.scroll_delta.y as int);
                lemma_fmul_unit(input.zoom_delta as int);
            }
            let px = h.x as i128 - input.area_min.x as i128;
            let py = h.y as i128 - input.area_min.y as i128;
            let s2 = mul_fixed(s, d);
            let x2 = mul_fixed(x, d) + mul_fixed(px, UNIT as i128 - d);
            let y2 = mul_fixed(y, d) + mul_fixed(py, UNIT as i128 - d);
            s = s2;
            x = x2;
            y = y2;
        }
        if 0 <= s && s <= MAX_SCALE as i128 && -(SHIFT_BOUND as i128) <= x && x <= SHIFT_BOUND as i128
            && -(SHIFT_BOUND as i128) <= y && y <= SHIFT_BOUND as i128 {
            self.current_scale = s as i64;
            self.shift = Vec2 { x: x as i64, y: y as i64 };
        }
    }
}

impl Default for VisCanvasStateInner {
    /// Scale 1, no shift, top-left origin.
    fn default() -> (r: VisCanvasStateInner)
        ensures
            r == (VisCanvasStateInner { origin: Origin::TopLeft, current_scale: UNIT, shift: Vec2 { x: 0, y: 0 } }),
    {
        VisCanvasStateInner { origin: Origin::TopLeft, current_scale: UNIT, shift: Vec2 { x: 0, y: 0 } }
    }
}

proof fn lemma_fmul_unit(a: int)
    ensures
        fmul(a, UNIT as int) == a,
{
    lemma_fundamental_div_mod(a * UNIT, UNIT as int);
    assert(fmul(a, UNIT as int) == a) by (nonlinear_arith)
        requires
            a * UNIT == UNIT * ((a * UNIT) / (UNIT as int)) + (a * UNIT) % (UNIT as int),
            0 <= (a * UNIT) % (UNIT as int) < UNIT,
            fmul(a, UNIT as int) == (a * UNIT) / (UNIT as int),
    ;
}

/// A canvas coordinate times a valid scale stays well inside the screen bound.
pub proof fn lemma_fmul_bound(a: int, s: int)
    requires
        in_bound(a, COORD_BOUND as int),
        in_bound(s, MAX_SCALE as int),
    ensures
        in_bound(fmul(a, s), 10 * COORD_BOUND),
{
    let p = a * s;
    lemma_fundamental_div_mod(p, UNIT as int);
    assert(in_bound(p, 10_000_000 * COORD_BOUND)) by (nonlinear_arith)
        requires in_bound(a, COORD_BOUND as int), in_bound(s, MAX_SCALE as int), p == a * s;
    assert(in_bound(fmul(a, s), 10 * COORD_BOUND)) by (nonlinear_arith)
        requires
            p == UNIT * (p / (UNIT as int)) + p % (UNIT as int),
            0 <= p % (UNIT as int) < UNIT,
            in_bound(p, 10_000_000 * COORD_BOUND),
            fmul(a, s) == p / (UNIT as int),
    ;
}

/// Round trip: mapping a canvas point to the area and back gives the point
/// again, up to one step of the scaled grid, for either origin:
/// `|back - p| * scale < UNIT + scale`.
pub proof fn lemma_round_trip(st: VisCanvasStateInner, p: Pos2)
    requires
        st.valid(),
        st.current_scale > 0,
    ensures
        abs(st.canvas_x(st.area_x(p.x as int)) - p.x) * st.current_scale < UNIT + st.current_scale,
        abs(st.canvas_y(st.area_y(p.y as int)) - p.y) * st.current_scale < UNIT + st.current_scale,
{
    let s = st.current_scale as int;
    let u = UNIT as int;
    lemma_round_trip_axis(p.x as int, s);
    assert(st.canvas_x(st.area_x(p.x as int)) == (fmul(p.x as int, s) * u) / s);
    let m = fmul(p.y as int, st.scale_y());
    assert(st.canvas_y(st.area_y(p.y as int)) == match st.origin {
        Origin::TopLeft => (m * u) / s,
        Origin::BottomLeft => -((m * u) / s),
    });
    match st.origin {
        Origin::TopLeft => {
            lemma_round_trip_axis(p.y as int, s);
        },
        Origin::BottomLeft => {
            lemma_round_trip_axis(-p.y, s);
            assert((-p.y) * s == p.y * (-s)) by (nonlinear_arith);
        },
    }
}

proof fn lemma_round_trip_axis(p: int, s: int)
    requires
        s > 0,
    ensures
        0 <= p - (fmul(p, s) * UNIT) / s,
        (p - (fmul(p, s) * UNIT) / s) * s < UNIT + s,
{
    let u = UNIT as int;
    let m = fmul(p, s);
    let q = (m * u) / s;
    lemma_fundamental_div_mod(p * s, u);
    lemma_fundamental_div_mod(m * u, s);
    assert(0 <= p - q && (p - q) * s < u + s) by (nonlinear_arith)
        requires
            p * s == u * m + (p * s) % u,
            0 <= (p * s) % u < u,
            m * u == s * q + (m * u) % s,
            0 <= (m * u) % s < s,
            s > 0,
    ;
}

/// Zoom anchoring: zooming by `d` about the area-relative pointer position
/// `(px, py)` keeps the canvas point under the pointer in place. The new
/// scale is `scale * d` and the new shift is `pos - (pos - shift) * d`, each
/// exact up to the rounding of the fixed-point grid (below one unit for the
/// scale, below two for each shift component), so that
/// `(pos - shift') / scale'` equals `(pos - shift) / scale`.
pub proof fn lemma_zoom_anchored(s: int, x: int, y: int, px: int, py: int, d: int)
    ensures
        ({
            let z = zoom_values(s, x, y, px, py, d);
            &&& 0 <= s * d - UNIT * z.0 < UNIT
            &&& 0 <= UNIT * (px - z.1) - d * (px - x) < 2 * UNIT
            &&& 0 <= UNIT * (py - z.2) - d * (py - y) < 2 * UNIT
        }),
{
    let u = UNIT as int;
    lemma_fundamental_div_mod(s * d, u);
    lemma_zoom_axis(x, px, d);
    lemma_zoom_axis(y, py, d);
}

proof fn lemma_zoom_axis(x: int, px: int, d: int)
    ensures
        0 <= UNIT * (px - (fmul(x, d) + fmul(px, UNIT - d))) - d * (px - x) < 2 * UNIT,
{
    let u = UNIT as int;
    lemma_fundamental_div_mod(x * d, u);
    lemma_fundamental_div_mod(px * (u - d), u);
    assert(0 <= u * (px - (fmul(x, d) + fmul(px, u - d))) - d * (px - x) < 2 * u) by (nonlinear_arith)
        requires
            x * d == u * fmul(x, d) + (x * d) % u,
            0 <= (x * d) % u < u,
            px * (u - d) == u * fmul(px, u - d) + (px * (u - d)) % u,
            0 <= (px * (u - d)) % u < u,
    ;
}

/// Atomic rollback: when the pan, scroll and zoom of one frame together leave
/// the valid range, the state after the frame is exactly the state before it,
/// not a clamped one.
pub proof fn lemma_invalid_frame_rolls_back(st: VisCanvasStateInner, input: FrameInput)
    requires
        !values_valid(st.frame_values(input)),
    ensures
        st.after_frame(input) == st,
{
}

/// A frame whose result is valid commits every update at once.
pub proof fn lemma_valid_frame_commits(st: VisCanvasStateInner, input: FrameInput)
    requires
        values_valid(st.frame_values(input)),
    ensures
        st.after_frame(input).current_scale == st.frame_values(input).0,
        st.after_frame(input).shift.x == st.frame_values(input).1,
        st.after_frame(input).shift.y == st.frame_values(input).2,
        st.after_frame(input).origin == st.origin,
{
}

} // verus!
