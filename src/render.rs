//! Projection of shapes from canvas space to screen-space draw commands.
use crate::content::{Circle, Content, Image, PiecewiseSegment, Rectangle, Segment, SegmentAccent, SegmentData};
use crate::error::VisCanvasError;
use crate::geometry::{
    abs, along, along_grid, fmul, in_bound, mul_fixed, rot_minus, rot_plus, Color, Pos2, Stroke, Vec2,
    COORD_BOUND, SCREEN_BOUND,
};
use crate::state::VisCanvasStateInner;
use vstd::prelude::*;

verus! {

/// Where a label sits relative to its anchor point.
#[derive(Debug, Clone, Copy, PartialEq, Eq, Structural)]
pub enum Align {
    /// The text's bottom-left corner is at the anchor.
    LeftBottom,
    /// The text is centred on the anchor.
    CenterCenter,
}

/// The state of an image's bitmap this frame.
#[derive(Debug, Clone, PartialEq, Eq)]
pub enum ImagePoll {
    /// Not loaded yet: nothing is drawn this frame.
    Pending,
    /// Loaded, with its native size in units.
    Ready { size: Vec2 },
    /// Could not be loaded, with the reason.
    Failed(String),
}

impl ImagePoll {
    /// Whether a ready bitmap's size lies within `COORD_BOUND`.
    pub fn is_wf(&self) -> (r: bool)
        ensures
            r == poll_wf(*self),
    {
        match self {
            ImagePoll::Ready { size } => size.in_coord_bound(),
            _ => true,
        }
    }
}

/// One screen-space drawing primitive.
#[derive(Debug, Clone, PartialEq, Eq)]
pub enum DrawCommand {
    /// A filled and outlined axis-aligned rectangle.
    Rect { min: Pos2, max: Pos2, fill: Color, stroke: Stroke },
    /// A filled and outlined circle.
    Circle { center: Pos2, radius: i64, fill: Color, stroke: Stroke },
    /// A black label: when `plate` is set, the text is drawn, its bounding
    /// box is painted with `plate`, and the text is drawn again on top.
    Label { anchor: Pos2, align: Align, text: String, plate: Option<Color> },
    /// A click-sensitive region.
    Sense { min: Pos2, max: Pos2 },
    /// A filled triangle.
    Triangle { a: Pos2, b: Pos2, c: Pos2, fill: Color },
    /// A straight line.
    Line { start: Pos2, end: Pos2, stroke: Stroke },
    /// The bitmap of the `index`-th image of the content list.
    Image { index: usize, min: Pos2, size: Vec2 },
}

/// The draw commands of one frame, and the failure that stopped it, if any.
#[derive(Debug, Clone)]
pub struct Rendered {
    pub commands: Vec<DrawCommand>,
    pub failure: Option<VisCanvasError>,
}

pub open spec fn min_i64(a: i64, b: i64) -> i64 {
    if a <= b { a } else { b }
}

pub open spec fn max_i64(a: i64, b: i64) -> i64 {
    if a <= b { b } else { a }
}

/// The outline actually drawn: an unset outline has width zero.
pub open spec fn outline(s: Option<Stroke>) -> Stroke {
    match s {
        Some(st) => st,
        None => Stroke { width: 0, color: Color { r: 0, g: 0, b: 0, a: 255 } },
    }
}

/// The fill actually drawn: an unset fill is transparent.
pub open spec fn fill_of(c: Option<Color>) -> Color {
    match c {
        Some(col) => col,
        None => Color { r: 0, g: 0, b: 0, a: 0 },
    }
}

pub open spec fn label_cmds(label: Option<String>, anchor: Pos2, align: Align, plate: Option<Color>) -> Seq<DrawCommand> {
    match label {
        Some(text) => seq![DrawCommand::Label { anchor, align, text, plate }],
        None => seq![],
    }
}

pub open spec fn offset(p: Pos2, v: (int, int)) -> Pos2 {
    Pos2 { x: (p.x + v.0) as i64, y: (p.y + v.1) as i64 }
}

/// The arrowhead at `point` for a line leaving it in direction `v`: the
/// triangle of `point` and the two wing points at `5 * width` from it, at
/// -45 and +45 degrees from `v`.
pub open spec fn arrow_triangle(point: Pos2, vx: int, vy: int, width: int, color: Color) -> DrawCommand {
    let w1 = rot_plus(vx, vy);
    let w2 = rot_minus(vx, vy);
    DrawCommand::Triangle {
        a: point,
        b: offset(point, along(w2.0, w2.1, 5 * width)),
        c: offset(point, along(w1.0, w1.1, 5 * width)),
        fill: color,
    }
}

pub open spec fn rect_corners(r: Rectangle, st: VisCanvasStateInner, clip: Pos2) -> (Pos2, Pos2) {
    let a = st.screen_of(Pos2 { x: r.x, y: r.y }, clip);
    let b = st.screen_of(Pos2 { x: (r.x + r.width) as i64, y: (r.y + r.height) as i64 }, clip);
    (
        Pos2 { x: min_i64(a.x, b.x), y: min_i64(a.y, b.y) },
        Pos2 { x: max_i64(a.x, b.x), y: max_i64(a.y, b.y) },
    )
}

pub open spec fn rect_cmds(r: Rectangle, st: VisCanvasStateInner, clip: Pos2) -> Seq<DrawCommand> {
    let (min, max) = rect_corners(r, st, clip);
    seq![DrawCommand::Rect { min, max, fill: fill_of(r.fill_color), stroke: outline(r.stroke) }]
        + label_cmds(r.label, min, Align::LeftBottom, r.fill_color)
        + if r.responsable { seq![DrawCommand::Sense { min, max }] } else { seq![] }
}

pub open spec fn circle_cmds(c: Circle, st: VisCanvasStateInner, clip: Pos2) -> Seq<DrawCommand> {
    let center = st.screen_of(c.center, clip);
    seq![DrawCommand::Circle {
        center,
        radius: fmul(c.radius as int, st.current_scale as int) as i64,
        fill: fill_of(c.fill_color),
        stroke: outline(c.stroke),
    }] + label_cmds(c.label, center, Align::CenterCenter, c.fill_color)
}

/// The visible start of a segment: pulled back by `3 * width` toward the
/// end when the start carries an arrow.
pub open spec fn segment_start(s: Segment, st: VisCanvasStateInner, clip: Pos2) -> Pos2 {
    let a = st.screen_of(s.data.start, clip);
    let b = st.screen_of(s.data.end, clip);
    match s.accents.0 {
        SegmentAccent::Arrow => offset(a, along(b.x - a.x, b.y - a.y, 3 * s.stroke.width)),
        SegmentAccent::Plain => a,
    }
}

/// The visible end of a segment: pulled back by `3 * width` toward the
/// start when the end carries an arrow.
pub open spec fn segment_end(s: Segment, st: VisCanvasStateInner, clip: Pos2) -> Pos2 {
    let a = st.screen_of(s.data.start, clip);
    let b = st.screen_of(s.data.end, clip);
    match s.accents.1 {
        SegmentAccent::Arrow => offset(b, along(a.x - b.x, a.y - b.y, 3 * s.stroke.width)),
        SegmentAccent::Plain => b,
    }
}

/// Squared distance between two points.
pub open spec fn sq_dist(p: Pos2, q: Pos2) -> int {
    (p.x - q.x) * (p.x - q.x) + (p.y - q.y) * (p.y - q.y)
}

/// Squared length of a vector.
pub open spec fn sq_len(v: (int, int)) -> int {
    v.0 * v.0 + v.1 * v.1
}

/// A squared length `sq` is that of a length `k` up to the grid's rounding:
/// within `(|k| + 2)^2`, and at least `(|k| - 4)^2` when that is meaningful.
pub open spec fn near_length(sq: int, k: int, nonzero: bool) -> bool {
    &&& sq <= (abs(k) + 2) * (abs(k) + 2)
    &&& nonzero && abs(k) >= 4 ==> (abs(k) - 4) * (abs(k) - 4) <= sq
}

pub open spec fn segment_cmds(s: Segment, st: VisCanvasStateInner, clip: Pos2) -> Seq<DrawCommand> {
    let a = st.screen_of(s.data.start, clip);
    let b = st.screen_of(s.data.end, clip);
    let w = s.stroke.width as int;
    let head0 = match s.accents.0 {
        SegmentAccent::Arrow => seq![arrow_triangle(a, b.x - a.x, b.y - a.y, w, s.stroke.color)],
        SegmentAccent::Plain => seq![],
    };
    let head1 = match s.accents.1 {
        SegmentAccent::Arrow => seq![arrow_triangle(b, a.x - b.x, a.y - b.y, w, s.stroke.color)],
        SegmentAccent::Plain => seq![],
    };
    head0 + head1 + seq![DrawCommand::Line {
        start: segment_start(s, st, clip),
        end: segment_end(s, st, clip),
        stroke: s.stroke,
    }]
}

pub open spec fn piece_line(p: PiecewiseSegment, st: VisCanvasStateInner, clip: Pos2, i: int) -> DrawCommand {
    DrawCommand::Line {
        start: st.screen_of(p.data@[i].start, clip),
        end: st.screen_of(p.data@[i].end, clip),
        stroke: p.stroke,
    }
}

pub open spec fn piecewise_cmds(p: PiecewiseSegment, st: VisCanvasStateInner, clip: Pos2) -> Seq<DrawCommand> {
    Seq::new(p.data@.len(), |i: int| piece_line(p, st, clip, i))
}

/// An image is drawn at the shifted area corner, at its native size times
/// the scale on both axes, once its bitmap is ready.
pub open spec fn image_cmds(poll: ImagePoll, index: usize, st: VisCanvasStateInner, clip: Pos2) -> Seq<DrawCommand> {
    match poll {
        ImagePoll::Ready { size } => seq![DrawCommand::Image {
            index,
            min: Pos2 { x: (clip.x + st.shift.x) as i64, y: (clip.y + st.shift.y) as i64 },
            size: Vec2 {
                x: fmul(size.x as int, st.current_scale as int) as i64,
                y: fmul(size.y as int, st.current_scale as int) as i64,
            },
        }],
        _ => seq![],
    }
}

pub open spec fn is_image(c: Content) -> bool {
    c matches Content::Image(_)
}

/// How many images the list holds.
pub open spec fn image_count(cs: Seq<Content>) -> nat
    decreases cs.len(),
{
    if cs.len() == 0 {
        0
    } else {
        image_count(cs.drop_last()) + if is_image(cs.last()) { 1nat } else { 0nat }
    }
}

pub open spec fn poll_wf(p: ImagePoll) -> bool {
    p matches ImagePoll::Ready { size } ==> size.within(COORD_BOUND as int)
}

/// The commands of the contents in order, each image taking the next poll,
/// until the first image whose poll failed.
pub open spec fn render_spec(cs: Seq<Content>, polls: Seq<ImagePoll>, st: VisCanvasStateInner, clip: Pos2) -> (Seq<DrawCommand>, Option<VisCanvasError>)
    decreases cs.len(),
{
    if cs.len() == 0 {
        (seq![], None)
    } else {
        let prev = render_spec(cs.drop_last(), polls, st, clip);
        let k = image_count(cs.drop_last());
        if prev.1 is Some {
            prev
        } else {
            match cs.last() {
                Content::Rectangle(r) => (prev.0 + rect_cmds(r, st, clip), None),
                Content::Circle(c) => (prev.0 + circle_cmds(c, st, clip), None),
                Content::Segment(s) => (prev.0 + segment_cmds(s, st, clip), None),
                Content::PiecewiseSegment(p) => (prev.0 + piecewise_cmds(p, st, clip), None),
                Content::Image(_) => match polls[k as int] {
                    ImagePoll::Failed(m) => (prev.0, Some(VisCanvasError::LoadError(m))),
                    _ => (prev.0 + image_cmds(polls[k as int], k as usize, st, clip), None),
                },
            }
        }
    }
}

fn push_label(out: &mut Vec<DrawCommand>, label: &Option<String>, anchor: Pos2, align: Align, plate: Option<Color>)
    ensures
        final(out)@ == old(out)@ + label_cmds(*label, anchor, align, plate),
{
    match label {
        Some(text) => out.push(DrawCommand::Label { anchor, align, text: text.clone(), plate }),
        None => {},
    }
}

fn outline_of(s: Option<Stroke>) -> (r: Stroke)
    ensures
        r == outline(s),
{
    match s {
        Some(st) => st,
        None => Stroke::new(0, Color::black()),
    }
}

fn fill_or_transparent(c: Option<Color>) -> (r: Color)
    ensures
        r == fill_of(c),
{
    match c {
        Some(col) => col,
        None => Color::transparent(),
    }
}

/// The arrowhead at `point` for a line leaving it in direction `back_vector`,
/// and the offset by which the line's end is pulled back: `3 * thickness`
/// along `back_vector`. Both wings lie `5 * thickness` from `point`, at
/// -45 and +45 degrees from `back_vector`.
pub fn arrow_head_shape(point: Pos2, back_vector: Vec2, thickness: i64, fill_color: Color) -> (r: (DrawCommand, Vec2))
    requires
        point.within(2 * SCREEN_BOUND),
        back_vector.within(2 * SCREEN_BOUND),
        in_bound(thickness as int, COORD_BOUND as int),
    ensures
        r.0 == arrow_triangle(point, back_vector.x as int, back_vector.y as int, thickness as int, fill_color),
        r.1.x == along(back_vector.x as int, back_vector.y as int, 3 * thickness).0,
        r.1.y == along(back_vector.x as int, back_vector.y as int, 3 * thickness).1,
        in_bound(r.1.x as int, abs(3 * thickness)),
        in_bound(r.1.y as int, abs(3 * thickness)),
        near_length(r.1.x * r.1.x + r.1.y * r.1.y, 3 * thickness, back_vector.x != 0 || back_vector.y != 0),
        near_length(
            sq_len(along(back_vector.x - back_vector.y, back_vector.x + back_vector.y, 5 * thickness)),
            5 * thickness,
            back_vector.x != 0 || back_vector.y != 0,
        ),
        near_length(
            sq_len(along(back_vector.x + back_vector.y, back_vector.y - back_vector.x, 5 * thickness)),
            5 * thickness,
            back_vector.x != 0 || back_vector.y != 0,
        ),
{
    let vx = back_vector.x;
    let vy = back_vector.y;
    let w1 = along_grid(vx - vy, vx + vy, 5 * thickness);
    let w2 = along_grid(vx + vy, vy - vx, 5 * thickness);
    let back = along_grid(vx, vy, 3 * thickness);
    let p1 = Pos2 { x: point.x + w1.0, y: point.y + w1.1 };
    let p2 = Pos2 { x: point.x + w2.0, y: point.y + w2.1 };
    (DrawCommand::Triangle { a: point, b: p2, c: p1, fill: fill_color }, Vec2 { x: back.0, y: back.1 })
}

impl Rectangle {
    /// Appends the rectangle, its label and, when it responds to clicks, its
    /// sensitive region.
    pub fn show(&self, canvas_state: &VisCanvasStateInner, clip: Pos2, out: &mut Vec<DrawCommand>)
        requires
            self.wf(),
            canvas_state.valid(),
            clip.within(COORD_BOUND as int),
        ensures
            final(out)@ == old(out)@ + rect_cmds(*self, *canvas_state, clip),
    {
        let a = canvas_state.to_screen(Pos2 { x: self.x, y: self.y }, clip);
        let b = canvas_state.to_screen(Pos2 { x: self.x + self.width, y: self.y + self.height }, clip);
        let min = Pos2 { x: if a.x <= b.x { a.x } else { b.x }, y: if a.y <= b.y { a.y } else { b.y } };
        let max = Pos2 { x: if a.x <= b.x { b.x } else { a.x }, y: if a.y <= b.y { b.y } else { a.y } };
        let ghost before = out@;
        out.push(DrawCommand::Rect {
            min,
            max,
            fill: fill_or_transparent(self.fill_color),
            stroke: outline_of(self.stroke),
        });
        let ghost mid = out@;
        push_label(out, &self.label, min, Align::LeftBottom, self.fill_color);
        if self.responsable {
            out.push(DrawCommand::Sense { min, max });
        }
        proof {
            let head = seq![DrawCommand::Rect { min, max, fill: fill_of(self.fill_color), stroke: outline(self.stroke) }];
            let lab = label_cmds(self.label, min, Align::LeftBottom, self.fill_color);
            let sense: Seq<DrawCommand> = if self.responsable { seq![DrawCommand::Sense { min, max }] } else { seq![] };
            assert(mid == before + head);
            assert(out@ == before + head + lab + sense);
            assert(before + (head + lab + sense) =~= before + head + lab + sense);
        }
    }
}

impl Circle {
    /// Appends the circle, with its radius scaled uniformly, and its label.
    pub fn show(&self, canvas_state: &VisCanvasStateInner, clip: Pos2, out: &mut Vec<DrawCommand>)
        requires
            self.wf(),
            canvas_state.valid(),
            clip.within(COORD_BOUND as int),
        ensures
            final(out)@ == old(out)@ + circle_cmds(*self, *canvas_state, clip),
    {
        let center = canvas_state.to_screen(self.center, clip);
        let radius = mul_fixed(self.radius as i128, canvas_state.current_scale as i128);
        proof {
            crate::state::lemma_fmul_bound(self.radius as int, canvas_state.current_scale as int);
        }
        let ghost before = out@;
        out.push(DrawCommand::Circle {
            center,
            radius: radius as i64,
            fill: fill_or_transparent(self.fill_color),
            stroke: outline_of(self.stroke),
        });
        push_label(out, &self.label, center, Align::CenterCenter, self.fill_color);
        proof {
            let head = seq![DrawCommand::Circle {
                center,
                radius: radius as i64,
                fill: fill_of(self.fill_color),
                stroke: outline(self.stroke),
            }];
            let lab = label_cmds(self.label, center, Align::CenterCenter, self.fill_color);
            assert(before + (head + lab) =~= before + head + lab);
        }
    }
}

impl Segment {
    /// Appends an arrowhead for each end that carries one, then the line
    /// between the visible ends.
    pub fn show(&self, canvas_state: &VisCanvasStateInner, clip: Pos2, out: &mut Vec<DrawCommand>)
        requires
            self.wf(),
            canvas_state.valid(),
            clip.within(COORD_BOUND as int),
        ensures
            final(out)@ == old(out)@ + segment_cmds(*self, *canvas_state, clip),
            ({
                let a = canvas_state.screen_of(self.data.start, clip);
                let b = canvas_state.screen_of(self.data.end, clip);
                &&& self.accents.0 == SegmentAccent::Arrow ==> near_length(
                    sq_dist(segment_start(*self, *canvas_state, clip), a),
                    3 * self.stroke.width,
                    a != b,
                )
                &&& self.accents.1 == SegmentAccent::Arrow ==> near_length(
                    sq_dist(segment_end(*self, *canvas_state, clip), b),
                    3 * self.stroke.width,
                    a != b,
                )
            }),
    {
        let ghost before = out@;
        let raw_start = canvas_state.to_screen(self.data.start, clip);
        let raw_end = canvas_state.to_screen(self.data.end, clip);
        let w = self.stroke.width;
        let mut start = raw_start;
        let mut end = raw_end;
        match self.accents.0 {
            SegmentAccent::Arrow => {
                let (shape, arrow_offset) = arrow_head_shape(
                    start,
                    Vec2 { x: end.x - start.x, y: end.y - start.y },
                    w,
                    self.stroke.color,
                );
                out.push(shape);
                start = Pos2 { x: start.x + arrow_offset.x, y: start.y + arrow_offset.y };
            },
            SegmentAccent::Plain => {},
        }
        let ghost mid = out@;
        match self.accents.1 {
            SegmentAccent::Arrow => {
                let (shape, arrow_offset) = arrow_head_shape(
                    end,
                    Vec2 { x: raw_start.x - raw_end.x, y: raw_start.y - raw_end.y },
                    w,
                    self.stroke.color,
                );
                out.push(shape);
                end = Pos2 { x: end.x + arrow_offset.x, y: end.y + arrow_offset.y };
            },
            SegmentAccent::Plain => {},
        }
        let ghost heads = out@;
        out.push(DrawCommand::Line { start, end, stroke: self.stroke });
        proof {
            assert(start == segment_start(*self, *canvas_state, clip));
            assert(end == segment_end(*self, *canvas_state, clip));
            let s = segment_cmds(*self, *canvas_state, clip);
            assert(out@ =~= before + s);
        }
    }
}

impl PiecewiseSegment {
    /// Appends one line per piece, all with the shared stroke.
    pub fn show(&self, canvas_state: &VisCanvasStateInner, clip: Pos2, out: &mut Vec<DrawCommand>)
        requires
            self.wf(),
            canvas_state.valid(),
            clip.within(COORD_BOUND as int),
        ensures
            final(out)@ == old(out)@ + piecewise_cmds(*self, *canvas_state, clip),
    {
        let ghost before = out@;
        let n = self.data.len();
        let mut i: usize = 0;
        while i < n
            invariant
                n == self.data@.len(),
                i <= n,
                self.wf(),
                canvas_state.valid(),
                clip.within(COORD_BOUND as int),
                out@ == before + Seq::new(i as nat, |j: int| piece_line(*self, *canvas_state, clip, j)),
            decreases n - i,
        {
            let seg = self.data[i];
            let start = canvas_state.to_screen(seg.start, clip);
            let end = canvas_state.to_screen(seg.end, clip);
            out.push(DrawCommand::Line { start, end, stroke: self.stroke });
            proof {
                assert(before + Seq::new((i + 1) as nat, |j: int| piece_line(*self, *canvas_state, clip, j))
                    =~= before + Seq::new(i as nat, |j: int| piece_line(*self, *canvas_state, clip, j))
                    + seq![piece_line(*self, *canvas_state, clip, i as int)]);
            }
            i = i + 1;
        }
        assert(Seq::new(n as nat, |j: int| piece_line(*self, *canvas_state, clip, j)) =~= piecewise_cmds(
            *self,
            *canvas_state,
            clip,
        ));
    }
}

impl Image {
    /// Appends the image when its bitmap is ready; reports a failed load.
    pub fn show(
        &self,
        poll: &ImagePoll,
        index: usize,
        canvas_state: &VisCanvasStateInner,
        clip: Pos2,
        out: &mut Vec<DrawCommand>,
    ) -> (r: Result<(), VisCanvasError>)
        requires
            poll_wf(*poll),
            canvas_state.valid(),
            clip.within(COORD_BOUND as int),
        ensures
            r is Err <==> poll is Failed,
            *poll matches ImagePoll::Failed(m) ==> r == Err::<(), VisCanvasError>(VisCanvasError::LoadError(m)),
            r is Err ==> final(out)@ == old(out)@,
            r is Ok ==> final(out)@ == old(out)@ + image_cmds(*poll, index, *canvas_state, clip),
    {
        match poll {
            ImagePoll::Ready { size } => {
                let w = mul_fixed(size.x as i128, canvas_state.current_scale as i128);
                let h = mul_fixed(size.y as i128, canvas_state.current_scale as i128);
                proof {
                    crate::state::lemma_fmul_bound(size.x as int, canvas_state.current_scale as int);
                    crate::state::lemma_fmul_bound(size.y as int, canvas_state.current_scale as int);
                }
                out.push(DrawCommand::Image {
                    index,
                    min: Pos2 { x: clip.x + canvas_state.shift.x, y: clip.y + canvas_state.shift.y },
                    size: Vec2 { x: w as i64, y: h as i64 },
                });
                Ok(())
            },
            ImagePoll::Pending => Ok(()),
            ImagePoll::Failed(m) => Err(VisCanvasError::LoadError(m.clone())),
        }
    }
}

/// Arrow geometry: an arrow at an end of a segment is drawn as a triangle
/// whose first corner is that end's raw screen point and whose wings sit
/// `5 * width` from it at -45 and +45 degrees from the direction toward the
/// other end; the visible line end is pulled back from the raw point by
/// `3 * width` along that direction. Each end takes its direction from the
/// two raw points, whatever the other end carries. Components are rounded
/// down as [`along`] states; `Segment::show` and `arrow_head_shape` bound
/// the resulting lengths. An end without an accent is left where it is.
pub proof fn lemma_arrow_geometry(s: Segment, st: VisCanvasStateInner, clip: Pos2)
    ensures
        ({
            let cmds = segment_cmds(s, st, clip);
            let a = st.screen_of(s.data.start, clip);
            let b = st.screen_of(s.data.end, clip);
            let a2 = segment_start(s, st, clip);
            let w = s.stroke.width as int;
            let line = DrawCommand::Line { start: a2, end: segment_end(s, st, clip), stroke: s.stroke };
            &&& cmds.last() == line
            &&& s.accents.0 == SegmentAccent::Arrow ==> cmds[0] == arrow_triangle(a, b.x - a.x, b.y - a.y, w, s.stroke.color)
                && a2 == offset(a, along(b.x - a.x, b.y - a.y, 3 * w))
            &&& s.accents.0 == SegmentAccent::Plain ==> a2 == a
            &&& s.accents.1 == SegmentAccent::Arrow ==> cmds[cmds.len() - 2] == arrow_triangle(b, a.x - b.x, a.y - b.y, w, s.stroke.color)
                && segment_end(s, st, clip) == offset(b, along(a.x - b.x, a.y - b.y, 3 * w))
            &&& s.accents.1 == SegmentAccent::Plain ==> segment_end(s, st, clip) == b
            &&& cmds.len() == 1 + (if s.accents.0 == SegmentAccent::Arrow { 1int } else { 0 }) + (if s.accents.1 == SegmentAccent::Arrow { 1int } else { 0 })
        }),
{
}

/// A polyline built from `points` renders as one line per consecutive pair
/// of points, in order, each with the shared stroke.
pub proof fn lemma_polyline_lines(points: Seq<Pos2>, p: PiecewiseSegment, st: VisCanvasStateInner, clip: Pos2)
    requires
        points.len() >= 2,
        p.data@.len() == points.len() - 1,
        forall|i: int| 0 <= i < p.data@.len() ==> #[trigger] p.data@[i] == (SegmentData { start: points[i], end: points[i + 1] }),
    ensures
        piecewise_cmds(p, st, clip).len() == points.len() - 1,
        forall|i: int|
            0 <= i < points.len() - 1 ==> #[trigger] piecewise_cmds(p, st, clip)[i] == (DrawCommand::Line {
                start: st.screen_of(points[i], clip),
                end: st.screen_of(points[i + 1], clip),
                stroke: p.stroke,
            }),
{
    assert forall|i: int| 0 <= i < points.len() - 1 implies #[trigger] piecewise_cmds(p, st, clip)[i] == (DrawCommand::Line {
        start: st.screen_of(points[i], clip),
        end: st.screen_of(points[i + 1], clip),
        stroke: p.stroke,
    }) by {
        assert(p.data@[i] == (SegmentData { start: points[i], end: points[i + 1] }));
    }
}

/// A prefix of the list holds no more images than the list.
pub proof fn lemma_image_count_prefix(cs: Seq<Content>, i: int)
    requires
        0 <= i <= cs.len(),
    ensures
        image_count(cs.take(i)) <= image_count(cs),
    decreases cs.len(),
{
    if i < cs.len() {
        assert(cs.drop_last().take(i) =~= cs.take(i));
        lemma_image_count_prefix(cs.drop_last(), i);
    } else {
        assert(cs.take(i) =~= cs);
    }
}

/// Once an image has failed, later contents change nothing.
pub proof fn lemma_failure_sticks(cs: Seq<Content>, polls: Seq<ImagePoll>, st: VisCanvasStateInner, clip: Pos2, i: int)
    requires
        0 <= i <= cs.len(),
        render_spec(cs.take(i), polls, st, clip).1 is Some,
    ensures
        render_spec(cs, polls, st, clip) == render_spec(cs.take(i), polls, st, clip),
    decreases cs.len(),
{
    if i < cs.len() {
        assert(cs.drop_last().take(i) =~= cs.take(i));
        lemma_failure_sticks(cs.drop_last(), polls, st, clip, i);
    } else {
        assert(cs.take(i) =~= cs);
    }
}

/// Renders the contents in order, the `k`-th image taking `polls[k]`, and
/// stops at the first image that failed to load, keeping what was drawn
/// before it.
pub fn render_contents(
    contents: &Vec<Content>,
    polls: &Vec<ImagePoll>,
    canvas_state: &VisCanvasStateInner,
    clip: Pos2,
) -> (r: Rendered)
    requires
        canvas_state.valid(),
        clip.within(COORD_BOUND as int),
        forall|i: int| 0 <= i < contents@.len() ==> (#[trigger] contents@[i]).wf(),
        polls@.len() == image_count(contents@),
        forall|i: int| 0 <= i < polls@.len() ==> poll_wf(#[trigger] polls@[i]),
    ensures
        (r.commands@, r.failure) == render_spec(contents@, polls@, *canvas_state, clip),
{
    let mut out: Vec<DrawCommand> = Vec::new();
    let mut k: usize = 0;
    let mut i: usize = 0;
    let n = contents.len();
    let np = polls.len();
    while i < n
        invariant
            n == contents@.len(),
            np == polls@.len(),
            i <= n,
            canvas_state.valid(),
            clip.within(COORD_BOUND as int),
            forall|j: int| 0 <= j < contents@.len() ==> (#[trigger] contents@[j]).wf(),
            polls@.len() == image_count(contents@),
            forall|j: int| 0 <= j < polls@.len() ==> poll_wf(#[trigger] polls@[j]),
            k == image_count(contents@.take(i as int)),
            render_spec(contents@.take(i as int), polls@, *canvas_state, clip) == (out@, None::<VisCanvasError>),
        decreases n - i,
    {
        let ghost pre = contents@.take(i as int);
        proof {
            assert(contents@.take(i + 1).drop_last() =~= pre);
            assert(contents@.take(i + 1).last() == contents@[i as int]);
            lemma_image_count_prefix(contents@, i + 1);
        }
        match &contents[i] {
            Content::Rectangle(r) => r.show(canvas_state, clip, &mut out),
            Content::Circle(c) => c.show(canvas_state, clip, &mut out),
            Content::Segment(s) => s.show(canvas_state, clip, &mut out),
            Content::PiecewiseSegment(p) => p.show(canvas_state, clip, &mut out),
            Content::Image(img) => {
                match img.show(&polls[k], k, canvas_state, clip, &mut out) {
                    Err(e) => {
                        proof {
                            lemma_failure_sticks(contents@, polls@, *canvas_state, clip, i + 1);
                        }
                        return Rendered { commands: out, failure: Some(e) };
                    },
                    Ok(()) => {
                        k = k + 1;
                    },
                }
            },
        }
        i = i + 1;
    }
    proof {
        assert(contents@.take(n as int) =~= contents@);
    }
    Rendered { commands: out, failure: None }
}

} // verus!
