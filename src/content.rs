//! The drawable shapes, in canvas space, with their builders.
use crate::geometry::{in_bound, in_coord_bound, Color, Pos2, Stroke, Vec2, COORD_BOUND, UNIT};
use vstd::prelude::*;

verus! {

/// A stroke width measure.
#[derive(Debug, Clone, Copy, PartialEq, Eq, Structural)]
pub enum Thickness {
    /// Relative to the canvas scale, in units.
    Relative(i64),
    /// In screen units.
    Absolute(i64),
}

/// A decoration at one end of a segment.
#[derive(Debug, Clone, Copy, PartialEq, Eq, Structural, Default)]
pub enum SegmentAccent {
    #[default]
    Plain,
    Arrow,
}

/// The two ends of a line segment, in canvas space.
#[derive(Debug, Clone, Copy, PartialEq, Eq, Structural)]
pub struct SegmentData {
    pub start: Pos2,
    pub end: Pos2,
}

impl SegmentData {
    pub open spec fn wf(self) -> bool {
        self.start.within(COORD_BOUND as int) && self.end.within(COORD_BOUND as int)
    }

    pub fn is_wf(&self) -> (r: bool)
        ensures
            r == self.wf(),
    {
        self.start.in_coord_bound() && self.end.in_coord_bound()
    }
}

/// A line segment with an optional accent at each end.
#[derive(Debug, Clone, Copy)]
pub struct Segment {
    pub data: SegmentData,
    pub stroke: Stroke,
    /// Accents at the start and at the end.
    pub accents: (SegmentAccent, SegmentAccent),
}

/// A polyline: segments between consecutive points, with one shared stroke.
#[derive(Debug, Clone)]
pub struct PiecewiseSegment {
    pub data: Vec<SegmentData>,
    pub stroke: Stroke,
}

/// A circle with optional fill, outline and label.
#[derive(Debug, Clone)]
pub struct Circle {
    pub center: Pos2,
    pub radius: i64,
    pub fill_color: Option<Color>,
    pub stroke: Option<Stroke>,
    pub label: Option<String>,
    pub responsable: bool,
}

/// An axis-aligned rectangle with optional fill, outline and label; it can
/// register a click-sensitive region.
#[derive(Debug, Clone)]
pub struct Rectangle {
    pub x: i64,
    pub y: i64,
    pub width: i64,
    pub height: i64,
    pub fill_color: Option<Color>,
    pub stroke: Option<Stroke>,
    pub label: Option<String>,
    pub responsable: bool,
}

/// An image anchored at the canvas origin, identified by its source URI.
#[derive(Debug, Clone)]
pub struct Image {
    pub uri: String,
}

/// One drawable shape.
#[derive(Debug, Clone)]
pub enum Content {
    Image(Image),
    Rectangle(Rectangle),
    Circle(Circle),
    Segment(Segment),
    PiecewiseSegment(PiecewiseSegment),
}

/// The default line: one pixel wide, black.
pub open spec fn default_stroke() -> Stroke {
    Stroke { width: UNIT, color: Color { r: 0, g: 0, b: 0, a: 255 } }
}

/// The outline after setting its colour: an unset outline becomes one pixel wide.
pub open spec fn stroke_with_color(s: Option<Stroke>, color: Color) -> Option<Stroke> {
    match s {
        Some(st) => Some(Stroke { color, ..st }),
        None => Some(Stroke { width: UNIT, color }),
    }
}

/// The outline after setting its width: an unset outline becomes black.
pub open spec fn stroke_with_width(s: Option<Stroke>, width: i64) -> Option<Stroke> {
    match s {
        Some(st) => Some(Stroke { width, ..st }),
        None => Some(Stroke { width, color: Color { r: 0, g: 0, b: 0, a: 255 } }),
    }
}

fn set_stroke_color(s: Option<Stroke>, color: Color) -> (r: Option<Stroke>)
    ensures
        r == stroke_with_color(s, color),
{
    match s {
        Some(st) => Some(Stroke { width: st.width, color }),
        None => Some(Stroke::new(UNIT, color)),
    }
}

fn set_stroke_width(s: Option<Stroke>, width: i64) -> (r: Option<Stroke>)
    ensures
        r == stroke_with_width(s, width),
{
    match s {
        Some(st) => Some(Stroke { width, color: st.color }),
        None => Some(Stroke::new(width, Color::black())),
    }
}

impl Segment {
    pub open spec fn wf(self) -> bool {
        &&& self.data.wf()
        &&& in_bound(self.stroke.width as int, COORD_BOUND as int)
    }

    pub fn is_wf(&self) -> (r: bool)
        ensures
            r == self.wf(),
    {
        self.data.is_wf() && in_coord_bound(self.stroke.width)
    }

    /// A black one-pixel segment from `start` to `end`, without accents.
    pub fn new(start: Pos2, end: Pos2) -> (r: Segment)
        ensures
            r == (Segment {
                data: SegmentData { start, end },
                stroke: default_stroke(),
                accents: (SegmentAccent::Plain, SegmentAccent::Plain),
            }),
    {
        Segment {
            data: SegmentData { start, end },
            stroke: Stroke::new(UNIT, Color::black()),
            accents: (SegmentAccent::Plain, SegmentAccent::Plain),
        }
    }

    pub fn with_stroke_color(self, color: Color) -> (r: Segment)
        ensures
            r == (Segment { stroke: Stroke { color, ..self.stroke }, ..self }),
    {
        let mut s = self;
        s.stroke.color = color;
        s
    }

    pub fn with_stroke_thickness(self, thickness: i64) -> (r: Segment)
        ensures
            r == (Segment { stroke: Stroke { width: thickness, ..self.stroke }, ..self }),
    {
        let mut s = self;
        s.stroke.width = thickness;
        s
    }

    pub fn with_start_accent(self, accent: SegmentAccent) -> (r: Segment)
        ensures
            r == (Segment { accents: (accent, self.accents.1), ..self }),
    {
        let mut s = self;
        s.accents = (accent, self.accents.1);
        s
    }

    pub fn with_end_accent(self, accent: SegmentAccent) -> (r: Segment)
        ensures
            r == (Segment { accents: (self.accents.0, accent), ..self }),
    {
        let mut s = self;
        s.accents = (self.accents.0, accent);
        s
    }
}

impl PiecewiseSegment {
    pub open spec fn wf(self) -> bool {
        &&& forall|i: int| 0 <= i < self.data@.len() ==> (#[trigger] self.data@[i]).wf()
        &&& in_bound(self.stroke.width as int, COORD_BOUND as int)
    }

    pub fn is_wf(&self) -> (r: bool)
        ensures
            r == self.wf(),
    {
        let mut i: usize = 0;
        while i < self.data.len()
            invariant
                i <= self.data@.len(),
                forall|j: int| 0 <= j < i ==> (#[trigger] self.data@[j]).wf(),
            decreases self.data@.len() - i,
        {
            if !self.data[i].is_wf() {
                return false;
            }
            i = i + 1;
        }
        in_coord_bound(self.stroke.width)
    }

    /// The polyline through `points`, in order; `None` for fewer than two points.
    pub fn new(points: Vec<Pos2>) -> (r: Option<PiecewiseSegment>)
        ensures
            r is None <==> points@.len() < 2,
            r matches Some(p) ==> {
                &&& p.data@.len() == points@.len() - 1
                &&& forall|i: int|
                    0 <= i < p.data@.len() ==> #[trigger] p.data@[i] == (SegmentData {
                        start: points@[i],
                        end: points@[i + 1],
                    })
                &&& p.stroke == default_stroke()
            },
    {
        if points.len() < 2 {
            return None;
        }
        let mut data: Vec<SegmentData> = Vec::new();
        let n = points.len() - 1;
        let mut i: usize = 0;
        while i < n
            invariant
                n == points@.len() - 1,
                i <= n,
                data@.len() == i,
                forall|j: int|
                    0 <= j < i ==> #[trigger] data@[j] == (SegmentData { start: points@[j], end: points@[j + 1] }),
            decreases n - i,
        {
            data.push(SegmentData { start: points[i], end: points[i + 1] });
            i = i + 1;
        }
        Some(PiecewiseSegment { data, stroke: Stroke::new(UNIT, Color::black()) })
    }

    pub fn with_stroke_color(self, color: Color) -> (r: PiecewiseSegment)
        ensures
            r.data == self.data,
            r.stroke == (Stroke { color, ..self.stroke }),
    {
        let mut s = self;
        s.stroke.color = color;
        s
    }

    pub fn with_stroke_thickness(self, thickness: i64) -> (r: PiecewiseSegment)
        ensures
            r.data == self.data,
            r.stroke == (Stroke { width: thickness, ..self.stroke }),
    {
        let mut s = self;
        s.stroke.width = thickness;
        s
    }
}

impl Circle {
    pub open spec fn wf(self) -> bool {
        &&& self.center.within(COORD_BOUND as int)
        &&& in_bound(self.radius as int, COORD_BOUND as int)
    }

    pub fn is_wf(&self) -> (r: bool)
        ensures
            r == self.wf(),
    {
        self.center.in_coord_bound() && in_coord_bound(self.radius)
    }

    /// A circle of radius zero at the origin, with nothing set.
    pub fn new() -> (r: Circle)
        ensures
            r == (Circle {
                center: Pos2 { x: 0, y: 0 },
                radius: 0,
                fill_color: None,
                stroke: None,
                label: None,
                responsable: false,
            }),
    {
        Circle {
            center: Pos2 { x: 0, y: 0 },
            radius: 0,
            fill_color: None,
            stroke: None,
            label: None,
            responsable: false,
        }
    }

    pub fn with_center(self, center: Pos2) -> (r: Circle)
        ensures
            r == (Circle { center, ..self }),
    {
        let mut s = self;
        s.center = center;
        s
    }

    pub fn with_radius(self, radius: i64) -> (r: Circle)
        ensures
            r == (Circle { radius, ..self }),
    {
        let mut s = self;
        s.radius = radius;
        s
    }

    pub fn with_fill_color(self, fill_color: Color) -> (r: Circle)
        ensures
            r == (Circle { fill_color: Some(fill_color), ..self }),
    {
        let mut s = self;
        s.fill_color = Some(fill_color);
        s
    }

    /// Sets the outline colour; an unset outline becomes one pixel wide.
    pub fn with_stroke_color(self, stroke_color: Color) -> (r: Circle)
        ensures
            r == (Circle { stroke: stroke_with_color(self.stroke, stroke_color), ..self }),
    {
        let mut s = self;
        s.stroke = set_stroke_color(s.stroke, stroke_color);
        s
    }

    /// Sets the outline width; an unset outline becomes black.
    pub fn with_stroke_thickness(self, stroke_thickness: i64) -> (r: Circle)
        ensures
            r == (Circle { stroke: stroke_with_width(self.stroke, stroke_thickness), ..self }),
    {
        let mut s = self;
        s.stroke = set_stroke_width(s.stroke, stroke_thickness);
        s
    }

    pub fn with_filled(self, fill: Color) -> (r: Circle)
        ensures
            r == (Circle { fill_color: Some(fill), ..self }),
    {
        let mut s = self;
        s.fill_color = Some(fill);
        s
    }

    pub fn with_label(self, label: String) -> (r: Circle)
        ensures
            r == (Circle { label: Some(label), ..self }),
    {
        let mut s = self;
        s.label = Some(label);
        s
    }
}

impl Rectangle {
    pub open spec fn wf(self) -> bool {
        &&& in_bound(self.x as int, COORD_BOUND as int)
        &&& in_bound(self.y as int, COORD_BOUND as int)
        &&& in_bound(self.x + self.width, COORD_BOUND as int)
        &&& in_bound(self.y + self.height, COORD_BOUND as int)
    }

    pub fn is_wf(&self) -> (r: bool)
        ensures
            r == self.wf(),
    {
        let b = COORD_BOUND as i128;
        let right = self.x as i128 + self.width as i128;
        let bottom = self.y as i128 + self.height as i128;
        in_coord_bound(self.x) && in_coord_bound(self.y) && -b <= right && right <= b && -b <= bottom && bottom <= b
    }

    /// An empty rectangle at the origin, with nothing set.
    pub fn new() -> (r: Rectangle)
        ensures
            r == (Rectangle {
                x: 0,
                y: 0,
                width: 0,
                height: 0,
                fill_color: None,
                stroke: None,
                label: None,
                responsable: false,
            }),
    {
        Rectangle {
            x: 0,
            y: 0,
            width: 0,
            height: 0,
            fill_color: None,
            stroke: None,
            label: None,
            responsable: false,
        }
    }

    pub fn with_position(self, pos: Pos2) -> (r: Rectangle)
        ensures
            r == (Rectangle { x: pos.x, y: pos.y, ..self }),
    {
        let mut s = self;
        s.x = pos.x;
        s.y = pos.y;
        s
    }

    pub fn with_size(self, size: Vec2) -> (r: Rectangle)
        ensures
            r == (Rectangle { width: size.x, height: size.y, ..self }),
    {
        let mut s = self;
        s.width = size.x;
        s.height = size.y;
        s
    }

    pub fn with_fill_color(self, fill_color: Color) -> (r: Rectangle)
        ensures
            r == (Rectangle { fill_color: Some(fill_color), ..self }),
    {
        let mut s = self;
        s.fill_color = Some(fill_color);
        s
    }

    /// Sets the outline colour; an unset outline becomes one pixel wide.
    pub fn with_stroke_color(self, stroke_color: Color) -> (r: Rectangle)
        ensures
            r == (Rectangle { stroke: stroke_with_color(self.stroke, stroke_color), ..self }),
    {
        let mut s = self;
        s.stroke = set_stroke_color(s.stroke, stroke_color);
        s
    }

    /// Sets the outline width; an unset outline becomes black.
    pub fn with_stroke_thickness(self, stroke_thickness: i64) -> (r: Rectangle)
        ensures
            r == (Rectangle { stroke: stroke_with_width(self.stroke, stroke_thickness), ..self }),
    {
        let mut s = self;
        s.stroke = set_stroke_width(s.stroke, stroke_thickness);
        s
    }

    pub fn with_filled(self, fill: Color) -> (r: Rectangle)
        ensures
            r == (Rectangle { fill_color: Some(fill), ..self }),
    {
        let mut s = self;
        s.fill_color = Some(fill);
        s
    }

    pub fn with_label(self, label: String) -> (r: Rectangle)
        ensures
            r == (Rectangle { label: Some(label), ..self }),
    {
        let mut s = self;
        s.label = Some(label);
        s
    }

    pub fn with_responsable(self, responsable: bool) -> (r: Rectangle)
        ensures
            r == (Rectangle { responsable, ..self }),
    {
        let mut s = self;
        s.responsable = responsable;
        s
    }
}

impl Image {
    pub fn new(uri: String) -> (r: Image)
        ensures
            r.uri == uri,
    {
        Image { uri }
    }
}

impl Content {
    pub open spec fn wf(self) -> bool {
        match self {
            Content::Image(_) => true,
            Content::Rectangle(r) => r.wf(),
            Content::Circle(c) => c.wf(),
            Content::Segment(s) => s.wf(),
            Content::PiecewiseSegment(p) => p.wf(),
        }
    }

    /// Whether the shape's coordinates lie within the bounds the renderer
    /// computes with.
    pub fn is_wf(&self) -> (r: bool)
        ensures
            r == self.wf(),
    {
        match self {
            Content::Image(_) => true,
            Content::Rectangle(r) => r.is_wf(),
            Content::Circle(c) => c.is_wf(),
            Content::Segment(s) => s.is_wf(),
            Content::PiecewiseSegment(p) => p.is_wf(),
        }
    }
}

impl From<Rectangle> for Content {
    fn from(rect: Rectangle) -> (r: Content)
        ensures
            r == Content::Rectangle(rect),
    {
        Content::Rectangle(rect)
    }
}

impl vstd::std_specs::convert::FromSpecImpl<Rectangle> for Content {
    open spec fn obeys_from_spec() -> bool {
        true
    }

    open spec fn from_spec(v: Rectangle) -> Content {
        Content::Rectangle(v)
    }
}

impl From<Circle> for Content {
    fn from(circle: Circle) -> (r: Content)
        ensures
            r == Content::Circle(circle),
    {
        Content::Circle(circle)
    }
}

impl vstd::std_specs::convert::FromSpecImpl<Circle> for Content {
    open spec fn obeys_from_spec() -> bool {
        true
    }

    open spec fn from_spec(v: Circle) -> Content {
        Content::Circle(v)
    }
}

impl From<Segment> for Content {
    fn from(segment: Segment) -> (r: Content)
        ensures
            r == Content::Segment(segment),
    {
        Content::Segment(segment)
    }
}

impl vstd::std_specs::convert::FromSpecImpl<Segment> for Content {
    open spec fn obeys_from_spec() -> bool {
        true
    }

    open spec fn from_spec(v: Segment) -> Content {
        Content::Segment(v)
    }
}

impl From<PiecewiseSegment> for Content {
    fn from(piecewise_segment: PiecewiseSegment) -> (r: Content)
        ensures
            r == Content::PiecewiseSegment(piecewise_segment),
    {
        Content::PiecewiseSegment(piecewise_segment)
    }
}

impl vstd::std_specs::convert::FromSpecImpl<PiecewiseSegment> for Content {
    open spec fn obeys_from_spec() -> bool {
        true
    }

    open spec fn from_spec(v: PiecewiseSegment) -> Content {
        Content::PiecewiseSegment(v)
    }
}

impl From<Image> for Content {
    fn from(value: Image) -> (r: Content)
        ensures
            r == Content::Image(value),
    {
        Content::Image(value)
    }
}

impl vstd::std_specs::convert::FromSpecImpl<Image> for Content {
    open spec fn obeys_from_spec() -> bool {
        true
    }

    open spec fn from_spec(v: Image) -> Content {
        Content::Image(v)
    }
}

} // verus!
