//! A pan-and-zoom 2D canvas: viewport transform, per-frame interaction state
//! machine with atomic rollback, and a renderer that turns drawable shapes into
//! screen-space draw commands.
//!
//! All coordinates are fixed-point integers: one pixel is [`geometry::UNIT`]
//! units, and a scale of `UNIT` is the identity zoom.

pub mod canvas;
pub mod content;
pub mod error;
pub mod geometry;
pub mod render;
pub mod state;

pub use content::{Circle, Content, Image, PiecewiseSegment, Rectangle, Segment, SegmentAccent, SegmentData};
pub use error::{VisCanvasError, VisCanvasResult};
pub use geometry::{Color, Pos2, Stroke, Vec2};
pub use render::{Align, DrawCommand, ImagePoll, Rendered};
pub use canvas::VisCanvasState;
pub use state::{FrameInput, Origin, VisCanvasStateInner};
