use vis_canvas::geometry::{along_grid, int_sqrt, COORD_BOUND, UNIT};
use vis_canvas::render::{arrow_head_shape, render_contents};
use vis_canvas::state::{MAX_SCALE, SHIFT_BOUND};
use vis_canvas::{
    Align, Circle, Color, Content, DrawCommand, FrameInput, Image, ImagePoll, Origin, PiecewiseSegment, Pos2,
    Rectangle, Segment, SegmentAccent, SegmentData, Stroke, Vec2, VisCanvasError, VisCanvasState,
    VisCanvasStateInner,
};

fn px(v: i64) -> i64 {
    v * UNIT
}

fn p(x: i64, y: i64) -> Pos2 {
    Pos2::new(px(x), px(y))
}

fn idle(area_min: Pos2) -> FrameInput {
    FrameInput {
        middle_drag: None,
        hover_pos: None,
        area_min,
        scroll_delta: Vec2::new(0, 0),
        zoom_delta: UNIT,
    }
}

fn state(origin: Origin, scale: i64, sx: i64, sy: i64) -> VisCanvasStateInner {
    VisCanvasStateInner { origin, current_scale: scale, shift: Vec2::new(sx, sy) }
}

#[test]
fn default_state_is_identity() {
    let st = VisCanvasStateInner::default();
    assert_eq!(st.origin, Origin::TopLeft);
    assert_eq!(st.current_scale, UNIT);
    assert_eq!(st.shift, Vec2::new(0, 0));
    assert!(st.is_valid());
}

#[test]
fn default_rectangle_maps_to_clip_origin() {
    let st = VisCanvasStateInner::default();
    let clip = p(20, 30);
    let rect = Rectangle::new().with_position(p(0, 0)).with_size(Vec2::new(px(100), px(100)));
    let mut out = Vec::new();
    rect.show(&st, clip, &mut out);
    assert_eq!(
        out,
        vec![DrawCommand::Rect {
            min: p(20, 30),
            max: p(120, 130),
            fill: Color::transparent(),
            stroke: Stroke::new(0, Color::black()),
        }]
    );
}

#[test]
fn scroll_shifts_by_delta() {
    let mut st = VisCanvasStateInner::default();
    let mut input = idle(p(0, 0));
    input.hover_pos = Some(p(5, 5));
    input.scroll_delta = Vec2::new(px(10), px(-5));
    st.apply_input(&input);
    assert_eq!(st.shift, Vec2::new(px(10), px(-5)));
    assert_eq!(st.current_scale, UNIT);
}

#[test]
fn scroll_without_hover_does_nothing() {
    let mut st = VisCanvasStateInner::default();
    let mut input = idle(p(0, 0));
    input.scroll_delta = Vec2::new(px(10), px(-5));
    input.zoom_delta = 2 * UNIT;
    st.apply_input(&input);
    assert_eq!(st, VisCanvasStateInner::default());
}

#[test]
fn zoom_about_pointer() {
    let mut st = VisCanvasStateInner::default();
    let mut input = idle(p(100, 200));
    input.hover_pos = Some(p(150, 250));
    input.zoom_delta = 2 * UNIT;
    st.apply_input(&input);
    assert_eq!(st.current_scale, 2 * UNIT);
    assert_eq!(st.shift, Vec2::new(px(-50), px(-50)));
}

#[test]
fn zoom_keeps_point_under_pointer() {
    let mut st = state(Origin::TopLeft, 1_500_000, px(7), px(-3));
    let pos = p(40, 25);
    let before = st.to_canvas(pos).unwrap();
    let mut input = idle(p(0, 0));
    input.hover_pos = Some(pos);
    input.zoom_delta = 1_250_000;
    st.apply_input(&input);
    assert_eq!(st.current_scale, 1_875_000);
    let after = st.to_canvas(pos).unwrap();
    assert!((after.x - before.x).abs() <= 2);
    assert!((after.y - before.y).abs() <= 2);
}

#[test]
fn middle_drag_pans_without_scale() {
    let mut st = state(Origin::TopLeft, 3 * UNIT, 0, 0);
    let mut input = idle(p(0, 0));
    input.middle_drag = Some(Vec2::new(px(4), px(-9)));
    st.apply_input(&input);
    assert_eq!(st.shift, Vec2::new(px(4), px(-9)));
    assert_eq!(st.current_scale, 3 * UNIT);
}

#[test]
fn invalid_frame_rolls_back_whole_state() {
    let start = state(Origin::BottomLeft, UNIT, px(10), px(10));
    let mut st = start;
    let mut input = idle(p(0, 0));
    input.middle_drag = Some(Vec2::new(px(5), px(5)));
    input.hover_pos = Some(p(1, 1));
    input.scroll_delta = Vec2::new(px(3), 0);
    input.zoom_delta = 20 * UNIT;
    st.apply_input(&input);
    assert_eq!(st, start);
}

#[test]
fn shift_out_of_range_rolls_back() {
    let start = state(Origin::TopLeft, UNIT, SHIFT_BOUND - 1, 0);
    let mut st = start;
    let mut input = idle(p(0, 0));
    input.middle_drag = Some(Vec2::new(2, 0));
    st.apply_input(&input);
    assert_eq!(st, start);
    let mut exact = start;
    input.middle_drag = Some(Vec2::new(1, 0));
    exact.apply_input(&input);
    assert_eq!(exact.shift.x, SHIFT_BOUND);
}

#[test]
fn scale_may_reach_limits() {
    let mut st = state(Origin::TopLeft, 5 * UNIT, 0, 0);
    let mut input = idle(p(0, 0));
    input.hover_pos = Some(p(0, 0));
    input.zoom_delta = 2 * UNIT;
    st.apply_input(&input);
    assert_eq!(st.current_scale, MAX_SCALE);
    input.zoom_delta = 0;
    st.apply_input(&input);
    assert_eq!(st.current_scale, 0);
    assert_eq!(st.to_canvas(p(1, 1)), None);
}

#[test]
fn round_trip_top_left() {
    let st = state(Origin::TopLeft, 1_500_000, px(12), px(-4));
    let q = st.to_screen(p(33, -17), Pos2::new(0, 0));
    assert_eq!(q, Pos2::new(61_500_000, -29_500_000));
    assert_eq!(st.to_canvas(q), Some(p(33, -17)));
}

#[test]
fn round_trip_bottom_left() {
    let st = state(Origin::BottomLeft, 2 * UNIT, px(3), px(8));
    let q = st.to_screen(p(10, 20), Pos2::new(0, 0));
    assert_eq!(q, p(23, -32));
    assert_eq!(st.to_canvas(q), Some(p(10, 20)));
}

#[test]
fn round_trip_with_rounding() {
    let st = state(Origin::TopLeft, 3, 0, 0);
    let c = Pos2::new(1001, -1001);
    let back = st.to_canvas(st.to_screen(c, Pos2::new(0, 0))).unwrap();
    assert!((back.x - c.x).abs() * 3 < UNIT + 3);
    assert!((back.y - c.y).abs() * 3 < UNIT + 3);
}

#[test]
fn bottom_left_flips_vertical_axis() {
    let st = state(Origin::BottomLeft, UNIT, 0, 0);
    assert_eq!(st.current_scale_vec(), Vec2::new(UNIT, -UNIT));
    assert_eq!(st.to_screen(p(1, 2), p(10, 10)), p(11, 8));
}

#[test]
fn screen_to_canvas_uses_shift_and_scale() {
    let s = VisCanvasState::load(7, Origin::TopLeft, Some(state(Origin::BottomLeft, 2 * UNIT, px(10), px(20))));
    assert_eq!(s.id, 7);
    assert_eq!(s.inner_state.origin, Origin::TopLeft);
    assert_eq!(s.screen_to_canvas(p(30, 40)), Some(p(10, 10)));
}

#[test]
fn load_without_persisted_state_uses_default() {
    let s = VisCanvasState::load(1, Origin::BottomLeft, None);
    assert_eq!(s.inner_state, state(Origin::BottomLeft, UNIT, 0, 0));
}

#[test]
fn piecewise_needs_two_points() {
    assert!(PiecewiseSegment::new(vec![]).is_none());
    assert!(PiecewiseSegment::new(vec![p(1, 1)]).is_none());
}

#[test]
fn piecewise_links_consecutive_points() {
    let pts = vec![p(0, 0), p(1, 2), p(3, 5)];
    let seg = PiecewiseSegment::new(pts).unwrap();
    assert_eq!(
        seg.data,
        vec![
            SegmentData { start: p(0, 0), end: p(1, 2) },
            SegmentData { start: p(1, 2), end: p(3, 5) },
        ]
    );
    assert_eq!(seg.stroke, Stroke::new(UNIT, Color::black()));
    let seg = seg.with_stroke_color(Color::white()).with_stroke_thickness(2 * UNIT);
    let st = state(Origin::TopLeft, 2 * UNIT, 0, 0);
    let mut out = Vec::new();
    seg.show(&st, p(1, 1), &mut out);
    let stroke = Stroke::new(2 * UNIT, Color::white());
    assert_eq!(
        out,
        vec![
            DrawCommand::Line { start: p(1, 1), end: p(3, 5), stroke },
            DrawCommand::Line { start: p(3, 5), end: p(7, 11), stroke },
        ]
    );
}

#[test]
fn arrow_at_end_pulls_line_back() {
    let seg = Segment::new(p(0, 0), p(100, 0)).with_end_accent(SegmentAccent::Arrow);
    let st = VisCanvasStateInner::default();
    let mut out = Vec::new();
    seg.show(&st, Pos2::new(0, 0), &mut out);
    let stroke = Stroke::new(UNIT, Color::black());
    assert_eq!(
        out,
        vec![
            DrawCommand::Triangle {
                a: p(100, 0),
                b: Pos2::new(96_464_466, 3_535_533),
                c: Pos2::new(96_464_466, -3_535_534),
                fill: Color::black(),
            },
            DrawCommand::Line { start: p(0, 0), end: p(97, 0), stroke },
        ]
    );
}

#[test]
fn arrow_at_start_with_thick_stroke() {
    let seg = Segment::new(p(0, 0), p(0, 50))
        .with_stroke_thickness(2 * UNIT)
        .with_stroke_color(Color::white())
        .with_start_accent(SegmentAccent::Arrow);
    let st = VisCanvasStateInner::default();
    let mut out = Vec::new();
    seg.show(&st, Pos2::new(0, 0), &mut out);
    assert_eq!(out.len(), 2);
    assert_eq!(
        out[1],
        DrawCommand::Line { start: p(0, 6), end: p(0, 50), stroke: Stroke::new(2 * UNIT, Color::white()) }
    );
    match &out[0] {
        DrawCommand::Triangle { a, b, c, fill } => {
            assert_eq!(*a, p(0, 0));
            assert_eq!(*fill, Color::white());
            assert_eq!(*b, Pos2::new(7_071_067, 7_071_067));
            assert_eq!(*c, Pos2::new(-7_071_068, 7_071_067));
        }
        other => panic!("unexpected {:?}", other),
    }
}

#[test]
fn plain_segment_is_one_line() {
    let seg = Segment::new(p(1, 1), p(2, 3));
    let st = state(Origin::TopLeft, 2 * UNIT, px(1), 0);
    let mut out = Vec::new();
    seg.show(&st, Pos2::new(0, 0), &mut out);
    assert_eq!(out, vec![DrawCommand::Line { start: p(3, 2), end: p(5, 6), stroke: Stroke::new(UNIT, Color::black()) }]);
}

#[test]
fn arrow_head_wings_and_offset() {
    let (shape, back) = arrow_head_shape(p(0, 0), Vec2::new(px(3), px(4)), UNIT, Color::black());
    assert_eq!(back, Vec2::new(1_800_000, 2_400_000));
    match shape {
        DrawCommand::Triangle { a, b, c, .. } => {
            assert_eq!(a, p(0, 0));
            assert_eq!(b, Pos2::new(4_949_747, 707_106));
            assert_eq!(c, Pos2::new(-707_107, 4_949_747));
        }
        other => panic!("unexpected {:?}", other),
    }
}

#[test]
fn along_of_zero_vector_is_zero() {
    assert_eq!(along_grid(0, 0, 5000), (0, 0));
    assert_eq!(along_grid(0, -7, 3000), (0, -3000));
}

#[test]
fn integer_square_root() {
    assert_eq!(int_sqrt(0), 0);
    assert_eq!(int_sqrt(15), 3);
    assert_eq!(int_sqrt(16), 4);
    assert_eq!(int_sqrt(20_000_000_000), 141_421);
}

#[test]
fn labelled_rectangle_draws_plate_and_sense() {
    let fill = Color { r: 10, g: 20, b: 30, a: 255 };
    let rect = Rectangle::new()
        .with_position(p(1, 1))
        .with_size(Vec2::new(px(2), px(3)))
        .with_fill_color(fill)
        .with_stroke_color(Color::white())
        .with_label(String::from("box"))
        .with_responsable(true);
    let st = state(Origin::BottomLeft, UNIT, 0, 0);
    let mut out = Vec::new();
    rect.show(&st, Pos2::new(0, 0), &mut out);
    let min = p(1, -4);
    let max = p(3, -1);
    assert_eq!(
        out,
        vec![
            DrawCommand::Rect { min, max, fill, stroke: Stroke::new(UNIT, Color::white()) },
            DrawCommand::Label { anchor: min, align: Align::LeftBottom, text: String::from("box"), plate: Some(fill) },
            DrawCommand::Sense { min, max },
        ]
    );
}

#[test]
fn circle_radius_scales_uniformly() {
    let circle = Circle::new()
        .with_center(p(2, 2))
        .with_radius(px(5))
        .with_stroke_thickness(3 * UNIT)
        .with_label(String::from("c"));
    let st = state(Origin::BottomLeft, 1_500_000, 0, 0);
    let mut out = Vec::new();
    circle.show(&st, p(10, 10), &mut out);
    assert_eq!(
        out,
        vec![
            DrawCommand::Circle {
                center: p(13, 7),
                radius: 7_500_000,
                fill: Color::transparent(),
                stroke: Stroke::new(3 * UNIT, Color::black()),
            },
            DrawCommand::Label { anchor: p(13, 7), align: Align::CenterCenter, text: String::from("c"), plate: None },
        ]
    );
}

#[test]
fn circle_builders_set_fields() {
    let c = Circle::new().with_filled(Color::white()).with_stroke_color(Color::white()).with_stroke_thickness(4);
    assert_eq!(c.fill_color, Some(Color::white()));
    assert_eq!(c.stroke, Some(Stroke::new(4, Color::white())));
    let c = c.with_fill_color(Color::black());
    assert_eq!(c.fill_color, Some(Color::black()));
}

#[test]
fn image_drawn_at_shift_with_uniform_scale() {
    let st = state(Origin::BottomLeft, 2 * UNIT, px(5), px(6));
    let contents = vec![Content::from(Image::new(String::from("file://a.png")))];
    let polls = vec![ImagePoll::Ready { size: Vec2::new(px(10), px(20)) }];
    let r = render_contents(&contents, &polls, &st, p(1, 1));
    assert!(r.failure.is_none());
    assert_eq!(r.commands, vec![DrawCommand::Image { index: 0, min: p(6, 7), size: Vec2::new(px(20), px(40)) }]);
}

#[test]
fn pending_image_draws_nothing() {
    let st = VisCanvasStateInner::default();
    let contents = vec![Content::from(Image::new(String::from("x")))];
    let r = render_contents(&contents, &vec![ImagePoll::Pending], &st, p(0, 0));
    assert!(r.failure.is_none());
    assert!(r.commands.is_empty());
}

#[test]
fn failed_image_stops_the_frame() {
    let mut s = VisCanvasState::load(3, Origin::TopLeft, None);
    let contents = vec![
        Content::from(Segment::new(p(0, 0), p(1, 1))),
        Content::from(Image::new(String::from("missing"))),
        Content::from(Rectangle::new()),
    ];
    let polls = vec![ImagePoll::Failed(String::from("not found"))];
    let mut input = idle(p(0, 0));
    input.middle_drag = Some(Vec2::new(px(1), px(1)));
    let r = s.show_body(&contents, &polls, p(0, 0), &input);
    assert_eq!(r.failure, Some(VisCanvasError::LoadError(String::from("not found"))));
    assert_eq!(r.commands.len(), 1);
    assert_eq!(s.inner_state, VisCanvasStateInner::default());
}

#[test]
fn frame_renders_then_interacts() {
    let mut s = VisCanvasState::load(3, Origin::TopLeft, None);
    let contents = vec![
        Content::from(Image::new(String::from("a"))),
        Content::from(Circle::new().with_radius(px(1))),
        Content::from(Image::new(String::from("b"))),
    ];
    let polls = vec![ImagePoll::Pending, ImagePoll::Ready { size: Vec2::new(px(1), px(1)) }];
    let mut input = idle(p(0, 0));
    input.middle_drag = Some(Vec2::new(px(2), px(3)));
    let r = s.show_body(&contents, &polls, p(0, 0), &input);
    assert!(r.failure.is_none());
    assert_eq!(r.commands.len(), 2);
    assert_eq!(r.commands[1], DrawCommand::Image { index: 1, min: p(0, 0), size: Vec2::new(px(1), px(1)) });
    assert_eq!(s.inner_state.shift, Vec2::new(px(2), px(3)));
}

#[test]
fn bounds_checks_match_coordinate_limits() {
    assert!(Content::from(Rectangle::new().with_size(Vec2::new(COORD_BOUND, 1))).is_wf());
    assert!(!Content::from(Rectangle::new().with_position(Pos2::new(1, 0)).with_size(Vec2::new(COORD_BOUND, 1))).is_wf());
    assert!(!Content::from(Circle::new().with_radius(COORD_BOUND + 1)).is_wf());
    assert!(!Content::from(Segment::new(p(0, 0), Pos2::new(0, -COORD_BOUND - 1))).is_wf());
    let long = PiecewiseSegment::new(vec![p(0, 0), p(1, 1), Pos2::new(COORD_BOUND + 1, 0)]).unwrap();
    assert!(!Content::from(long).is_wf());
    assert!(Content::from(Image::new(String::from("u"))).is_wf());
    assert!(!ImagePoll::Ready { size: Vec2::new(COORD_BOUND + 1, 0) }.is_wf());
    assert!(ImagePoll::Failed(String::from("e")).is_wf());
    let mut input = idle(p(0, 0));
    assert!(input.is_wf());
    input.zoom_delta = -COORD_BOUND - 1;
    assert!(!input.is_wf());
}

#[test]
fn invalid_states_are_detected() {
    assert!(!state(Origin::TopLeft, -1, 0, 0).is_valid());
    assert!(!state(Origin::TopLeft, MAX_SCALE + 1, 0, 0).is_valid());
    assert!(!state(Origin::TopLeft, UNIT, 0, -SHIFT_BOUND - 1).is_valid());
    assert!(state(Origin::BottomLeft, 0, SHIFT_BOUND, -SHIFT_BOUND).is_valid());
}

#[test]
fn short_vector_is_normalised_precisely() {
    let (shape, back) = arrow_head_shape(Pos2::new(0, 0), Vec2::new(1, 0), UNIT, Color::black());
    assert_eq!(back, Vec2::new(3 * UNIT, 0));
    match shape {
        DrawCommand::Triangle { b, c, .. } => {
            assert_eq!(b, Pos2::new(3_535_533, -3_535_534));
            assert_eq!(c, Pos2::new(3_535_533, 3_535_533));
        }
        other => panic!("unexpected {:?}", other),
    }
    assert_eq!(along_grid(-1, -1, 3 * UNIT), (-2_121_321, -2_121_321));
}

#[test]
fn short_diagonal_segment_pulls_back_three_widths() {
    let seg = Segment::new(Pos2::new(0, 0), Pos2::new(1, 1)).with_end_accent(SegmentAccent::Arrow);
    let st = VisCanvasStateInner::default();
    let mut out = Vec::new();
    seg.show(&st, Pos2::new(0, 0), &mut out);
    assert_eq!(
        out,
        vec![
            DrawCommand::Triangle {
                a: Pos2::new(1, 1),
                b: Pos2::new(-4_999_999, 1),
                c: Pos2::new(1, -4_999_999),
                fill: Color::black(),
            },
            DrawCommand::Line {
                start: Pos2::new(0, 0),
                end: Pos2::new(-2_121_320, -2_121_320),
                stroke: Stroke::new(UNIT, Color::black()),
            },
        ]
    );
}

#[test]
fn arrows_on_both_ends_use_raw_endpoints() {
    let seg = Segment::new(p(0, 0), p(2, 0))
        .with_start_accent(SegmentAccent::Arrow)
        .with_end_accent(SegmentAccent::Arrow);
    let st = VisCanvasStateInner::default();
    let mut out = Vec::new();
    seg.show(&st, Pos2::new(0, 0), &mut out);
    assert_eq!(out.len(), 3);
    assert_eq!(
        out[1],
        DrawCommand::Triangle {
            a: p(2, 0),
            b: Pos2::new(-1_535_534, 3_535_533),
            c: Pos2::new(-1_535_534, -3_535_534),
            fill: Color::black(),
        }
    );
    assert_eq!(out[2], DrawCommand::Line { start: p(3, 0), end: p(-1, 0), stroke: Stroke::new(UNIT, Color::black()) });
}
