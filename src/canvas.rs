//! One canvas widget's frame: load its state, render, interact, validate.
use crate::content::Content;
use crate::geometry::{Pos2, Vec2, COORD_BOUND, UNIT};
use crate::render::{image_count, poll_wf, render_contents, render_spec, ImagePoll, Rendered};
use crate::state::{FrameInput, Origin, VisCanvasStateInner};
use vstd::prelude::*;

verus! {

/// A canvas widget's identity and its viewport state for this frame.
#[derive(Debug, Clone, Copy)]
pub struct VisCanvasState {
    pub id: u64,
    pub inner_state: VisCanvasStateInner,
}

/// The state a frame starts from: the persisted one, or the default one for
/// an identity seen for the first time, with the origin given this frame.
pub open spec fn loaded_state(origin: Origin, persisted: Option<VisCanvasStateInner>) -> VisCanvasStateInner {
    match persisted {
        Some(p) => VisCanvasStateInner { origin, ..p },
        None => VisCanvasStateInner { origin, current_scale: UNIT, shift: Vec2 { x: 0, y: 0 } },
    }
}

impl VisCanvasState {
    pub fn load(id: u64, origin: Origin, persisted: Option<VisCanvasStateInner>) -> (r: VisCanvasState)
        ensures
            r.id == id,
            r.inner_state == loaded_state(origin, persisted),
    {
        let mut inner = match persisted {
            Some(p) => p,
            None => VisCanvasStateInner::default(),
        };
        inner.origin = origin;
        VisCanvasState { id, inner_state: inner }
    }

    /// Maps an area-relative screen point to canvas space; `None` while the
    /// scale is zero.
    pub fn screen_to_canvas(&self, screen_pos: Pos2) -> (r: Option<Pos2>)
        requires
            self.inner_state.valid(),
            screen_pos.within(COORD_BOUND as int),
        ensures
            r is None <==> self.inner_state.current_scale == 0,
            r matches Some(c) ==> c.x == self.inner_state.canvas_x(screen_pos.x as int) && c.y
                == self.inner_state.canvas_y(screen_pos.y as int),
    {
        self.inner_state.to_canvas(screen_pos)
    }

    /// Renders the contents with the state as it was at the start of the
    /// frame, then applies the frame's input. A failed image load ends the
    /// frame early and leaves the state untouched.
    pub fn show_body(
        &mut self,
        contents: &Vec<Content>,
        polls: &Vec<ImagePoll>,
        clip: Pos2,
        input: &FrameInput,
    ) -> (r: Rendered)
        requires
            old(self).inner_state.valid(),
            clip.within(COORD_BOUND as int),
            forall|i: int| 0 <= i < contents@.len() ==> (#[trigger] contents@[i]).wf(),
            polls@.len() == image_count(contents@),
            forall|i: int| 0 <= i < polls@.len() ==> poll_wf(#[trigger] polls@[i]),
            input.wf(),
        ensures
            (r.commands@, r.failure) == render_spec(contents@, polls@, old(self).inner_state, clip),
            final(self).id == old(self).id,
            r.failure is Some ==> final(self).inner_state == old(self).inner_state,
            r.failure is None ==> final(self).inner_state == old(self).inner_state.after_frame(*input),
            final(self).inner_state.valid(),
    {
        let rendered = render_contents(contents, polls, &self.inner_state, clip);
        if rendered.failure.is_none() {
            self.inner_state.apply_input(input);
        }
        rendered
    }
}

} // verus!
