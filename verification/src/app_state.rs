//! The plain state of the renderer: the window size it draws at, the number
//! of indices of the sphere it draws, and what a frame draws.

use vstd::prelude::*;

verus! {

/// A size in physical pixels.
#[derive(Clone, Copy, Debug, PartialEq, Eq, Structural)]
pub struct Size {
    pub width: u32,
    pub height: u32,
}

/// What the window reports to the renderer before the event loop acts on it.
#[derive(Clone, Copy, Debug, PartialEq, Eq, Structural)]
pub enum WindowInput {
    CloseRequested,
    Resized(Size),
    ScaleFactorChanged(Size),
    Other,
}

/// The bodies drawn each frame, both with the sphere mesh.
#[derive(Clone, Copy, Debug, PartialEq, Eq, Structural)]
pub enum Body {
    Earth,
    Sun,
}

/// One indexed draw: the uniforms of `body`, the indices
/// `first_index..index_end` of the index buffer, `base_vertex` added to each
/// index, and the instances `first_instance..instance_end`.
#[derive(Clone, Copy, Debug, PartialEq, Eq, Structural)]
pub struct DrawCall {
    pub body: Body,
    pub first_index: u32,
    pub index_end: u32,
    pub base_vertex: i32,
    pub first_instance: u32,
    pub instance_end: u32,
}

/// The draw of `body`: the whole index buffer of `num_indices` indices,
/// once.
pub open spec fn full_draw(body: Body, num_indices: u32) -> DrawCall {
    DrawCall {
        body,
        first_index: 0,
        index_end: num_indices,
        base_vertex: 0,
        first_instance: 0,
        instance_end: 1,
    }
}

/// The renderer's plain state.
#[derive(Clone, Copy, Debug, PartialEq, Eq, Structural)]
pub struct AppState {
    /// The size of the window, of the surface and of the depth texture.
    pub size: Size,
    /// The number of indices in the index buffer.
    pub num_indices: u32,
}

/// The state after a resize to `new_size`.
pub open spec fn resized(app: AppState, new_size: Size) -> AppState {
    AppState { size: new_size, ..app }
}

impl AppState {
    /// The state of a renderer that draws at `size` an index buffer of
    /// `index_count` indices, the count kept as a `u32` (its low 32 bits).
    pub fn new(size: Size, index_count: usize) -> (app: AppState)
        ensures
            app.size == size,
            app.num_indices == index_count as u32,
    {
        #[verifier::truncate]
        let num_indices = index_count as u32;
        AppState { size, num_indices }
    }

    /// Records a new window size; the caller reconfigures the surface and
    /// recreates the depth texture at that size.
    pub fn resize(&mut self, new_size: Size)
        ensures
            *final(self) == resized(*old(self), new_size),
    {
        self.size = new_size;
    }

    /// Whether the renderer consumes `input` itself: it never does, so the
    /// event loop acts on every input.
    pub fn handle_input(&self, input: &WindowInput) -> (consumed: bool)
        ensures
            !consumed,
    {
        false
    }

    /// The draws of one frame: the Earth, then the Sun, each with the whole
    /// sphere mesh.
    pub fn render(&self) -> (draws: Vec<DrawCall>)
        ensures
            draws@ == seq![full_draw(Body::Earth, self.num_indices), full_draw(Body::Sun, self.num_indices)],
    {
        let mut draws: Vec<DrawCall> = Vec::new();
        draws.push(
            DrawCall {
                body: Body::Earth,
                first_index: 0,
                index_end: self.num_indices,
                base_vertex: 0,
                first_instance: 0,
                instance_end: 1,
            },
        );
        draws.push(
            DrawCall {
                body: Body::Sun,
                first_index: 0,
                index_end: self.num_indices,
                base_vertex: 0,
                first_instance: 0,
                instance_end: 1,
            },
        );
        draws
    }
}

/// Law: resizing twice to the same size is resizing once, and resizing to
/// the current size changes nothing.
pub proof fn lemma_resize_idempotent(app: AppState, new_size: Size)
    ensures
        resized(resized(app, new_size), new_size) == resized(app, new_size),
        resized(app, app.size) == app,
{
}

/// Law: a frame's draws stay within the index buffer, whatever the size.
pub proof fn lemma_draws_within_buffer(app: AppState, body: Body, new_size: Size)
    ensures
        full_draw(body, app.num_indices).first_index <= full_draw(body, app.num_indices).index_end
            <= app.num_indices,
        resized(app, new_size).num_indices == app.num_indices,
{
}

} // verus!
