//! Planning of the draw submissions of one frame.

use vstd::prelude::*;
use crate::components::Camera;
use crate::graphics::{
    aligned, bind_buffer_alignment, drawn_fn, draws, get_aligned, pass_count, pass_of,
    plan_passes, sprite_args, BackgroundArgs, Draw, Renderer, SpriteArgs, BUFFER_SIZE,
    SPRITE_RECORD_BYTES,
};
use crate::store::{lookup, Row, Store};

verus! {

/// What one frame submits: the background pass, then the sprite passes in order.
#[derive(Debug)]
pub struct Frame {
    /// Draw data of the full-screen background pass, which clears the target.
    pub background: BackgroundArgs,
    /// The view that the sprites are projected through.
    pub camera: Camera,
    /// Size of the target, for the aspect of the projection.
    pub width: u32,
    pub height: u32,
    /// The sprite passes. Each keeps what the target holds and draws its
    /// records in order, one draw call per record.
    pub passes: Vec<Vec<Draw>>,
}

/// The camera that a frame is seen through, if the renderer names a live
/// entity that has one.
pub open spec fn camera_seen(rows: Seq<Row>, renderer: Renderer) -> Option<Camera> {
    match renderer.camera {
        Some(id) => match lookup(rows, id) {
            Some(parts) => parts.camera,
            None => None,
        },
        None => None,
    }
}

/// Distance in bytes between two sprite records in the buffer.
pub open spec fn sprite_stride() -> nat {
    aligned(SPRITE_RECORD_BYTES as int, 256) as nat
}

/// Collects the draw data of every entity with a placement and a sprite, in
/// the order of the store.
pub fn collect_draws(store: &Store) -> (items: Vec<SpriteArgs>)
    ensures
        items@ == draws(store@.rows),
{
    let mut items: Vec<SpriteArgs> = Vec::new();
    let count: usize = store.len();
    let mut i: usize = 0;
    while i < count
        invariant
            count == store@.rows.len(),
            i <= count,
            items@ == draws(store@.rows.take(i as int)),
        decreases count - i,
    {
        let row: Row = store.row(i);
        proof {
            store@.rows.lemma_filter_map_take_succ(drawn_fn(), i as int);
        }
        match (row.parts.transform, row.parts.sprite) {
            (Some(transform), Some(sprite)) => {
                items.push(sprite_args(transform, sprite));
            },
            _ => {},
        }
        i = i + 1;
    }
    assert(store@.rows.take(count as int) =~= store@.rows);
    items
}

/// Whether `frame` is the plan for drawing `rows` with `renderer`.
///
/// There is none unless there is a surface and a camera to see through. The
/// background is drawn from the camera's eye and aspect. Every drawable
/// entity is drawn once, in the order of the store: draw `j` of pass `b` is
/// drawable number `b * BUFFER_SIZE + j`, and its record lies `j` strides
/// into the buffer. Without drawable entities there is no sprite pass.
pub open spec fn planned(rows: Seq<Row>, renderer: Renderer, frame: Option<Frame>) -> bool {
    &&& frame is Some <==> renderer.swapchain && camera_seen(rows, renderer) is Some
    &&& frame matches Some(f) ==> {
        &&& Some(f.camera) == camera_seen(rows, renderer)
        &&& f.background == (BackgroundArgs { position: f.camera.eye, aspect: f.camera.aspect })
        &&& f.width == renderer.width
        &&& f.height == renderer.height
        &&& f.passes.len() == pass_count(draws(rows).len(), BUFFER_SIZE as nat)
        &&& forall|b: int|
            0 <= b < f.passes.len() ==> (#[trigger] f.passes[b])@ == pass_of(
                draws(rows),
                BUFFER_SIZE as nat,
                sprite_stride(),
                b,
            )
    }
}

/// Plans the frame: nothing while there is no surface or no camera, else the
/// background pass and as many sprite passes as the buffer's capacity makes
/// necessary.
pub fn render(store: &Store, renderer: &Renderer) -> (frame: Option<Frame>)
    requires
        store.wf(),
    ensures
        planned(store@.rows, *renderer, frame),
{
    if !renderer.swapchain {
        return None;
    }
    let id = match renderer.camera {
        Some(id) => id,
        None => {
            return None;
        },
    };
    let camera: Camera = match store.get(id) {
        Some(parts) => match parts.camera {
            Some(camera) => camera,
            None => {
                return None;
            },
        },
        None => {
            return None;
        },
    };
    let background = BackgroundArgs { position: camera.eye, aspect: camera.aspect };
    let items: Vec<SpriteArgs> = collect_draws(store);
    let stride: u64 = get_aligned(SPRITE_RECORD_BYTES, bind_buffer_alignment());
    let passes: Vec<Vec<Draw>> = plan_passes(&items, BUFFER_SIZE as usize, stride);
    Some(Frame { background, camera, width: renderer.width, height: renderer.height, passes })
}

} // verus!
