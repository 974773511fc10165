//! Draw data and the splitting of draws into passes over one bounded buffer.
//!
//! Every sprite is drawn from one record in a uniform buffer. The buffer has
//! room for a fixed number of records, each at a multiple of the binding
//! alignment. When a frame has more sprites than the buffer has room, the
//! draws are split into several passes, each of which reuses the buffer from
//! its start.

use vstd::prelude::*;
use crate::components::{Color, Sprite, Transform};
use crate::fixed::Fixed;
use crate::store::{EntityId, Row};
use crate::vector::{Vec2, Vec3};

verus! {

/// Number of sprite records that the uniform buffer holds.
pub const BUFFER_SIZE: u64 = 16384;

/// Size in bytes of one sprite record as the shader reads it: twenty 32-bit values.
pub const SPRITE_RECORD_BYTES: u64 = 80;

/// Edge of one cell of the sprite atlas, in texels.
pub const SPRITE_SIZE: i64 = 16;

/// The least multiple of `alignment` that is greater than `size`.
pub open spec fn aligned(size: int, alignment: int) -> int {
    alignment * (size / alignment) + alignment
}

/// Returns the least multiple of `alignment` that is greater than `size`.
pub fn get_aligned(size: u64, alignment: u64) -> (r: u64)
    requires
        alignment > 0,
        aligned(size as int, alignment as int) <= u64::MAX,
    ensures
        r == aligned(size as int, alignment as int),
        size < r <= size + alignment,
        r % alignment == 0,
{
    proof {
        lemma_aligned(size as int, alignment as int);
    }
    alignment * (size / alignment) + alignment
}

/// `aligned` is a multiple of the alignment, above `size` by at most the alignment.
pub proof fn lemma_aligned(size: int, alignment: int)
    requires
        size >= 0,
        alignment > 0,
    ensures
        size < aligned(size, alignment) <= size + alignment,
        aligned(size, alignment) % alignment == 0,
        aligned(size, alignment) == alignment * (size / alignment + 1),
        0 <= alignment * (size / alignment) <= size,
{
    let q = size / alignment;
    vstd::arithmetic::div_mod::lemma_fundamental_div_mod(size, alignment);
    vstd::arithmetic::div_mod::lemma_mod_bound(size, alignment);
    assert(alignment * (q + 1) == alignment * q + alignment) by (nonlinear_arith);
    vstd::arithmetic::div_mod::lemma_mod_multiples_basic(q + 1, alignment);
    assert((q + 1) * alignment == alignment * (q + 1)) by (nonlinear_arith);
}

/// The alignment that the graphics interface asks of a bound buffer's offset.
///
/// Trusted: reads the constant `wgpu::BIND_BUFFER_ALIGNMENT`, which that
/// crate defines as 256.
#[verifier::external_body]
pub(crate) fn bind_buffer_alignment() -> (a: u64)
    ensures
        a == 256,
{
    wgpu::BIND_BUFFER_ALIGNMENT
}

/// Size in bytes of a uniform buffer with room for `BUFFER_SIZE` records of type `T`.
pub fn get_buffer_size<T: Sized>() -> (r: u64)
    requires
        aligned(vstd::layout::size_of::<T>() as int, 256) * BUFFER_SIZE <= u64::MAX,
    ensures
        r == aligned(vstd::layout::size_of::<T>() as int, 256) * BUFFER_SIZE,
{
    let alignment: u64 = bind_buffer_alignment();
    let size: usize = core::mem::size_of::<T>();
    proof {
        lemma_aligned(size as int, 256);
        assert(aligned(size as int, 256) <= aligned(size as int, 256) * BUFFER_SIZE)
            by (nonlinear_arith)
            requires
                aligned(size as int, 256) >= 0,
        ;
    }
    get_aligned(size as u64, alignment) * BUFFER_SIZE
}

/// Draw data of one sprite.
#[derive(Clone, Copy, Debug, PartialEq, Eq, Structural)]
pub struct SpriteArgs {
    pub position: Vec3,
    pub size: Vec2,
    pub color: Color,
    pub rotation: Vec3,
    pub texturecoords: Vec2,
    pub texturesize: Vec2,
}

/// Draw data of the background.
#[derive(Clone, Copy, Debug, PartialEq, Eq, Structural)]
pub struct BackgroundArgs {
    pub position: Vec3,
    pub aspect: Fixed,
}

/// What the drawing of a frame depends on besides the entities.
#[derive(Clone, Copy, Debug, PartialEq, Eq)]
pub struct Renderer {
    /// Whether there is a surface to draw to.
    pub swapchain: bool,
    /// The entity whose camera the frame is seen through.
    pub camera: Option<EntityId>,
    pub width: u32,
    pub height: u32,
}

/// One draw call: the record `args`, written at `offset` bytes into the buffer.
#[derive(Clone, Copy, Debug, PartialEq, Eq, Structural)]
pub struct Draw {
    pub offset: u64,
    pub args: SpriteArgs,
}

/// The record that a sprite with the given placement is drawn from.
pub open spec fn spec_sprite_args(transform: Transform, sprite: Sprite) -> SpriteArgs {
    SpriteArgs {
        position: transform.position,
        size: transform.scale,
        color: sprite.color,
        rotation: transform.rotation,
        texturecoords: Vec2 {
            x: sprite.sprite.x.spec_times(Fixed::spec_from_int(SPRITE_SIZE)),
            y: sprite.sprite.y.spec_times(Fixed::spec_from_int(SPRITE_SIZE)),
        },
        texturesize: Vec2 {
            x: Fixed::spec_from_int(SPRITE_SIZE),
            y: Fixed::spec_from_int(SPRITE_SIZE),
        },
    }
}

/// Packs the draw data of one sprite.
#[verifier::when_used_as_spec(spec_sprite_args)]
pub fn sprite_args(transform: Transform, sprite: Sprite) -> (r: SpriteArgs)
    ensures
        r == spec_sprite_args(transform, sprite),
{
    let cell: Fixed = Fixed::from_int(SPRITE_SIZE);
    SpriteArgs {
        position: transform.position,
        size: transform.scale,
        color: sprite.color,
        rotation: transform.rotation,
        texturecoords: Vec2 { x: sprite.sprite.x.times(cell), y: sprite.sprite.y.times(cell) },
        texturesize: Vec2 { x: cell, y: cell },
    }
}

/// The record of a row that can be drawn: one with both a placement and a sprite.
pub open spec fn drawn(row: Row) -> Option<SpriteArgs> {
    match (row.parts.transform, row.parts.sprite) {
        (Some(transform), Some(sprite)) => Some(spec_sprite_args(transform, sprite)),
        _ => None,
    }
}

/// `drawn` as a function value.
pub open spec fn drawn_fn() -> spec_fn(Row) -> Option<SpriteArgs> {
    |row: Row| drawn(row)
}

/// The records of all rows that can be drawn, in the order of the rows.
pub open spec fn draws(rows: Seq<Row>) -> Seq<SpriteArgs> {
    rows.filter_map(drawn_fn())
}

/// Number of passes needed for `count` draws at `capacity` draws a pass:
/// the quotient rounded up.
pub open spec fn pass_count(count: nat, capacity: nat) -> nat {
    if capacity == 0 {
        0
    } else {
        ((count + capacity - 1) / (capacity as int)) as nat
    }
}

/// Number of draws in pass `b`: a full buffer but for the last pass.
pub open spec fn pass_len(count: nat, capacity: nat, b: int) -> nat {
    if count - b * capacity >= capacity {
        capacity
    } else if count - b * capacity >= 0 {
        (count - b * capacity) as nat
    } else {
        0
    }
}

/// Pass `b` over `items`: draw `j` of the pass takes item `b * capacity + j`
/// and writes it `j * stride` bytes into the buffer.
pub open spec fn pass_of(items: Seq<SpriteArgs>, capacity: nat, stride: nat, b: int) -> Seq<Draw> {
    Seq::new(
        pass_len(items.len(), capacity, b),
        |j: int| Draw { offset: (j * stride) as u64, args: items[b * capacity + j] },
    )
}

/// Splits `items` into passes of at most `capacity` draws, keeping their order.
///
/// No pass is empty: without items there is no pass.
pub fn plan_passes(items: &Vec<SpriteArgs>, capacity: usize, stride: u64) -> (passes: Vec<
    Vec<Draw>,
>)
    requires
        capacity > 0,
        capacity * stride <= u64::MAX,
    ensures
        passes.len() == pass_count(items.len() as nat, capacity as nat),
        forall|b: int|
            0 <= b < passes.len() ==> (#[trigger] passes[b])@ == pass_of(
                items@,
                capacity as nat,
                stride as nat,
                b,
            ),
{
    let mut passes: Vec<Vec<Draw>> = Vec::new();
    let mut i: usize = 0;
    let count: usize = items.len();
    assert(passes.len() * capacity == 0) by (nonlinear_arith)
        requires
            passes.len() == 0,
    ;
    while i < count
        invariant
            capacity > 0,
            capacity * stride <= u64::MAX,
            count == items.len(),
            i <= count,
            i == count || i == passes.len() * capacity,
            passes.len() * capacity >= i,
            passes.len() > 0 ==> (passes.len() - 1) * capacity < i,
            forall|b: int|
                0 <= b < passes.len() ==> (#[trigger] passes[b])@ == pass_of(
                    items@,
                    capacity as nat,
                    stride as nat,
                    b,
                ),
        decreases count - i,
    {
        let ghost b: int = passes.len() as int;
        let ghost start: int = i as int;
        let mut pass: Vec<Draw> = Vec::new();
        let mut offset: u64 = 0;
        assert(start == b * capacity);
        while i < count && pass.len() < capacity
            invariant
                capacity > 0,
                capacity * stride <= u64::MAX,
                count == items.len(),
                start <= i <= count,
                pass.len() == i - start,
                pass.len() <= capacity,
                offset == pass.len() * stride,
                start == b * capacity,
                forall|j: int|
                    0 <= j < pass.len() ==> (#[trigger] pass[j]) == (Draw {
                        offset: (j * stride) as u64,
                        args: items[start + j],
                    }),
            decreases count - i,
        {
            pass.push(Draw { offset, args: items[i] });
            assert((pass.len() as int) * stride <= capacity * stride) by (nonlinear_arith)
                requires
                    pass.len() <= capacity,
                    stride >= 0,
            ;
            assert((pass.len() - 1) * stride + stride == pass.len() * stride)
                by (nonlinear_arith);
            offset = offset + stride;
            i = i + 1;
        }
        proof {
            assert(pass.len() == pass_len(count as nat, capacity as nat, b));
            assert(pass@ =~= pass_of(items@, capacity as nat, stride as nat, b));
            assert((b + 1) * capacity == b * capacity + capacity) by (nonlinear_arith);
        }
        passes.push(pass);
    }
    proof {
        lemma_pass_count(count as nat, capacity as nat, passes.len() as nat);
    }
    passes
}

/// A number of passes `n` that covers `count` draws without an empty pass is
/// the rounded-up quotient.
pub proof fn lemma_pass_count(count: nat, capacity: nat, n: nat)
    requires
        capacity > 0,
        n * capacity >= count,
        n > 0 ==> (n - 1) * capacity < count,
        n == 0 ==> count == 0,
    ensures
        n == pass_count(count, capacity),
{
    let c = capacity as int;
    let t = count + c - 1;
    assert(n * c <= t && t < (n + 1) * c) by (nonlinear_arith)
        requires
            n * c >= count,
            n > 0 ==> (n - 1) * c < count,
            n == 0 ==> count == 0,
            n >= 0,
            t == count + c - 1,
            c > 0,
    ;
    vstd::arithmetic::div_mod::lemma_fundamental_div_mod(t, c);
    vstd::arithmetic::div_mod::lemma_mod_bound(t, c);
    let q = t / c;
    assert(q == n) by (nonlinear_arith)
        requires
            n * c <= t < (n + 1) * c,
            t == c * q + t % c,
            0 <= t % c < c,
            c > 0,
    ;
}

} // verus!
