use vstd::prelude::*;

use crate::color::Color;
use crate::rectangle::Rectangle;
use crate::scalar::ZERO_BITS;
use crate::sprite::Sprite;
use crate::vector2::Vector2;

verus! {

/// The largest number of requests one flush can compile: for every request
/// `i` below this bound, each vertex index `4·i + 3` fits the 32-bit indices
/// the backend consumes.
pub const MAX_QUADS: usize = 0x3FFF_FFFF;

/// One draw request. Scalar-valued fields (position, rotation, origin, tint,
/// depth, scale) carry raw backend-scalar bits (see the `scalar` module);
/// the source rectangle is in texels of the sprite's original image, `None`
/// meaning the entire sprite.
#[derive(Clone, Copy, Debug)]
pub struct DrawData {
    pub sprite: Sprite,
    pub position: Vector2,
    pub source: Option<Rectangle>,
    pub rotation: u32,
    pub origin: Vector2,
    pub color: Color,
    pub depth: u32,
    pub scale: Vector2,
}

impl Default for DrawData {
    /// The defaults: the reserved sprite, everything at zero, opaque-white
    /// tint, unit scale, and no source rectangle (the entire sprite).
    fn default() -> (d: DrawData)
        ensures
            d.sprite == Sprite::reserved_spec(),
            d.sprite.index_spec() == 0,
            d.sprite.dimensions_spec() == (1u32, 1u32),
            d.position == Vector2::zero_spec(),
            d.source is None,
            d.rotation == ZERO_BITS,
            d.origin == Vector2::zero_spec(),
            d.color == Color::opaque_white_spec(),
            d.depth == ZERO_BITS,
            d.scale == Vector2::one_spec(),
    {
        DrawData {
            sprite: Sprite::reserved(),
            position: Vector2::zero(),
            source: None,
            rotation: ZERO_BITS,
            origin: Vector2::zero(),
            color: Color::opaque_white(),
            depth: ZERO_BITS,
            scale: Vector2::one(),
        }
    }
}

/// The source rectangle a request selects: the one it names, or the
/// sprite's entire original (pre-padding) extent when it names none.
pub open spec fn source_rect_spec(d: DrawData) -> Rectangle {
    match d.source {
        Some(r) => r,
        None => Rectangle {
            x: 0,
            y: 0,
            width: d.sprite.dimensions_spec().0,
            height: d.sprite.dimensions_spec().1,
        },
    }
}

/// One corner of a compiled quad. `corner_x`/`corner_y` are the unit-quad
/// corner in {0, 1}; `uv_x`/`uv_y` are texel coordinates into the sprite's
/// atlas cell, which the backend divides by the cell size to get normalized
/// texture coordinates; `index` selects the atlas layer; `depth` and the
/// tint channels are routed scalar bits.
#[derive(Clone, Copy, Debug, PartialEq, Eq, Structural)]
pub struct Vertex {
    pub index: u32,
    pub corner_x: u32,
    pub corner_y: u32,
    pub depth: u32,
    pub uv_x: u64,
    pub uv_y: u64,
    pub color: Color,
}

/// The per-quad transform parameters. Applied right to left to a unit-quad
/// corner, they realize the pipeline
/// `T(position/viewport) · S(1/viewport) · R(rotation) · S(scale) ·
/// T(−origin) · S(source extent)`; the backend builds that matrix from
/// these values and the viewport size it reads at flush time.
#[derive(Clone, Copy, Debug, PartialEq, Eq, Structural)]
pub struct QuadTransform {
    pub position: Vector2,
    pub rotation: u32,
    pub scale: Vector2,
    pub origin: Vector2,
    pub source_width: u32,
    pub source_height: u32,
}

pub open spec fn quad_transform_spec(d: DrawData) -> QuadTransform {
    QuadTransform {
        position: d.position,
        rotation: d.rotation,
        scale: d.scale,
        origin: d.origin,
        source_width: source_rect_spec(d).width,
        source_height: source_rect_spec(d).height,
    }
}

/// Corner `k` (0 to 3, counter-clockwise from the near corner) of the quad
/// a request compiles to: corners (0,0), (1,0), (1,1), (0,1), each carrying
/// the matching corner of the source rectangle in texels.
pub open spec fn vertex_spec(d: DrawData, k: int) -> Vertex {
    let s = source_rect_spec(d);
    let u_min = s.x as u64;
    let v_min = s.y as u64;
    let u_max = (s.x + s.width) as u64;
    let v_max = (s.y + s.height) as u64;
    let corner_x: u32 = if k == 1 || k == 2 {
        1
    } else {
        0
    };
    let corner_y: u32 = if k == 2 || k == 3 {
        1
    } else {
        0
    };
    Vertex {
        index: d.sprite.index_spec(),
        corner_x,
        corner_y,
        depth: d.depth,
        uv_x: if k == 1 || k == 2 {
            u_max
        } else {
            u_min
        },
        uv_y: if k == 2 || k == 3 {
            v_max
        } else {
            v_min
        },
        color: d.color,
    }
}

/// Index `k` (0 to 5) of quad `i`: the two counter-clockwise triangles
/// (0,1,2) and (2,3,0), offset by the quad's base vertex `4·i`.
pub open spec fn index_spec(i: int, k: int) -> u32 {
    let off: int = if k == 0 {
        0
    } else if k == 1 {
        1
    } else if k == 2 {
        2
    } else if k == 3 {
        2
    } else if k == 4 {
        3
    } else {
        0
    };
    (4 * i + off) as u32
}

/// The geometry one flush compiles: four vertices and six indices per
/// request, in queue order, plus each request's transform parameters, ready
/// for one upload and one draw call against the atlas whose cell size is
/// recorded alongside.
pub struct FrameGeometry {
    pub cell_width: u32,
    pub cell_height: u32,
    pub vertices: Vec<Vertex>,
    pub indices: Vec<u32>,
    pub quads: Vec<QuadTransform>,
}

/// `g` is exactly the compilation of the queue `q` against an atlas with
/// cells of `cell_width × cell_height`.
pub open spec fn geometry_matches(
    g: FrameGeometry,
    q: Seq<DrawData>,
    cell_width: u32,
    cell_height: u32,
) -> bool {
    &&& g.cell_width == cell_width
    &&& g.cell_height == cell_height
    &&& g.vertices@.len() == 4 * q.len()
    &&& g.indices@.len() == 6 * q.len()
    &&& g.quads@.len() == q.len()
    &&& forall|i: int, k: int|
        0 <= i < q.len() && 0 <= k < 4 ==> g.vertices@[4 * i + k] == #[trigger] vertex_spec(
            q[i],
            k,
        )
    &&& forall|i: int, k: int|
        0 <= i < q.len() && 0 <= k < 6 ==> g.indices@[6 * i + k] == #[trigger] index_spec(i, k)
    &&& forall|i: int|
        0 <= i < q.len() ==> g.quads@[i] == #[trigger] quad_transform_spec(q[i])
}

/// The request `clear_color` enqueues: the reserved 1×1 white sprite,
/// stretched over the whole viewport and tinted with the clear color —
/// screen clearing is just another batched quad.
pub open spec fn clear_request_spec(color: Color, top_left: Vector2, size: Vector2) -> DrawData {
    DrawData {
        sprite: Sprite::reserved_spec(),
        position: top_left,
        source: None,
        rotation: ZERO_BITS,
        origin: Vector2::zero_spec(),
        color,
        depth: ZERO_BITS,
        scale: size,
    }
}

/// Accumulates draw requests and compiles them, on flush, into one
/// vertex/index stream. `draw` only appends; `flush` is the only point
/// where geometry is produced, and it always leaves the queue empty, so a
/// failed submission never resubmits stale requests.
pub struct SpriteBatch {
    cell_width: u32,
    cell_height: u32,
    queue: Vec<DrawData>,
}

impl SpriteBatch {
    /// The atlas per-layer (cell) dimensions the batch compiles texture
    /// coordinates against.
    pub closed spec fn cell_spec(self) -> (u32, u32) {
        (self.cell_width, self.cell_height)
    }

    /// The queued requests, in the order they were drawn.
    pub closed spec fn queue_spec(self) -> Seq<DrawData> {
        self.queue@
    }

    /// The queue never outgrows what 32-bit vertex indices can address.
    pub open spec fn wf(self) -> bool {
        self.queue_spec().len() <= MAX_QUADS
    }

    /// A batch for an atlas whose layers are `cell_width × cell_height`.
    pub fn new(cell_width: u32, cell_height: u32) -> (b: SpriteBatch)
        ensures
            b.wf(),
            b.cell_spec() == (cell_width, cell_height),
            b.queue_spec().len() == 0,
    {
        SpriteBatch { cell_width, cell_height, queue: Vec::new() }
    }

    pub fn len(&self) -> (n: usize)
        ensures
            n == self.queue_spec().len(),
    {
        self.queue.len()
    }

    /// Appends a request to the queue; nothing else happens until flush.
    pub fn draw(&mut self, draw_data: DrawData)
        requires
            old(self).wf(),
            old(self).queue_spec().len() < MAX_QUADS,
        ensures
            final(self).wf(),
            final(self).cell_spec() == old(self).cell_spec(),
            final(self).queue_spec() == old(self).queue_spec().push(draw_data),
    {
        self.queue.push(draw_data);
    }

    /// Enqueues a full-viewport quad of the reserved white sprite tinted
    /// with `color`: clearing the screen is an ordinary draw. The caller
    /// supplies the viewport placement, which it reads from the window.
    pub fn clear_color(&mut self, color: Color, viewport_top_left: Vector2, viewport_size: Vector2)
        requires
            old(self).wf(),
            old(self).queue_spec().len() < MAX_QUADS,
        ensures
            final(self).wf(),
            final(self).cell_spec() == old(self).cell_spec(),
            final(self).queue_spec() == old(self).queue_spec().push(
                clear_request_spec(color, viewport_top_left, viewport_size),
            ),
            final(self).queue_spec().last().sprite.index_spec() == 0,
            final(self).queue_spec().last().sprite.dimensions_spec() == (1u32, 1u32),
    {
        self.draw(
            DrawData {
                sprite: Sprite::reserved(),
                position: viewport_top_left,
                source: None,
                rotation: ZERO_BITS,
                origin: Vector2::zero(),
                color,
                depth: ZERO_BITS,
                scale: viewport_size,
            },
        );
    }

    /// Compiles the queue into frame geometry and empties it. An empty
    /// queue yields `None`: nothing is handed to the GPU. Whatever the
    /// backend then makes of the geometry, the queue is already empty, so a
    /// failed frame is dropped, never retried with stale data.
    #[verifier::loop_isolation(false)]
    pub fn flush(&mut self) -> (r: Option<FrameGeometry>)
        requires
            old(self).wf(),
        ensures
            final(self).wf(),
            final(self).cell_spec() == old(self).cell_spec(),
            final(self).queue_spec().len() == 0,
            r is None <==> old(self).queue_spec().len() == 0,
            r is Some ==> geometry_matches(
                r->0,
                old(self).queue_spec(),
                old(self).cell_spec().0,
                old(self).cell_spec().1,
            ),
    {
        if self.queue.is_empty() {
            return None;
        }
        let n = self.queue.len();
        let mut vertices: Vec<Vertex> = Vec::new();
        let mut indices: Vec<u32> = Vec::new();
        let mut quads: Vec<QuadTransform> = Vec::new();
        let mut i: usize = 0;
        while i < n
            invariant
                n == self.queue@.len(),
                self == old(self),
                0 <= i <= n,
                vertices@.len() == 4 * i,
                indices@.len() == 6 * i,
                quads@.len() == i,
                forall|q: int, k: int|
                    0 <= q < i && 0 <= k < 4 ==> vertices@[4 * q + k] == #[trigger] vertex_spec(
                        self.queue@[q],
                        k,
                    ),
                forall|q: int, k: int|
                    0 <= q < i && 0 <= k < 6 ==> indices@[6 * q + k] == #[trigger] index_spec(q, k),
                forall|q: int|
                    0 <= q < i ==> quads@[q] == #[trigger] quad_transform_spec(self.queue@[q]),
            decreases n - i,
        {
            let d = self.queue[i];
            let source = match d.source {
                Some(r) => r,
                None => {
                    let dims = d.sprite.dimensions();
                    Rectangle::new(0, 0, dims.0, dims.1)
                },
            };
            proof {
                assert(source == source_rect_spec(d));
            }
            let u_min = source.x as u64;
            let v_min = source.y as u64;
            let u_max = source.x as u64 + source.width as u64;
            let v_max = source.y as u64 + source.height as u64;
            let layer = d.sprite.index();

            vertices.push(
                Vertex {
                    index: layer,
                    corner_x: 0,
                    corner_y: 0,
                    depth: d.depth,
                    uv_x: u_min,
                    uv_y: v_min,
                    color: d.color,
                },
            );
            vertices.push(
                Vertex {
                    index: layer,
                    corner_x: 1,
                    corner_y: 0,
                    depth: d.depth,
                    uv_x: u_max,
                    uv_y: v_min,
                    color: d.color,
                },
            );
            vertices.push(
                Vertex {
                    index: layer,
                    corner_x: 1,
                    corner_y: 1,
                    depth: d.depth,
                    uv_x: u_max,
                    uv_y: v_max,
                    color: d.color,
                },
            );
            vertices.push(
                Vertex {
                    index: layer,
                    corner_x: 0,
                    corner_y: 1,
                    depth: d.depth,
                    uv_x: u_min,
                    uv_y: v_max,
                    color: d.color,
                },
            );

            let base: u32 = (i as u32) * 4;
            indices.push(base);
            indices.push(base + 1);
            indices.push(base + 2);
            indices.push(base + 2);
            indices.push(base + 3);
            indices.push(base);

            quads.push(
                QuadTransform {
                    position: d.position,
                    rotation: d.rotation,
                    scale: d.scale,
                    origin: d.origin,
                    source_width: source.width,
                    source_height: source.height,
                },
            );

            proof {
                assert(vertices@[4 * i as int + 0] == vertex_spec(d, 0));
                assert(vertices@[4 * i as int + 1] == vertex_spec(d, 1));
                assert(vertices@[4 * i as int + 2] == vertex_spec(d, 2));
                assert(vertices@[4 * i as int + 3] == vertex_spec(d, 3));
                assert(indices@[6 * i as int + 0] == index_spec(i as int, 0));
                assert(indices@[6 * i as int + 1] == index_spec(i as int, 1));
                assert(indices@[6 * i as int + 2] == index_spec(i as int, 2));
                assert(indices@[6 * i as int + 3] == index_spec(i as int, 3));
                assert(indices@[6 * i as int + 4] == index_spec(i as int, 4));
                assert(indices@[6 * i as int + 5] == index_spec(i as int, 5));
                assert(quads@[i as int] == quad_transform_spec(d));
            }
            i += 1;
        }
        self.queue.clear();
        Some(
            FrameGeometry {
                cell_width: self.cell_width,
                cell_height: self.cell_height,
                vertices,
                indices,
                quads,
            },
        )
    }
}

/// A request that names no source rectangle selects exactly the sprite's
/// original, pre-padding extent: its quad's texel coordinates run from
/// (0, 0) to the registered width and height, not to the padded cell size.
pub proof fn lemma_default_source_covers_original(d: DrawData)
    requires
        d.source is None,
    ensures
        source_rect_spec(d) == (Rectangle {
            x: 0,
            y: 0,
            width: d.sprite.dimensions_spec().0,
            height: d.sprite.dimensions_spec().1,
        }),
        vertex_spec(d, 0).uv_x == 0 && vertex_spec(d, 0).uv_y == 0,
        vertex_spec(d, 2).uv_x == d.sprite.dimensions_spec().0 && vertex_spec(d, 2).uv_y
            == d.sprite.dimensions_spec().1,
{
}

} // verus!
