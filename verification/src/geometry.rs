//! The records that travel from the engine to a backend: colours, vertices
//! and draw commands, and the shape of the geometry that a rectangle adds.

use vstd::prelude::*;
use crate::arithmetic::Arithmetic;
use crate::matrix::Matrix4;
use crate::scalar::{Double, Single};

verus! {

/// An RGBA colour. The channels are meant to lie between zero and one, but
/// nothing is enforced: whatever is given is passed on unchanged.
#[derive(Clone, Copy, Debug, PartialEq, Eq)]
pub struct Color {
    pub r: Double,
    pub g: Double,
    pub b: Double,
    pub a: Double,
}

impl Color {
    /// Opaque white: one in every channel.
    pub open spec fn spec_white() -> Color {
        Color { r: Double::one(), g: Double::one(), b: Double::one(), a: Double::one() }
    }

    #[verifier::when_used_as_spec(spec_white)]
    pub fn white() -> (color: Color)
        ensures
            color == Color::spec_white(),
    {
        Color { r: Double::one(), g: Double::one(), b: Double::one(), a: Double::one() }
    }
}

/// A point in the plane: `position[0]` is x, `position[1]` is y.
#[derive(Clone, Copy, Debug, PartialEq, Eq)]
pub struct Vertex {
    pub position: [Single; 2],
}

impl Vertex {
    /// The vertex at `(x, y)`.
    pub open spec fn spec_at(x: Single, y: Single) -> Vertex {
        Vertex { position: [x, y] }
    }

    #[verifier::when_used_as_spec(spec_at)]
    pub fn at(x: Single, y: Single) -> (vertex: Vertex)
        ensures
            vertex == Vertex::spec_at(x, y),
    {
        Vertex { position: [x, y] }
    }
}

impl Default for Vertex {
    /// The origin.
    fn default() -> (vertex: Vertex)
        ensures
            vertex == Vertex::at(Single::zero(), Single::zero()),
    {
        Vertex::at(Single::zero(), Single::zero())
    }
}

/// The rendering state that a draw command was sealed under.
#[derive(Clone, Copy, Debug, PartialEq, Eq)]
pub struct PushValues {
    /// Always the identity: projecting is the backend's business.
    pub projection: Matrix4,
    /// The transform in force when the batch was sealed, transposed (the
    /// engine keeps matrices row-major, shaders read them column-major).
    pub transformation: Matrix4,
    /// The colour in force when the batch was sealed.
    pub color: Color,
}

/// A sealed batch: geometry as a triangle list, and the state to draw it in.
#[derive(Clone, Debug, PartialEq, Eq)]
pub struct DrawCommand {
    pub vertices: Vec<Vertex>,
    pub indices: Vec<u32>,
    pub push_values: PushValues,
}

/// What a [`DrawCommand`] holds, as mathematical sequences.
pub ghost struct DrawCommandView {
    pub vertices: Seq<Vertex>,
    pub indices: Seq<u32>,
    pub push_values: PushValues,
}

impl View for DrawCommand {
    type V = DrawCommandView;

    open spec fn view(&self) -> DrawCommandView {
        DrawCommandView {
            vertices: self.vertices@,
            indices: self.indices@,
            push_values: self.push_values,
        }
    }
}

/// The views of a list of commands, in the same order.
pub open spec fn command_views(commands: Seq<DrawCommand>) -> Seq<DrawCommandView> {
    commands.map_values(|command: DrawCommand| command@)
}

/// An axis-aligned rectangle, given by the coordinates of its sides.
pub ghost struct Quad {
    pub x: Single,
    pub y: Single,
    pub right: Single,
    pub bottom: Single,
}

impl Quad {
    /// The four corners, in the order the engine emits them.
    pub open spec fn vertices(self) -> Seq<Vertex> {
        seq![
            Vertex::at(self.x, self.y),
            Vertex::at(self.x, self.bottom),
            Vertex::at(self.right, self.y),
            Vertex::at(self.right, self.bottom),
        ]
    }
}

impl<
    A: Fn(Single, Single) -> Single,
    M: Fn(Single, Single) -> Single,
    C: Fn(Single) -> Single,
    S: Fn(Single) -> Single,
> Arithmetic<A, M, C, S> {
    /// `quad` is a rectangle that a corner at `(x, y)`, a width `w` and a
    /// height `h` can give: its far sides are at `x + w` and `y + h`.
    pub open spec fn is_quad(&self, x: Single, y: Single, w: Single, h: Single, quad: Quad) -> bool {
        &&& quad.x == x
        &&& quad.y == y
        &&& self.adds(x, w, quad.right)
        &&& self.adds(y, h, quad.bottom)
    }
}

/// The largest number of vertices one batch can hold: every vertex must have
/// a 32-bit index.
pub open spec fn max_batch_vertices() -> int {
    0x1_0000_0000
}

/// Which of a rectangle's four corners the `k`-th of its six indices names:
/// two triangles, `0 1 2` and `2 1 3`.
pub open spec fn quad_corner(k: int) -> int
    recommends
        0 <= k < 6,
{
    if k == 0 {
        0
    } else if k == 1 {
        1
    } else if k == 2 {
        2
    } else if k == 3 {
        2
    } else if k == 4 {
        1
    } else {
        3
    }
}

/// The six indices of a rectangle whose first corner is vertex `start`.
pub open spec fn quad_indices(start: nat) -> Seq<u32>
    recommends
        start + 3 <= u32::MAX,
{
    seq![
        start as u32,
        (start + 1) as u32,
        (start + 2) as u32,
        (start + 2) as u32,
        (start + 1) as u32,
        (start + 3) as u32,
    ]
}

/// The indices of a batch of `quads` rectangles: the `q`-th rectangle owns
/// vertices `4q .. 4q + 4` and indices `6q .. 6q + 6`.
pub open spec fn batch_indices(quads: nat) -> Seq<u32>
    recommends
        4 * quads <= max_batch_vertices(),
{
    Seq::new(6 * quads, |k: int| (4 * (k / 6) + quad_corner(k % 6)) as u32)
}

impl DrawCommandView {
    /// What holds of every command the engine seals: it is not empty, it is
    /// made of whole rectangles, its indices are those of its own rectangles,
    /// and its projection is the identity.
    pub open spec fn wf(self) -> bool {
        &&& self.vertices.len() > 0
        &&& self.vertices.len() % 4 == 0
        &&& self.vertices.len() <= max_batch_vertices()
        &&& self.indices == batch_indices(self.vertices.len() / 4)
        &&& self.push_values.projection == Matrix4::identity()
    }
}

/// A batch of one more rectangle has the indices of the batch before it,
/// followed by the six indices of the new rectangle.
pub proof fn batch_indices_grow_by_a_quad(quads: nat)
    requires
        4 * (quads + 1) <= max_batch_vertices(),
    ensures
        batch_indices(quads + 1) == batch_indices(quads) + quad_indices(4 * quads),
{
    let longer = batch_indices(quads + 1);
    let joined = batch_indices(quads) + quad_indices(4 * quads);
    assert(longer.len() == joined.len());
    assert forall|k: int| 0 <= k < longer.len() implies longer[k] == joined[k] by {
        if k >= 6 * quads {
            let c = k - 6 * quads;
            assert(k / 6 == quads && k % 6 == c);
            assert(joined[k] == quad_indices(4 * quads)[c]);
        }
    }
    assert(longer =~= joined);
}

/// Every index of a batch names a vertex of that batch.
pub proof fn batch_indices_are_in_range(quads: nat, k: int)
    requires
        4 * quads <= max_batch_vertices(),
        0 <= k < 6 * quads,
    ensures
        batch_indices(quads)[k] < 4 * quads,
        batch_indices(quads)[k] == 4 * (k / 6) + quad_corner(k % 6),
{
}

/// The indices of the `q`-th rectangle of a batch follow the pattern
/// `s, s+1, s+2, s+2, s+1, s+3`, where `s = 4q` is its first vertex.
pub proof fn batch_indices_follow_the_quad_pattern(quads: nat, q: nat)
    requires
        4 * quads <= max_batch_vertices(),
        q < quads,
    ensures
        batch_indices(quads).subrange(6 * q as int, 6 * q as int + 6) == quad_indices(4 * q),
{
    let part = batch_indices(quads).subrange(6 * q as int, 6 * q as int + 6);
    assert forall|c: int| 0 <= c < 6 implies part[c] == quad_indices(4 * q)[c] by {
        let k = 6 * q + c;
        assert(k / 6 == q && k % 6 == c);
    }
    assert(part =~= quad_indices(4 * q));
}

/// Appending a command to a list appends its view to the list's views.
pub proof fn command_views_of_push(commands: Seq<DrawCommand>, command: DrawCommand)
    ensures
        command_views(commands.push(command)) == command_views(commands).push(command@),
{
    assert(command_views(commands.push(command)) =~= command_views(commands).push(command@));
}

} // verus!
