//! The drawing engine and the backend it feeds.
//!
//! [`Graphics`] queues rectangles into a pending batch, seals the batch into
//! a draw command whenever the colour or the transform is about to change,
//! and hands the sealed commands to a [`GraphicsBackend`] at present time.
//! What each call does to the batches is stated against
//! [`BatcherState`]; what it hands to the backend is stated against the
//! relations that the backend declares.

use vstd::prelude::*;
use crate::arithmetic::Arithmetic;
use crate::batch::BatcherState;
use crate::geometry::{
    batch_indices,
    batch_indices_grow_by_a_quad,
    command_views,
    command_views_of_push,
    max_batch_vertices,
    quad_indices,
    Color,
    DrawCommand,
    DrawCommandView,
    PushValues,
    Quad,
    Vertex,
};
use crate::matrix::Matrix4;
use crate::scalar::{Double, Single};
use crate::transform::TransformRegister;

verus! {

/// What the engine needs of whatever renders its commands. The backend owns
/// every GPU resource; the engine only calls these three operations.
///
/// Each operation comes with a relation between the backend before the call
/// and the backend after it. A backend promises nothing unless it says so:
/// the relations hold of any two states until an implementation overrides
/// them. The engine's contracts use them to say which call it made, and with
/// what.
pub trait GraphicsBackend {
    /// The surface has changed size and must be recreated before, or
    /// during, the next present.
    fn request_swapchain_recreation(&mut self, new_width: u32, new_height: u32)
        ensures
            final(self).recreation_requested(old(self), new_width, new_height),
    ;

    /// The background of the next frames.
    fn set_clear_color(&mut self, r: Double, g: Double, b: Double, a: Double)
        ensures
            final(self).clear_color_set(old(self), r, g, b, a),
    ;

    /// Render and display these commands, in this order.
    fn present(&mut self, draw_commands: Vec<DrawCommand>)
        ensures
            final(self).presented(old(self), command_views(draw_commands@)),
    ;

    /// `self` is a state that the backend `before` can be in once it has
    /// been asked to recreate its surface at `new_width` by `new_height`.
    open spec fn recreation_requested(&self, before: &Self, new_width: u32, new_height: u32) -> bool {
        true
    }

    /// `self` is a state that the backend `before` can be in once it has
    /// been given the clear colour `(r, g, b, a)`.
    open spec fn clear_color_set(&self, before: &Self, r: Double, g: Double, b: Double, a: Double) -> bool {
        true
    }

    /// `self` is a state that the backend `before` can be in once it has
    /// been given `frame` to present.
    open spec fn presented(&self, before: &Self, frame: Seq<DrawCommandView>) -> bool {
        true
    }
}

/// The batch being gathered. It is always made of whole rectangles, each
/// with the six indices of its own four vertices.
struct PendingBatch {
    vertices: Vec<Vertex>,
    indices: Vec<u32>,
}

impl PendingBatch {
    #[verifier::type_invariant]
    spec fn wf(&self) -> bool {
        &&& self.vertices@.len() % 4 == 0
        &&& self.vertices@.len() <= max_batch_vertices()
        &&& self.indices@ == batch_indices(self.vertices@.len() / 4)
    }

    fn new() -> (batch: PendingBatch)
        ensures
            batch.vertices@ == Seq::<Vertex>::empty(),
            batch.indices@ == Seq::<u32>::empty(),
    {
        let vertices: Vec<Vertex> = Vec::new();
        let indices: Vec<u32> = Vec::new();
        proof {
            assert(indices@ =~= batch_indices(0));
        }
        PendingBatch { vertices, indices }
    }

    /// Appends the four corners of a rectangle and the six indices that
    /// make two triangles of them.
    fn push_quad(&mut self, x: Single, y: Single, right: Single, bottom: Single)
        requires
            old(self).vertices@.len() + 4 <= max_batch_vertices(),
        ensures
            final(self).vertices@ == old(self).vertices@ + (Quad { x, y, right, bottom }).vertices(),
            final(self).indices@ == old(self).indices@ + quad_indices(old(self).vertices@.len()),
    {
        let mut batch = PendingBatch::new();
        core::mem::swap(self, &mut batch);
        proof {
            use_type_invariant(&batch);
        }
        let PendingBatch { mut vertices, mut indices } = batch;
        let start = vertices.len() as u32;

        vertices.push(Vertex::at(x, y));
        vertices.push(Vertex::at(x, bottom));
        vertices.push(Vertex::at(right, y));
        vertices.push(Vertex::at(right, bottom));

        indices.push(start);
        indices.push(start + 1);
        indices.push(start + 2);
        indices.push(start + 2);
        indices.push(start + 1);
        indices.push(start + 3);

        proof {
            let quad = Quad { x, y, right, bottom };
            let before = old(self).vertices@.len();
            assert(vertices@ =~= old(self).vertices@ + quad.vertices());
            assert(indices@ =~= old(self).indices@ + quad_indices(before));
            batch_indices_grow_by_a_quad(before / 4);
            assert(vertices@.len() / 4 == before / 4 + 1);
        }
        *self = PendingBatch { vertices, indices };
    }

    /// Empties the batch and returns what it held.
    fn take(&mut self) -> (geometry: (Vec<Vertex>, Vec<u32>))
        ensures
            geometry.0@ == old(self).vertices@,
            geometry.1@ == old(self).indices@,
            final(self).vertices@ == Seq::<Vertex>::empty(),
            final(self).indices@ == Seq::<u32>::empty(),
    {
        let mut batch = PendingBatch::new();
        core::mem::swap(self, &mut batch);
        let PendingBatch { vertices, indices } = batch;
        (vertices, indices)
    }
}

/// The commands sealed since the last present. Every one of them is well
/// formed.
struct SealedCommands {
    commands: Vec<DrawCommand>,
}

impl SealedCommands {
    #[verifier::type_invariant]
    spec fn wf(&self) -> bool {
        forall|i: int|
            0 <= i < command_views(self.commands@).len() ==> (#[trigger] command_views(
                self.commands@,
            )[i]).wf()
    }

    fn new() -> (sealed: SealedCommands)
        ensures
            sealed.commands@ == Seq::<DrawCommand>::empty(),
    {
        SealedCommands { commands: Vec::new() }
    }

    /// Appends a command.
    fn push(&mut self, command: DrawCommand)
        requires
            command@.wf(),
        ensures
            final(self).commands@ == old(self).commands@.push(command),
    {
        let mut sealed = SealedCommands::new();
        core::mem::swap(self, &mut sealed);
        proof {
            use_type_invariant(&sealed);
        }
        let SealedCommands { mut commands } = sealed;
        commands.push(command);
        proof {
            command_views_of_push(old(self).commands@, command);
        }
        *self = SealedCommands { commands };
    }

    /// Empties the list and returns what it held.
    fn take(&mut self) -> (commands: Vec<DrawCommand>)
        ensures
            commands@ == old(self).commands@,
            final(self).commands@ == Seq::<DrawCommand>::empty(),
    {
        let mut sealed = SealedCommands::new();
        core::mem::swap(self, &mut sealed);
        let SealedCommands { commands } = sealed;
        commands
    }
}

/// The drawing engine.
pub struct Graphics<
    T: GraphicsBackend,
    A: Fn(Single, Single) -> Single,
    M: Fn(Single, Single) -> Single,
    C: Fn(Single) -> Single,
    S: Fn(Single) -> Single,
> {
    backend: T,
    arithmetic: Arithmetic<A, M, C, S>,
    pending: PendingBatch,
    transformation: TransformRegister,
    draw_commands: SealedCommands,
    color: Color,
}

impl<
    T: GraphicsBackend,
    A: Fn(Single, Single) -> Single,
    M: Fn(Single, Single) -> Single,
    C: Fn(Single) -> Single,
    S: Fn(Single) -> Single,
> View for Graphics<T, A, M, C, S> {
    type V = BatcherState;

    closed spec fn view(&self) -> BatcherState {
        BatcherState {
            vertices: self.pending.vertices@,
            indices: self.pending.indices@,
            committed: command_views(self.draw_commands.commands@),
            color: self.color,
            transform: self.transformation@,
        }
    }
}

impl<
    T: GraphicsBackend,
    A: Fn(Single, Single) -> Single,
    M: Fn(Single, Single) -> Single,
    C: Fn(Single) -> Single,
    S: Fn(Single) -> Single,
> Graphics<T, A, M, C, S> {
    /// The backend that the engine presents to.
    pub closed spec fn spec_backend(&self) -> T {
        self.backend
    }

    /// The arithmetic that the engine rounds with.
    pub closed spec fn spec_arithmetic(&self) -> Arithmetic<A, M, C, S> {
        self.arithmetic
    }

    /// `other` has the same backend, in the same state, and the same
    /// arithmetic as `self`.
    pub open spec fn same_collaborators(&self, other: &Self) -> bool {
        &&& self.spec_backend() == other.spec_backend()
        &&& self.spec_arithmetic() == other.spec_arithmetic()
    }

    /// An engine with nothing queued and nothing sealed, drawing in opaque
    /// white under the identity transform.
    pub fn new(graphics_backend: T, arithmetic: Arithmetic<A, M, C, S>) -> (graphics: Self)
        ensures
            graphics@ == BatcherState::initial(),
            graphics@.wf(),
            graphics.spec_backend() == graphics_backend,
            graphics.spec_arithmetic() == arithmetic,
    {
        let graphics = Graphics {
            backend: graphics_backend,
            arithmetic,
            pending: PendingBatch::new(),
            transformation: TransformRegister::new(),
            draw_commands: SealedCommands::new(),
            color: Color::white(),
        };
        proof {
            BatcherState::initial_is_wf();
            assert(graphics@.committed =~= BatcherState::initial().committed);
        }
        graphics
    }

    /// Seals the pending batch under the colour in force, then makes `color`
    /// the colour of what is queued from now on.
    pub fn set_color(&mut self, color: Color)
        ensures
            final(self)@ == old(self)@.set_color(color),
            final(self)@.wf(),
            final(self).same_collaborators(old(self)),
    {
        self.flush_batched_draws();
        self.color = color;
        proof {
            use_type_invariant(&self.pending);
            use_type_invariant(&self.draw_commands);
        }
    }

    /// Seals the pending batch under the transform in force, then resets the
    /// transform to the identity.
    pub fn origin(&mut self)
        ensures
            final(self)@ == old(self)@.origin(),
            final(self)@.transform == Matrix4::identity(),
            final(self)@.wf(),
            final(self).same_collaborators(old(self)),
    {
        self.flush_batched_draws();
        self.transformation.reset();
        proof {
            use_type_invariant(&self.pending);
            use_type_invariant(&self.draw_commands);
        }
    }

    /// Seals the pending batch under the transform in force, then composes a
    /// translation by `(x, y)` onto the transform: the new transform is
    /// `old × translation(x, y, 0)`.
    pub fn translate(&mut self, x: Single, y: Single)
        ensures
            exists|transform: Matrix4|
                #![trigger old(self)@.retransform(transform)]
                {
                    &&& old(self).spec_arithmetic().is_product(
                        old(self)@.transform,
                        Matrix4::translation(x, y, Single::zero()),
                        transform,
                    )
                    &&& final(self)@ == old(self)@.retransform(transform)
                },
            final(self)@.wf(),
            final(self).same_collaborators(old(self)),
    {
        self.flush_batched_draws();
        let op = Matrix4::translation(x, y, Single::zero());
        self.transformation.compose(&op, &self.arithmetic);
        proof {
            use_type_invariant(&self.pending);
            use_type_invariant(&self.draw_commands);
            let transform = self.transformation@;
            assert(self@ == old(self)@.retransform(transform));
        }
    }

    /// Seals the pending batch under the transform in force, then composes a
    /// rotation by `r` onto the transform: the new transform is
    /// `old × rotation(r)`.
    pub fn rotate(&mut self, r: Single)
        ensures
            exists|rotation: Matrix4, transform: Matrix4|
                #![trigger old(self).spec_arithmetic().is_product(old(self)@.transform, rotation, transform)]
                {
                    &&& old(self).spec_arithmetic().is_rotation(r, rotation)
                    &&& old(self).spec_arithmetic().is_product(
                        old(self)@.transform,
                        rotation,
                        transform,
                    )
                    &&& final(self)@ == old(self)@.retransform(transform)
                },
            final(self)@.wf(),
            final(self).same_collaborators(old(self)),
    {
        self.flush_batched_draws();
        let op = Matrix4::rotation(r, &self.arithmetic);
        self.transformation.compose(&op, &self.arithmetic);
        proof {
            use_type_invariant(&self.pending);
            use_type_invariant(&self.draw_commands);
            let transform = self.transformation@;
            assert(self@ == old(self)@.retransform(transform));
            assert(old(self).spec_arithmetic().is_product(old(self)@.transform, op, transform));
        }
    }

    /// Seals the pending batch into a draw command, if anything is pending:
    /// the command takes the pending vertices and indices, the transposed
    /// transform and the colour, and goes to the end of the sealed list.
    /// With nothing pending, nothing happens.
    pub fn flush_batched_draws(&mut self)
        ensures
            final(self)@ == old(self)@.flush(),
            final(self)@.wf(),
            final(self).same_collaborators(old(self)),
    {
        proof {
            use_type_invariant(&self.pending);
            use_type_invariant(&self.draw_commands);
        }
        if self.pending.vertices.len() > 0 {
            let (vertices, indices) = self.pending.take();
            let transformation = self.transformation.current().transposed();
            let push_values = PushValues {
                projection: Matrix4::identity(),
                transformation,
                color: self.color,
            };
            let draw_command = DrawCommand { indices, vertices, push_values };
            proof {
                command_views_of_push(self.draw_commands.commands@, draw_command);
                assert(draw_command@ == old(self)@.pending_command());
            }
            self.draw_commands.push(draw_command);
        }
        proof {
            old(self)@.flush_keeps_wf();
        }
    }

    /// Tells the backend that the surface must be recreated. The batches are
    /// not touched.
    pub fn request_swapchain_recreation(&mut self, new_width: u32, new_height: u32)
        ensures
            final(self).spec_backend().recreation_requested(
                &old(self).spec_backend(),
                new_width,
                new_height,
            ),
            final(self)@ == old(self)@,
            final(self)@.wf(),
            final(self).spec_arithmetic() == old(self).spec_arithmetic(),
    {
        self.backend.request_swapchain_recreation(new_width, new_height);
        proof {
            use_type_invariant(&self.pending);
            use_type_invariant(&self.draw_commands);
        }
    }

    /// Tells the backend which colour to clear the next frames with. The
    /// batches, and the drawing colour, are not touched.
    pub fn set_clear_color(&mut self, r: Double, g: Double, b: Double, a: Double)
        ensures
            final(self).spec_backend().clear_color_set(&old(self).spec_backend(), r, g, b, a),
            final(self)@ == old(self)@,
            final(self)@.wf(),
            final(self).spec_arithmetic() == old(self).spec_arithmetic(),
    {
        self.backend.set_clear_color(r, g, b, a);
        proof {
            use_type_invariant(&self.pending);
            use_type_invariant(&self.draw_commands);
        }
    }

    /// Whether the pending batch can take one more rectangle: a batch holds
    /// at most 2^32 vertices, so that each has a 32-bit index.
    pub fn has_room(&self) -> (room: bool)
        ensures
            room == self@.has_room(),
            self@.wf(),
    {
        proof {
            use_type_invariant(&self.pending);
            use_type_invariant(&self.draw_commands);
        }
        self.pending.vertices.len() <= 0xFFFF_FFFC
    }

    /// Queues the rectangle with a corner at `(x, y)`, width `w` and height
    /// `h`: four vertices, at `(x, y)`, `(x, y + h)`, `(x + w, y)` and
    /// `(x + w, y + h)`, and the six indices `s, s+1, s+2, s+2, s+1, s+3`,
    /// where `s` is the number of vertices that were pending. Nothing is
    /// sealed; a width or height of zero is queued like any other.
    pub fn rectangle(&mut self, x: Single, y: Single, w: Single, h: Single)
        requires
            old(self)@.has_room(),
        ensures
            exists|quad: Quad|
                #![trigger old(self)@.rectangle(quad)]
                {
                    &&& old(self).spec_arithmetic().is_quad(x, y, w, h, quad)
                    &&& final(self)@ == old(self)@.rectangle(quad)
                },
            final(self)@.wf(),
            final(self).same_collaborators(old(self)),
    {
        let right = self.arithmetic.add(x, w);
        let bottom = self.arithmetic.add(y, h);
        self.pending.push_quad(x, y, right, bottom);
        proof {
            use_type_invariant(&self.pending);
            use_type_invariant(&self.draw_commands);
            let quad = Quad { x, y, right, bottom };
            assert(self@ == old(self)@.rectangle(quad));
        }
    }

    /// Ends the frame: seals the pending batch and takes every sealed
    /// command out of the engine, oldest first. Afterwards nothing is
    /// pending and nothing is sealed; colour and transform stay.
    pub fn finish_frame(&mut self) -> (frame: Vec<DrawCommand>)
        ensures
            command_views(frame@) == old(self)@.frame(),
            final(self)@ == old(self)@.present(),
            final(self)@.wf(),
            final(self).same_collaborators(old(self)),
    {
        self.flush_batched_draws();
        let frame = self.draw_commands.take();
        proof {
            use_type_invariant(&self.pending);
            use_type_invariant(&self.draw_commands);
            assert(self@.committed =~= old(self)@.present().committed);
        }
        frame
    }

    /// Ends the frame and hands it to the backend: every sealed command and
    /// the pending batch, oldest first, in one call. Afterwards nothing is
    /// pending and nothing is sealed. What the backend does with the frame
    /// is its own business; the engine is told nothing back.
    pub fn present(&mut self)
        ensures
            final(self).spec_backend().presented(&old(self).spec_backend(), old(self)@.frame()),
            final(self)@ == old(self)@.present(),
            final(self)@.wf(),
            final(self).spec_arithmetic() == old(self).spec_arithmetic(),
    {
        let draw_commands = self.finish_frame();
        self.backend.present(draw_commands);
        proof {
            use_type_invariant(&self.pending);
            use_type_invariant(&self.draw_commands);
        }
    }

    /// The backend.
    pub fn backend(&self) -> (backend: &T)
        ensures
            *backend == self.spec_backend(),
    {
        &self.backend
    }

    /// The commands sealed since the last present, oldest first.
    pub fn draw_commands(&self) -> (draw_commands: &Vec<DrawCommand>)
        ensures
            command_views(draw_commands@) == self@.committed,
            self@.wf(),
    {
        proof {
            use_type_invariant(&self.pending);
            use_type_invariant(&self.draw_commands);
        }
        &self.draw_commands.commands
    }

    /// The vertices of the pending batch.
    pub fn vertices(&self) -> (vertices: &Vec<Vertex>)
        ensures
            vertices@ == self@.vertices,
            self@.wf(),
    {
        proof {
            use_type_invariant(&self.pending);
            use_type_invariant(&self.draw_commands);
        }
        &self.pending.vertices
    }

    /// The indices of the pending batch.
    pub fn indices(&self) -> (indices: &Vec<u32>)
        ensures
            indices@ == self@.indices,
            self@.wf(),
    {
        proof {
            use_type_invariant(&self.pending);
            use_type_invariant(&self.draw_commands);
        }
        &self.pending.indices
    }

    /// The colour that the pending batch will be sealed with.
    pub fn color(&self) -> (color: Color)
        ensures
            color == self@.color,
    {
        self.color
    }

    /// The transform that the pending batch will be sealed with.
    pub fn transformation(&self) -> (transformation: Matrix4)
        ensures
            transformation == self@.transform,
    {
        self.transformation.current()
    }
}

} // verus!
