//! The batching rules, as a mathematical state and the steps between states.
//!
//! [`BatcherState`] is what the engine's contracts speak of. Each operation
//! of the engine is one step defined here, and what the steps have in common
//! is proved here: that a sealed command never changes, that a batch is sealed
//! under the state it was queued in, that an empty batch seals to nothing.

use vstd::prelude::*;
use crate::geometry::{
    batch_indices,
    batch_indices_are_in_range,
    batch_indices_follow_the_quad_pattern,
    batch_indices_grow_by_a_quad,
    max_batch_vertices,
    quad_indices,
    Color,
    DrawCommandView,
    PushValues,
    Quad,
    Vertex,
};
use crate::matrix::Matrix4;

verus! {

/// The state of the engine between two calls.
pub ghost struct BatcherState {
    /// Vertices queued since the last flush.
    pub vertices: Seq<Vertex>,
    /// Indices queued since the last flush.
    pub indices: Seq<u32>,
    /// Commands sealed since the last present, oldest first.
    pub committed: Seq<DrawCommandView>,
    /// The colour that the pending batch will be sealed with.
    pub color: Color,
    /// The transform that the pending batch will be sealed with.
    pub transform: Matrix4,
}

impl BatcherState {
    /// The state of a new engine: nothing queued, nothing sealed, opaque
    /// white, no transform.
    pub open spec fn initial() -> BatcherState {
        BatcherState {
            vertices: Seq::empty(),
            indices: Seq::empty(),
            committed: Seq::empty(),
            color: Color::white(),
            transform: Matrix4::identity(),
        }
    }

    /// What holds between calls: the pending batch is made of whole
    /// rectangles and its indices are those of its own rectangles, and every
    /// sealed command is well formed.
    pub open spec fn wf(self) -> bool {
        &&& self.vertices.len() % 4 == 0
        &&& self.vertices.len() <= max_batch_vertices()
        &&& self.indices == batch_indices(self.vertices.len() / 4)
        &&& forall|i: int| 0 <= i < self.committed.len() ==> (#[trigger] self.committed[i]).wf()
    }

    /// Whether the pending batch has room for one more rectangle.
    pub open spec fn has_room(self) -> bool {
        self.vertices.len() + 4 <= max_batch_vertices()
    }

    /// The command that sealing the pending batch gives.
    pub open spec fn pending_command(self) -> DrawCommandView {
        DrawCommandView {
            vertices: self.vertices,
            indices: self.indices,
            push_values: PushValues {
                projection: Matrix4::identity(),
                transformation: self.transform.transposed(),
                color: self.color,
            },
        }
    }

    /// Queue the rectangle `quad`: four vertices and six indices, nothing
    /// sealed.
    pub open spec fn rectangle(self, quad: Quad) -> BatcherState {
        BatcherState {
            vertices: self.vertices + quad.vertices(),
            indices: self.indices + quad_indices(self.vertices.len()),
            ..self
        }
    }

    /// Queue the rectangles `quads`, first to last.
    pub open spec fn rectangles(self, quads: Seq<Quad>) -> BatcherState
        decreases quads.len(),
    {
        if quads.len() == 0 {
            self
        } else {
            self.rectangles(quads.drop_last()).rectangle(quads.last())
        }
    }

    /// Seal the pending batch, if there is one.
    pub open spec fn flush(self) -> BatcherState {
        if self.vertices.len() > 0 {
            BatcherState {
                vertices: Seq::empty(),
                indices: Seq::empty(),
                committed: self.committed.push(self.pending_command()),
                ..self
            }
        } else {
            self
        }
    }

    /// Seal the pending batch under the old colour, then change colour.
    pub open spec fn set_color(self, color: Color) -> BatcherState {
        BatcherState { color, ..self.flush() }
    }

    /// Seal the pending batch under the old transform, then drop the
    /// transform.
    pub open spec fn origin(self) -> BatcherState {
        BatcherState { transform: Matrix4::identity(), ..self.flush() }
    }

    /// Seal the pending batch under the old transform, then replace the
    /// transform by `transform`.
    pub open spec fn retransform(self, transform: Matrix4) -> BatcherState {
        BatcherState { transform, ..self.flush() }
    }

    /// The commands that a present hands to the backend: all that were
    /// sealed, and the pending batch as the last of them.
    pub open spec fn frame(self) -> Seq<DrawCommandView> {
        self.flush().committed
    }

    /// The state after a present: nothing queued, nothing sealed, colour and
    /// transform as they were.
    pub open spec fn present(self) -> BatcherState {
        BatcherState { committed: Seq::empty(), ..self.flush() }
    }

    /// A new engine is well formed.
    pub proof fn initial_is_wf()
        ensures
            BatcherState::initial().wf(),
    {
        assert(BatcherState::initial().indices =~= batch_indices(0));
    }

    /// Queuing a rectangle keeps a state with room well formed.
    pub proof fn rectangle_keeps_wf(self, quad: Quad)
        requires
            self.wf(),
            self.has_room(),
        ensures
            self.rectangle(quad).wf(),
    {
        let quads = self.vertices.len() / 4;
        batch_indices_grow_by_a_quad(quads);
        assert(self.rectangle(quad).vertices.len() / 4 == quads + 1);
    }

    /// Sealing keeps a state well formed.
    pub proof fn flush_keeps_wf(self)
        requires
            self.wf(),
        ensures
            self.flush().wf(),
    {
        let next = self.flush();
        assert(next.indices =~= batch_indices(next.vertices.len() / 4));
        assert forall|i: int| 0 <= i < next.committed.len() implies (
        #[trigger] next.committed[i]).wf() by {
            if i < self.committed.len() {
                assert(next.committed[i] == self.committed[i]);
            }
        }
    }

    /// Every step but queuing keeps a state well formed, whatever colour or
    /// transform it installs.
    pub proof fn steps_keep_wf(self, color: Color, transform: Matrix4)
        requires
            self.wf(),
        ensures
            self.flush().wf(),
            self.set_color(color).wf(),
            self.origin().wf(),
            self.retransform(transform).wf(),
            self.present().wf(),
            forall|i: int| 0 <= i < self.frame().len() ==> (#[trigger] self.frame()[i]).wf(),
    {
        self.flush_keeps_wf();
    }

    /// Sealing an empty batch changes nothing: no empty command is ever
    /// committed.
    pub proof fn flush_of_nothing_is_nothing(self)
        requires
            self.vertices.len() == 0,
        ensures
            self.flush() == self,
    {
    }

    /// After a flush nothing is pending, so a second flush changes nothing.
    pub proof fn flush_twice_is_flush(self)
        requires
            self.wf(),
        ensures
            self.flush().vertices.len() == 0,
            self.flush().indices.len() == 0,
            self.flush().flush() == self.flush(),
    {
    }

    /// In a well-formed state every pending index names a pending vertex,
    /// and every index of a sealed command names a vertex of that command.
    pub proof fn indices_stay_inside_their_batch(self)
        requires
            self.wf(),
        ensures
            forall|k: int|
                0 <= k < self.indices.len() ==> (#[trigger] self.indices[k]) < self.vertices.len(),
            forall|i: int, k: int|
                0 <= i < self.committed.len() && 0 <= k < self.committed[i].indices.len() ==> (
                #[trigger] self.committed[i].indices[k]) < self.committed[i].vertices.len(),
    {
        assert forall|k: int| 0 <= k < self.indices.len() implies (#[trigger] self.indices[k])
            < self.vertices.len() by {
            batch_indices_are_in_range(self.vertices.len() / 4, k);
        }
        assert forall|i: int, k: int|
            0 <= i < self.committed.len() && 0 <= k < self.committed[i].indices.len() implies (
        #[trigger] self.committed[i].indices[k]) < self.committed[i].vertices.len() by {
            assert(self.committed[i].wf());
            batch_indices_are_in_range(self.committed[i].vertices.len() / 4, k);
        }
    }

    /// In a well-formed state the pending batch holds six indices for every
    /// four vertices, and the `q`-th rectangle's indices are
    /// `s, s+1, s+2, s+2, s+1, s+3` with `s = 4q`.
    pub proof fn pending_indices_follow_the_quad_pattern(self, q: nat)
        requires
            self.wf(),
            q < self.vertices.len() / 4,
        ensures
            self.indices.len() * 4 == self.vertices.len() * 6,
            self.indices.subrange(6 * q as int, 6 * q as int + 6) == quad_indices(4 * q),
    {
        batch_indices_follow_the_quad_pattern(self.vertices.len() / 4, q);
    }

    /// Queuing rectangles seals nothing and changes neither colour nor
    /// transform; it adds four vertices and six indices for each.
    pub proof fn rectangles_only_queue(self, quads: Seq<Quad>)
        requires
            self.wf(),
            self.vertices.len() + 4 * quads.len() <= max_batch_vertices(),
        ensures
            self.rectangles(quads).wf(),
            self.rectangles(quads).committed == self.committed,
            self.rectangles(quads).color == self.color,
            self.rectangles(quads).transform == self.transform,
            self.rectangles(quads).vertices.len() == self.vertices.len() + 4 * quads.len(),
            self.rectangles(quads).indices.len() == self.indices.len() + 6 * quads.len(),
        decreases quads.len(),
    {
        if quads.len() > 0 {
            let before = self.rectangles(quads.drop_last());
            self.rectangles_only_queue(quads.drop_last());
            before.rectangle_keeps_wf(quads.last());
        }
    }

    /// However many rectangles are queued one after another, a flush seals
    /// them into exactly one command. From a state with nothing pending,
    /// `n >= 1` rectangles give a command of `4n` vertices and `6n` indices,
    /// sealed under the colour and the transform of that state; no rectangle
    /// at all gives no command.
    pub proof fn rectangles_flush_to_one_command(self, quads: Seq<Quad>)
        requires
            self.wf(),
            self.vertices.len() == 0,
            4 * quads.len() <= max_batch_vertices(),
        ensures
            quads.len() == 0 ==> self.rectangles(quads).flush() == self,
            quads.len() > 0 ==> {
                let sealed = self.rectangles(quads).flush();
                &&& sealed.committed.len() == self.committed.len() + 1
                &&& sealed.committed.drop_last() == self.committed
                &&& sealed.committed.last().vertices.len() == 4 * quads.len()
                &&& sealed.committed.last().indices.len() == 6 * quads.len()
                &&& sealed.committed.last().indices == batch_indices(quads.len())
                &&& sealed.committed.last().push_values.color == self.color
                &&& sealed.committed.last().push_values.transformation
                    == self.transform.transposed()
                &&& sealed.vertices.len() == 0
                &&& sealed.indices.len() == 0
            },
    {
        self.rectangles_only_queue(quads);
        let queued = self.rectangles(quads);
        if quads.len() > 0 {
            let sealed = queued.flush();
            assert(sealed.committed.drop_last() =~= self.committed);
            assert(queued.vertices.len() / 4 == quads.len());
        } else {
            assert(self.indices =~= Seq::<u32>::empty());
        }
    }

    /// A sealed command is frozen: whatever step follows, short of a present,
    /// the commands sealed so far stay as they are and stay first.
    pub proof fn committed_commands_are_frozen(
        self,
        quad: Quad,
        color: Color,
        transform: Matrix4,
        i: int,
    )
        requires
            0 <= i < self.committed.len(),
        ensures
            self.rectangle(quad).committed[i] == self.committed[i],
            self.flush().committed[i] == self.committed[i],
            self.set_color(color).committed[i] == self.committed[i],
            self.origin().committed[i] == self.committed[i],
            self.retransform(transform).committed[i] == self.committed[i],
            self.frame()[i] == self.committed[i],
    {
    }

    /// Colour is captured when a batch is sealed: a batch queued under one
    /// colour is sealed with that colour by the very call that changes it,
    /// and what is queued afterwards is sealed with the new colour.
    pub proof fn color_is_captured_at_flush(self, color: Color, quad: Quad)
        requires
            self.vertices.len() > 0,
        ensures
            self.set_color(color).committed.len() == self.committed.len() + 1,
            self.set_color(color).committed.last().push_values.color == self.color,
            self.set_color(color).flush() == self.set_color(color),
            self.set_color(color).rectangle(quad).flush().committed.last().push_values.color
                == color,
            self.set_color(color).rectangle(quad).flush().committed.drop_last()
                == self.set_color(color).committed,
    {
        let changed = self.set_color(color);
        let sealed = changed.rectangle(quad).flush();
        assert(changed.rectangle(quad).vertices.len() > 0);
        assert(sealed.committed.drop_last() =~= changed.committed);
    }

    /// The transform is captured when a batch is sealed, transposed:
    /// transposing the sealed matrix gives back the transform that the batch
    /// was queued under.
    pub proof fn transform_is_captured_at_flush(self)
        requires
            self.vertices.len() > 0,
        ensures
            self.flush().committed.last().push_values.transformation.transposed()
                == self.transform,
    {
        Matrix4::transposed_twice_is_the_matrix(self.transform);
    }

    /// `origin` leaves the identity as the transform, whatever the transform
    /// was before, and what is queued next is sealed with the identity.
    pub proof fn origin_forgets_every_transform(self, quad: Quad)
        ensures
            self.origin().transform == Matrix4::identity(),
            self.origin().rectangle(quad).flush().committed.last().push_values.transformation
                == Matrix4::identity(),
    {
        Matrix4::identity_is_symmetric();
        assert(self.origin().rectangle(quad).vertices.len() > 0);
    }

    /// A present drains the sealed commands: a second present, with nothing
    /// drawn in between, hands over an empty list, and changes nothing.
    pub proof fn second_present_is_empty(self)
        ensures
            self.present().frame() == Seq::<DrawCommandView>::empty(),
            self.present().committed.len() == 0,
            self.present().vertices.len() == 0,
            self.present().present() == self.present(),
    {
    }

    /// A present hands over every command sealed since the last present, in
    /// order, and then the pending batch if there is one.
    pub proof fn frame_is_committed_then_pending(self)
        ensures
            self.vertices.len() == 0 ==> self.frame() == self.committed,
            self.vertices.len() > 0 ==> self.frame() == self.committed.push(
                self.pending_command(),
            ),
    {
    }
}

} // verus!
