//! A backend without a GPU.
//!
//! [`HeadlessBackend`] renders nothing: it keeps what the engine hands it, so
//! that a program, or a test, can look at the frames that would have been
//! drawn.

use vstd::prelude::*;
use crate::geometry::{command_views, Color, DrawCommand, DrawCommandView};
use crate::graphics::GraphicsBackend;
use crate::scalar::Double;

verus! {

/// A backend that records every call.
pub struct HeadlessBackend {
    /// The frames presented so far, oldest first.
    pub frames: Vec<Vec<DrawCommand>>,
    /// The clear colour set last, if any was.
    pub clear_color: Option<Color>,
    /// The surface size requested last, if any was: width, then height.
    pub surface_size: Option<(u32, u32)>,
}

impl HeadlessBackend {
    /// The frames presented so far, as sequences of command views.
    pub open spec fn frame_views(&self) -> Seq<Seq<DrawCommandView>> {
        self.frames@.map_values(|frame: Vec<DrawCommand>| command_views(frame@))
    }

    /// A backend that has been given nothing yet.
    pub fn new() -> (backend: HeadlessBackend)
        ensures
            backend.frame_views() == Seq::<Seq<DrawCommandView>>::empty(),
            backend.clear_color.is_none(),
            backend.surface_size.is_none(),
    {
        let backend = HeadlessBackend { frames: Vec::new(), clear_color: None, surface_size: None };
        assert(backend.frame_views() =~= Seq::<Seq<DrawCommandView>>::empty());
        backend
    }
}

impl GraphicsBackend for HeadlessBackend {
    /// The requested size replaces the one recorded; nothing else changes.
    open spec fn recreation_requested(&self, before: &Self, new_width: u32, new_height: u32) -> bool {
        &&& self.surface_size == Some((new_width, new_height))
        &&& self.clear_color == before.clear_color
        &&& self.frame_views() == before.frame_views()
    }

    /// The colour replaces the one recorded; nothing else changes.
    open spec fn clear_color_set(&self, before: &Self, r: Double, g: Double, b: Double, a: Double) -> bool {
        &&& self.clear_color == Some(Color { r, g, b, a })
        &&& self.surface_size == before.surface_size
        &&& self.frame_views() == before.frame_views()
    }

    /// The frame is recorded after the frames before it; nothing else
    /// changes.
    open spec fn presented(&self, before: &Self, frame: Seq<DrawCommandView>) -> bool {
        &&& self.frame_views() == before.frame_views().push(frame)
        &&& self.clear_color == before.clear_color
        &&& self.surface_size == before.surface_size
    }

    fn request_swapchain_recreation(&mut self, new_width: u32, new_height: u32) {
        self.surface_size = Some((new_width, new_height));
    }

    fn set_clear_color(&mut self, r: Double, g: Double, b: Double, a: Double) {
        self.clear_color = Some(Color { r, g, b, a });
    }

    fn present(&mut self, draw_commands: Vec<DrawCommand>) {
        self.frames.push(draw_commands);
        assert(self.frame_views() =~= old(self).frame_views().push(command_views(draw_commands@)));
    }
}

} // verus!
