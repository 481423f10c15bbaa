use lav::arithmetic::Arithmetic;
use lav::geometry::{Color, DrawCommand, Vertex};
use lav::graphics::{Graphics, GraphicsBackend};
use lav::matrix::Matrix4;
use lav::scalar::{Double, Single};

fn s(x: f32) -> Single {
    Single { bits: x.to_bits() }
}

fn f(x: Single) -> f32 {
    f32::from_bits(x.bits)
}

fn d(x: f64) -> Double {
    Double { bits: x.to_bits() }
}

fn add(a: Single, b: Single) -> Single {
    s(f(a) + f(b))
}

fn mul(a: Single, b: Single) -> Single {
    s(f(a) * f(b))
}

fn cos(a: Single) -> Single {
    s(f(a).cos())
}

fn sin(a: Single) -> Single {
    s(f(a).sin())
}

fn color(r: f64, g: f64, b: f64, a: f64) -> Color {
    Color { r: d(r), g: d(g), b: d(b), a: d(a) }
}

fn red() -> Color {
    color(1.0, 0.0, 0.0, 1.0)
}

fn blue() -> Color {
    color(0.0, 0.0, 1.0, 1.0)
}

fn vertex(x: f32, y: f32) -> Vertex {
    Vertex { position: [s(x), s(y)] }
}

fn floats(m: &Matrix4) -> [f32; 16] {
    let mut out = [0.0f32; 16];
    for k in 0..16 {
        out[k] = f(m.data[k]);
    }
    out
}

#[derive(Default)]
struct Recorder {
    frames: Vec<Vec<DrawCommand>>,
    clear_colors: Vec<[f64; 4]>,
    recreations: Vec<(u32, u32)>,
}

impl GraphicsBackend for Recorder {
    fn request_swapchain_recreation(&mut self, new_width: u32, new_height: u32) {
        self.recreations.push((new_width, new_height));
    }

    fn set_clear_color(&mut self, r: Double, g: Double, b: Double, a: Double) {
        self.clear_colors.push([
            f64::from_bits(r.bits),
            f64::from_bits(g.bits),
            f64::from_bits(b.bits),
            f64::from_bits(a.bits),
        ]);
    }

    fn present(&mut self, draw_commands: Vec<DrawCommand>) {
        self.frames.push(draw_commands);
    }
}

type Engine = Graphics<
    Recorder,
    fn(Single, Single) -> Single,
    fn(Single, Single) -> Single,
    fn(Single) -> Single,
    fn(Single) -> Single,
>;

fn engine() -> Engine {
    Graphics::new(
        Recorder::default(),
        Arithmetic::new(
            add as fn(Single, Single) -> Single,
            mul as fn(Single, Single) -> Single,
            cos as fn(Single) -> Single,
            sin as fn(Single) -> Single,
        ),
    )
}

fn rectangle(g: &mut Engine, x: f32, y: f32, w: f32, h: f32) {
    assert!(g.has_room());
    g.rectangle(s(x), s(y), s(w), s(h));
}

#[test]
fn new_engine_is_empty_white_and_untransformed() {
    let g = engine();
    assert!(g.vertices().is_empty());
    assert!(g.indices().is_empty());
    assert!(g.draw_commands().is_empty());
    assert_eq!(g.color(), color(1.0, 1.0, 1.0, 1.0));
    assert_eq!(g.color(), Color::white());
    assert_eq!(g.transformation(), Matrix4::identity());
    assert!(g.has_room());
    assert!(g.backend().frames.is_empty());
}

#[test]
fn default_vertex_is_the_origin() {
    assert_eq!(Vertex::default(), vertex(0.0, 0.0));
    assert_eq!(Vertex::at(s(1.0), s(2.0)), vertex(1.0, 2.0));
}

#[test]
fn rectangle_adds_four_corners_and_six_indices() {
    let mut g = engine();
    rectangle(&mut g, 1.0, 2.0, 3.0, 4.0);
    assert_eq!(
        g.vertices(),
        &vec![vertex(1.0, 2.0), vertex(1.0, 6.0), vertex(4.0, 2.0), vertex(4.0, 6.0)]
    );
    assert_eq!(g.indices(), &vec![0, 1, 2, 2, 1, 3]);
    assert!(g.draw_commands().is_empty());
}

#[test]
fn rectangle_rounds_its_far_sides_as_the_arithmetic_does() {
    let mut g = engine();
    rectangle(&mut g, 0.1, 0.7, 0.2, 0.1);
    assert_eq!(
        g.vertices(),
        &vec![
            vertex(0.1, 0.7),
            vertex(0.1, 0.7f32 + 0.1f32),
            vertex(0.1f32 + 0.2f32, 0.7),
            vertex(0.1f32 + 0.2f32, 0.7f32 + 0.1f32),
        ]
    );
}

#[test]
fn index_pattern_starts_at_the_pending_vertex_count() {
    let mut g = engine();
    rectangle(&mut g, 0.0, 0.0, 1.0, 1.0);
    assert_eq!(g.indices(), &vec![0, 1, 2, 2, 1, 3]);
    rectangle(&mut g, 5.0, 5.0, 1.0, 1.0);
    assert_eq!(g.indices(), &vec![0, 1, 2, 2, 1, 3, 4, 5, 6, 6, 5, 7]);
    rectangle(&mut g, 9.0, 9.0, 1.0, 1.0);
    assert_eq!(&g.indices()[12..], &[8, 9, 10, 10, 9, 11]);
    g.flush_batched_draws();
    rectangle(&mut g, 0.0, 0.0, 1.0, 1.0);
    assert_eq!(g.indices(), &vec![0, 1, 2, 2, 1, 3]);
}

#[test]
fn every_index_names_a_vertex_of_its_own_batch() {
    let mut g = engine();
    for k in 0..5 {
        rectangle(&mut g, k as f32, 0.0, 1.0, 1.0);
    }
    assert!(g.indices().iter().all(|&i| (i as usize) < g.vertices().len()));
    g.set_color(red());
    rectangle(&mut g, 0.0, 0.0, 1.0, 1.0);
    g.flush_batched_draws();
    for command in g.draw_commands() {
        assert!(command.indices.iter().all(|&i| (i as usize) < command.vertices.len()));
    }
}

#[test]
fn degenerate_rectangles_are_queued_like_any_other() {
    let mut g = engine();
    rectangle(&mut g, 2.0, 3.0, 0.0, 5.0);
    rectangle(&mut g, 2.0, 3.0, 5.0, 0.0);
    rectangle(&mut g, 2.0, 3.0, 0.0, 0.0);
    assert_eq!(g.vertices().len(), 12);
    assert_eq!(g.indices().len(), 18);
    assert_eq!(
        &g.vertices()[0..4],
        &[vertex(2.0, 3.0), vertex(2.0, 8.0), vertex(2.0, 3.0), vertex(2.0, 8.0)]
    );
    assert_eq!(&g.vertices()[8..12], &[vertex(2.0, 3.0); 4]);
    g.flush_batched_draws();
    assert_eq!(g.draw_commands().len(), 1);
}

#[test]
fn flush_of_n_rectangles_gives_one_command() {
    for n in 1..=6usize {
        let mut g = engine();
        for k in 0..n {
            rectangle(&mut g, k as f32, 1.0, 2.0, 3.0);
        }
        g.flush_batched_draws();
        assert_eq!(g.draw_commands().len(), 1);
        assert_eq!(g.draw_commands()[0].vertices.len(), 4 * n);
        assert_eq!(g.draw_commands()[0].indices.len(), 6 * n);
        assert!(g.vertices().is_empty());
        assert!(g.indices().is_empty());
    }
}

#[test]
fn flush_of_nothing_commits_nothing() {
    let mut g = engine();
    g.flush_batched_draws();
    assert!(g.draw_commands().is_empty());
    rectangle(&mut g, 0.0, 0.0, 1.0, 1.0);
    g.flush_batched_draws();
    g.flush_batched_draws();
    g.flush_batched_draws();
    assert_eq!(g.draw_commands().len(), 1);
}

#[test]
fn state_changes_with_nothing_pending_commit_nothing() {
    let mut g = engine();
    g.set_color(red());
    g.translate(s(1.0), s(2.0));
    g.rotate(s(0.5));
    g.origin();
    assert!(g.draw_commands().is_empty());
    assert_eq!(g.color(), red());
}

#[test]
fn flush_seals_the_pending_geometry_and_state() {
    let mut g = engine();
    g.set_color(red());
    g.translate(s(3.0), s(4.0));
    rectangle(&mut g, 1.0, 2.0, 3.0, 4.0);
    g.flush_batched_draws();
    let command = &g.draw_commands()[0];
    assert_eq!(
        command.vertices,
        vec![vertex(1.0, 2.0), vertex(1.0, 6.0), vertex(4.0, 2.0), vertex(4.0, 6.0)]
    );
    assert_eq!(command.indices, vec![0, 1, 2, 2, 1, 3]);
    assert_eq!(command.push_values.color, red());
    assert_eq!(command.push_values.projection, Matrix4::identity());
    assert_eq!(
        command.push_values.transformation,
        Matrix4::translation(s(3.0), s(4.0), s(0.0)).transposed()
    );
    assert_eq!(
        floats(&command.push_values.transformation),
        [1.0, 0.0, 0.0, 0.0, 0.0, 1.0, 0.0, 0.0, 0.0, 0.0, 1.0, 0.0, 3.0, 4.0, 0.0, 1.0]
    );
}

#[test]
fn translate_then_rectangle_then_flush() {
    let mut g = engine();
    g.translate(s(5.0), s(0.0));
    rectangle(&mut g, 0.0, 0.0, 1.0, 1.0);
    g.flush_batched_draws();
    assert_eq!(g.draw_commands().len(), 1);
    let sealed = g.draw_commands()[0].push_values.transformation;
    assert_eq!(sealed.transposed(), Matrix4::translation(s(5.0), s(0.0), s(0.0)));
}

#[test]
fn origin_resets_whatever_came_before() {
    let mut g = engine();
    g.rotate(s(1.0));
    g.translate(s(3.0), s(4.0));
    assert_ne!(g.transformation(), Matrix4::identity());
    g.origin();
    assert_eq!(g.transformation(), Matrix4::identity());
    rectangle(&mut g, 0.0, 0.0, 1.0, 1.0);
    g.flush_batched_draws();
    assert_eq!(g.draw_commands().len(), 1);
    assert_eq!(g.draw_commands()[0].push_values.transformation, Matrix4::identity());
}

#[test]
fn origin_seals_the_pending_batch_under_the_old_transform() {
    let mut g = engine();
    g.translate(s(3.0), s(4.0));
    rectangle(&mut g, 0.0, 0.0, 1.0, 1.0);
    g.origin();
    assert_eq!(g.draw_commands().len(), 1);
    assert_eq!(
        g.draw_commands()[0].push_values.transformation.transposed(),
        Matrix4::translation(s(3.0), s(4.0), s(0.0))
    );
    assert!(g.vertices().is_empty());
}

#[test]
fn translate_and_rotate_compose_in_the_transformed_frame() {
    let angle = 0.5f32;
    let (c, n) = (angle.cos(), angle.sin());

    let mut g = engine();
    g.translate(s(2.0), s(3.0));
    g.rotate(s(angle));
    assert_eq!(
        floats(&g.transformation()),
        [c, -n, 0.0, 2.0, n, c, 0.0, 3.0, 0.0, 0.0, 1.0, 0.0, 0.0, 0.0, 0.0, 1.0]
    );

    let mut g = engine();
    g.rotate(s(angle));
    g.translate(s(2.0), s(3.0));
    assert_eq!(
        floats(&g.transformation()),
        [
            c,
            -n,
            0.0,
            c * 2.0 + -n * 3.0,
            n,
            c,
            0.0,
            n * 2.0 + c * 3.0,
            0.0,
            0.0,
            1.0,
            0.0,
            0.0,
            0.0,
            0.0,
            1.0
        ]
    );
}

#[test]
fn translate_seals_the_pending_batch_under_the_old_transform() {
    let mut g = engine();
    rectangle(&mut g, 0.0, 0.0, 1.0, 1.0);
    g.translate(s(7.0), s(8.0));
    rectangle(&mut g, 0.0, 0.0, 1.0, 1.0);
    g.rotate(s(0.25));
    let commands = g.draw_commands();
    assert_eq!(commands.len(), 2);
    assert_eq!(commands[0].push_values.transformation, Matrix4::identity());
    assert_eq!(
        commands[1].push_values.transformation.transposed(),
        Matrix4::translation(s(7.0), s(8.0), s(0.0))
    );
}

#[test]
fn color_is_captured_when_the_batch_is_sealed() {
    let mut g = engine();
    g.set_color(red());
    rectangle(&mut g, 0.0, 0.0, 1.0, 1.0);
    g.set_color(blue());
    assert_eq!(g.draw_commands().len(), 1);
    g.flush_batched_draws();
    assert_eq!(g.draw_commands().len(), 1);
    assert_eq!(g.draw_commands()[0].push_values.color, red());

    rectangle(&mut g, 2.0, 2.0, 1.0, 1.0);
    g.flush_batched_draws();
    assert_eq!(g.draw_commands().len(), 2);
    assert_eq!(g.draw_commands()[0].push_values.color, red());
    assert_eq!(g.draw_commands()[1].push_values.color, blue());
}

#[test]
fn out_of_range_colors_pass_through_unchanged() {
    let mut g = engine();
    let odd = color(-1.0, 2.5, f64::INFINITY, 1.0e300);
    g.set_color(odd);
    rectangle(&mut g, 0.0, 0.0, 1.0, 1.0);
    g.flush_batched_draws();
    assert_eq!(g.draw_commands()[0].push_values.color, odd);
}

#[test]
fn sealed_commands_are_not_touched_by_later_calls() {
    let mut g = engine();
    g.set_color(red());
    g.translate(s(1.0), s(1.0));
    rectangle(&mut g, 0.0, 0.0, 1.0, 1.0);
    g.flush_batched_draws();
    let sealed = g.draw_commands()[0].clone();

    g.set_color(blue());
    g.rotate(s(0.3));
    g.origin();
    rectangle(&mut g, 9.0, 9.0, 2.0, 2.0);
    g.translate(s(4.0), s(4.0));
    rectangle(&mut g, 1.0, 1.0, 1.0, 1.0);
    g.flush_batched_draws();

    assert_eq!(g.draw_commands().len(), 3);
    assert_eq!(g.draw_commands()[0], sealed);
}

#[test]
fn present_hands_over_one_command_for_two_rectangles() {
    let mut g = engine();
    rectangle(&mut g, 0.0, 0.0, 10.0, 10.0);
    rectangle(&mut g, 20.0, 20.0, 5.0, 5.0);
    g.present();
    assert_eq!(g.backend().frames.len(), 1);
    let frame = &g.backend().frames[0];
    assert_eq!(frame.len(), 1);
    assert_eq!(frame[0].vertices.len(), 8);
    assert_eq!(frame[0].indices.len(), 12);
    assert_eq!(
        frame[0].vertices,
        vec![
            vertex(0.0, 0.0),
            vertex(0.0, 10.0),
            vertex(10.0, 0.0),
            vertex(10.0, 10.0),
            vertex(20.0, 20.0),
            vertex(20.0, 25.0),
            vertex(25.0, 20.0),
            vertex(25.0, 25.0),
        ]
    );
    assert_eq!(frame[0].indices, vec![0, 1, 2, 2, 1, 3, 4, 5, 6, 6, 5, 7]);
    assert!(g.draw_commands().is_empty());
    assert!(g.vertices().is_empty());
    assert!(g.indices().is_empty());
}

#[test]
fn second_present_hands_over_an_empty_list() {
    let mut g = engine();
    rectangle(&mut g, 0.0, 0.0, 1.0, 1.0);
    g.present();
    g.present();
    assert_eq!(g.backend().frames.len(), 2);
    assert_eq!(g.backend().frames[0].len(), 1);
    assert!(g.backend().frames[1].is_empty());
}

#[test]
fn present_with_nothing_drawn_hands_over_an_empty_list() {
    let mut g = engine();
    g.present();
    assert_eq!(g.backend().frames.len(), 1);
    assert!(g.backend().frames[0].is_empty());
}

#[test]
fn present_hands_over_every_command_in_order() {
    let mut g = engine();
    rectangle(&mut g, 0.0, 0.0, 1.0, 1.0);
    g.set_color(red());
    rectangle(&mut g, 1.0, 0.0, 1.0, 1.0);
    rectangle(&mut g, 2.0, 0.0, 1.0, 1.0);
    g.set_color(blue());
    rectangle(&mut g, 3.0, 0.0, 1.0, 1.0);
    g.present();
    let frame = &g.backend().frames[0];
    assert_eq!(frame.len(), 3);
    assert_eq!(frame[0].push_values.color, Color::white());
    assert_eq!(frame[0].vertices.len(), 4);
    assert_eq!(frame[1].push_values.color, red());
    assert_eq!(frame[1].vertices.len(), 8);
    assert_eq!(frame[2].push_values.color, blue());
    assert_eq!(frame[2].vertices.len(), 4);
}

#[test]
fn color_and_transform_outlive_a_present() {
    let mut g = engine();
    g.set_color(red());
    g.translate(s(2.0), s(0.0));
    rectangle(&mut g, 0.0, 0.0, 1.0, 1.0);
    g.present();
    assert_eq!(g.color(), red());
    assert_eq!(g.transformation(), Matrix4::translation(s(2.0), s(0.0), s(0.0)));
    rectangle(&mut g, 0.0, 0.0, 1.0, 1.0);
    g.present();
    let frame = &g.backend().frames[1];
    assert_eq!(frame.len(), 1);
    assert_eq!(frame[0].push_values.color, red());
    assert_eq!(
        frame[0].push_values.transformation.transposed(),
        Matrix4::translation(s(2.0), s(0.0), s(0.0))
    );
}

#[test]
fn finish_frame_drains_the_engine() {
    let mut g = engine();
    rectangle(&mut g, 0.0, 0.0, 1.0, 1.0);
    g.set_color(red());
    rectangle(&mut g, 1.0, 1.0, 1.0, 1.0);
    let frame = g.finish_frame();
    assert_eq!(frame.len(), 2);
    assert_eq!(frame[0].push_values.color, Color::white());
    assert_eq!(frame[1].push_values.color, red());
    assert!(g.draw_commands().is_empty());
    assert!(g.vertices().is_empty());
    assert!(g.finish_frame().is_empty());
    assert!(g.backend().frames.is_empty());
}

#[test]
fn clear_color_and_recreation_go_straight_to_the_backend() {
    let mut g = engine();
    rectangle(&mut g, 0.0, 0.0, 1.0, 1.0);
    g.set_clear_color(d(0.25), d(0.5), d(0.75), d(1.0));
    g.request_swapchain_recreation(800, 600);
    g.request_swapchain_recreation(0, 0);
    assert_eq!(g.backend().clear_colors, vec![[0.25, 0.5, 0.75, 1.0]]);
    assert_eq!(g.backend().recreations, vec![(800, 600), (0, 0)]);
    assert!(g.backend().frames.is_empty());
    assert_eq!(g.vertices().len(), 4);
    assert!(g.draw_commands().is_empty());
    assert_eq!(g.color(), Color::white());
}
