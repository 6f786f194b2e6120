use iced_graphics::Primitive;
use iced_renderer::geometry::{Frame, Geometry};
use iced_renderer::model::Backend;
use iced_renderer::tiny_skia::TinySkiaRenderer;
use iced_renderer::wgpu::WgpuRenderer;
use iced_renderer::Renderer;


fn sz(width: f32, height: f32) -> iced_graphics::core::Size {
    iced_graphics::core::Size::new(width, height)
}

fn pt(x: f32, y: f32) -> iced_graphics::core::Point {
    iced_graphics::core::Point::new(x, y)
}

fn rect(x: f32, y: f32, width: f32, height: f32) -> iced_graphics::core::Rectangle {
    iced_graphics::core::Rectangle::new(pt(x, y), sz(width, height))
}

fn rgb(r: f32, g: f32, b: f32) -> iced_graphics::core::Color {
    iced_graphics::core::Color::from_rgb(r, g, b)
}

fn solid(color: iced_graphics::core::Color) -> iced_graphics::core::Background {
    iced_graphics::core::Background::Color(color)
}

fn px(amount: f32) -> iced_graphics::core::Pixels {
    iced_graphics::core::Pixels(amount)
}

fn software() -> Renderer {
    Renderer::tiny_skia(TinySkiaRenderer(iced_tiny_skia::Renderer::new(
        iced_tiny_skia::Backend::new(),
        iced_graphics::core::Font::MONOSPACE,
        px(14.0),
    )))
}

/// A renderer of the GPU backend, where this machine offers an adapter. Where
/// it offers none, the tests leave out what needs such a renderer.
fn hardware() -> Option<Renderer> {
    let instance = iced_wgpu::wgpu::Instance::new(iced_wgpu::wgpu::InstanceDescriptor::default());
    let adapter = iced_graphics::futures::futures::executor::block_on(
        instance.request_adapter(&iced_wgpu::wgpu::RequestAdapterOptions::default()),
    )?;
    let (device, queue) = iced_graphics::futures::futures::executor::block_on(
        adapter.request_device(&iced_wgpu::wgpu::DeviceDescriptor::default(), None),
    )
    .ok()?;
    let backend = iced_wgpu::Backend::new(
        &device,
        &queue,
        iced_wgpu::Settings::default(),
        iced_wgpu::wgpu::TextureFormat::Rgba8UnormSrgb,
    );
    Some(Renderer::wgpu(WgpuRenderer(iced_wgpu::Renderer::new(
        backend,
        iced_graphics::core::Font::DEFAULT,
        px(16.0),
    ))))
}

fn software_recorded(renderer: &mut Renderer) -> Vec<iced_tiny_skia::Primitive> {
    match renderer {
        Renderer::TinySkia(inner, _) => inner.0.with_primitives(|_, primitives| primitives.to_vec()),
        Renderer::Wgpu(_, _) => panic!("a renderer of the software rasterizer was expected"),
    }
}

fn hardware_recorded(renderer: &mut Renderer) -> Vec<iced_wgpu::Primitive> {
    match renderer {
        Renderer::Wgpu(inner, _) => inner.0.with_primitives(|_, primitives| primitives.to_vec()),
        Renderer::TinySkia(_, _) => panic!("a renderer of the GPU backend was expected"),
    }
}

fn blue_quad(width: f32, height: f32) -> iced_graphics::core::renderer::Quad {
    iced_graphics::core::renderer::Quad {
        bounds: rect(0.0, 0.0, width, height),
        ..iced_graphics::core::renderer::Quad::default()
    }
}

#[test]
fn renderer_reports_the_backend_it_was_made_for() {
    assert_eq!(software().backend(), Backend::TinySkia);
    if let Some(renderer) = hardware() {
        assert_eq!(renderer.backend(), Backend::Wgpu);
    }
}

#[test]
fn fill_quad_records_one_quad_with_the_values_given() {
    let mut renderer = software();
    let blue = solid(rgb(0.0, 0.0, 1.0));
    renderer.fill_quad(blue_quad(30.0, 20.0), blue);
    let quad = blue_quad(30.0, 20.0);
    assert_eq!(
        software_recorded(&mut renderer),
        vec![Primitive::Quad {
            bounds: quad.bounds,
            background: blue,
            border: quad.border,
            shadow: quad.shadow,
        }]
    );
}

#[test]
fn clear_forgets_what_was_recorded() {
    let mut renderer = software();
    renderer.fill_quad(blue_quad(1.0, 1.0), solid(iced_graphics::core::Color::BLACK));
    renderer.fill_quad(blue_quad(2.0, 2.0), solid(iced_graphics::core::Color::WHITE));
    assert_eq!(software_recorded(&mut renderer).len(), 2);
    renderer.clear();
    assert!(software_recorded(&mut renderer).is_empty());
}

#[test]
fn default_font_and_size_are_those_the_renderer_was_made_with() {
    let renderer = software();
    assert_eq!(renderer.default_font(), iced_graphics::core::Font::MONOSPACE);
    assert_eq!(renderer.default_size(), px(14.0));
}

#[test]
fn with_layer_clips_what_the_closure_recorded_to_the_bounds() {
    let mut renderer = software();
    let red = solid(rgb(1.0, 0.0, 0.0));
    let blue = solid(rgb(0.0, 0.0, 1.0));
    renderer.fill_quad(blue_quad(5.0, 5.0), red);
    let bounds = rect(0.0, 0.0, 50.0, 50.0);
    renderer.with_layer(bounds, |inner| inner.fill_quad(blue_quad(100.0, 100.0), blue));
    let small = blue_quad(5.0, 5.0);
    let full = blue_quad(100.0, 100.0);
    assert_eq!(
        software_recorded(&mut renderer),
        vec![
            Primitive::Quad {
                bounds: small.bounds,
                background: red,
                border: small.border,
                shadow: small.shadow,
            },
            Primitive::Clip {
                bounds,
                content: Box::new(Primitive::Group {
                    primitives: vec![Primitive::Quad {
                        bounds: full.bounds,
                        background: blue,
                        border: full.border,
                        shadow: full.shadow,
                    }],
                }),
            },
        ]
    );
}

#[test]
fn with_transformation_groups_what_the_closure_recorded() {
    let mut renderer = software();
    let white = solid(iced_graphics::core::Color::WHITE);
    let shift = iced_graphics::core::Transformation::translate(3.0, 4.0);
    renderer.with_transformation(shift, |inner| {
        inner.fill_quad(blue_quad(1.0, 2.0), white);
        inner.fill_quad(blue_quad(3.0, 4.0), white);
    });
    let recorded = software_recorded(&mut renderer);
    assert_eq!(recorded.len(), 1);
    match &recorded[0] {
        Primitive::Transform { transformation, content } => {
            assert_eq!(*transformation, shift);
            match content.as_ref() {
                Primitive::Group { primitives } => assert_eq!(primitives.len(), 2),
                other => panic!("a group was expected, not {other:?}"),
            }
        }
        other => panic!("a transformed group was expected, not {other:?}"),
    }
}

#[test]
fn draw_records_each_piece_of_geometry_in_order() {
    let mut renderer = software();
    let mut first = Frame::new(&renderer, sz(100.0, 100.0));
    first.fill_rectangle(pt(10.0, 10.0), sz(20.0, 20.0), rgb(1.0, 0.0, 0.0).into());
    let second = Frame::new(&renderer, sz(7.0, 9.0));
    let expected: Vec<iced_tiny_skia::Primitive> = vec![
        match Frame::new(&renderer, sz(100.0, 100.0)) {
            Frame::TinySkia(mut frame) => {
                frame.fill_rectangle(pt(10.0, 10.0), sz(20.0, 20.0), rgb(1.0, 0.0, 0.0));
                frame.into_primitive()
            }
            Frame::Wgpu(_) => panic!("a frame of the software rasterizer was expected"),
        },
        iced_tiny_skia::geometry::Frame::new(sz(7.0, 9.0)).into_primitive(),
    ];
    let layers = vec![first.into_geometry(), second.into_geometry()];
    assert!(renderer.accepts(&layers));
    renderer.draw(layers);
    assert_eq!(software_recorded(&mut renderer), expected);
}

#[test]
fn accepts_refuses_geometry_of_the_other_backend() {
    let renderer = software();
    let own = Frame::new(&renderer, sz(4.0, 4.0)).into_geometry();
    let foreign = Frame::Wgpu(iced_wgpu::geometry::Frame::new(sz(4.0, 4.0))).into_geometry();
    assert_eq!(own.backend(), Backend::TinySkia);
    assert_eq!(foreign.backend(), Backend::Wgpu);
    assert!(renderer.accepts(&Vec::new()));
    assert!(!renderer.accepts(&vec![own, foreign]));
    if let Some(gpu) = hardware() {
        let own = Frame::new(&gpu, sz(4.0, 4.0)).into_geometry();
        let foreign = Frame::new(&renderer, sz(4.0, 4.0)).into_geometry();
        assert!(gpu.accepts(&vec![own]));
        assert!(!gpu.accepts(&vec![foreign]));
    }
}

#[test]
fn geometry_keeps_the_variant_of_its_frame() {
    let renderer = software();
    assert!(matches!(Frame::new(&renderer, sz(1.0, 1.0)).into_geometry(), Geometry::TinySkia(_)));
    assert!(matches!(
        Frame::Wgpu(iced_wgpu::geometry::Frame::new(sz(1.0, 1.0))).into_geometry(),
        Geometry::Wgpu(_)
    ));
}


fn triangle() -> iced_graphics::Mesh {
    iced_graphics::Mesh::Solid {
        buffers: iced_graphics::mesh::Indexed {
            vertices: vec![
                iced_graphics::mesh::SolidVertex2D {
                    position: [0.0, 0.0],
                    color: iced_graphics::color::pack(rgb(1.0, 0.0, 0.0)),
                },
                iced_graphics::mesh::SolidVertex2D {
                    position: [4.0, 0.0],
                    color: iced_graphics::color::pack(rgb(0.0, 1.0, 0.0)),
                },
                iced_graphics::mesh::SolidVertex2D {
                    position: [0.0, 4.0],
                    color: iced_graphics::color::pack(rgb(0.0, 0.0, 1.0)),
                },
            ],
            indices: vec![0, 1, 2],
        },
        size: sz(4.0, 4.0),
    }
}

#[derive(Debug)]
struct Idle;

impl iced_wgpu::primitive::pipeline::Primitive for Idle {
    fn prepare(
        &self,
        _format: iced_wgpu::wgpu::TextureFormat,
        _device: &iced_wgpu::wgpu::Device,
        _queue: &iced_wgpu::wgpu::Queue,
        _bounds: iced_graphics::core::Rectangle,
        _target_size: iced_graphics::core::Size<u32>,
        _scale_factor: f32,
        _storage: &mut iced_wgpu::primitive::pipeline::Storage,
    ) {
    }

    fn render(
        &self,
        _storage: &iced_wgpu::primitive::pipeline::Storage,
        _target: &iced_wgpu::wgpu::TextureView,
        _target_size: iced_graphics::core::Size<u32>,
        _viewport: iced_graphics::core::Rectangle<u32>,
        _encoder: &mut iced_wgpu::wgpu::CommandEncoder,
    ) {
    }
}

#[test]
fn draw_mesh_on_the_rasterizer_hands_the_mesh_back_and_draws_nothing() {
    let mut renderer = software();
    renderer.fill_quad(blue_quad(1.0, 1.0), solid(rgb(0.0, 0.0, 1.0)));
    let before = software_recorded(&mut renderer);
    let refused = renderer.draw_mesh(triangle());
    assert_eq!(refused, Some(triangle()));
    assert_eq!(software_recorded(&mut renderer), before);
    renderer.fill_quad(blue_quad(2.0, 2.0), solid(rgb(0.0, 0.0, 1.0)));
    assert_eq!(software_recorded(&mut renderer).len(), 2);
}

#[test]
fn draw_mesh_on_the_gpu_backend_records_the_mesh() {
    let Some(mut renderer) = hardware() else {
        return;
    };
    let refused = renderer.draw_mesh(triangle());
    assert_eq!(refused, None);
    assert_eq!(
        hardware_recorded(&mut renderer),
        vec![Primitive::Custom(iced_wgpu::primitive::Custom::Mesh(triangle()))]
    );
}

#[test]
fn draw_pipeline_primitive_on_the_rasterizer_hands_it_back() {
    let mut renderer = software();
    let pipeline = iced_wgpu::primitive::Pipeline::new(rect(1.0, 2.0, 3.0, 4.0), Idle);
    let refused = renderer.draw_pipeline_primitive(pipeline);
    assert_eq!(refused.map(|pipeline| pipeline.bounds), Some(rect(1.0, 2.0, 3.0, 4.0)));
    assert!(software_recorded(&mut renderer).is_empty());
}

#[test]
fn draw_pipeline_primitive_on_the_gpu_backend_records_it() {
    let Some(mut renderer) = hardware() else {
        return;
    };
    let pipeline = iced_wgpu::primitive::Pipeline::new(rect(1.0, 2.0, 3.0, 4.0), Idle);
    assert!(renderer.draw_pipeline_primitive(pipeline).is_none());
    let recorded = hardware_recorded(&mut renderer);
    assert_eq!(recorded.len(), 1);
    match &recorded[0] {
        Primitive::Custom(iced_wgpu::primitive::Custom::Pipeline(pipeline)) => {
            assert_eq!(pipeline.bounds, rect(1.0, 2.0, 3.0, 4.0));
        }
        other => panic!("a pipeline primitive was expected, not {other:?}"),
    }
}

#[test]
fn gpu_renderer_draws_the_geometry_of_a_filled_rectangle() {
    let Some(mut renderer) = hardware() else {
        return;
    };
    let mut frame = Frame::new(&renderer, sz(100.0, 100.0));
    assert!(matches!(frame, Frame::Wgpu(_)));
    frame.fill_rectangle(pt(10.0, 10.0), sz(20.0, 20.0), rgb(1.0, 0.0, 0.0).into());
    let geometry = frame.into_geometry();
    assert!(matches!(geometry, Geometry::Wgpu(_)));
    let layers = vec![geometry];
    assert!(renderer.accepts(&layers));
    renderer.draw(layers);
    let recorded = hardware_recorded(&mut renderer);
    assert_eq!(recorded.len(), 1);
    let Primitive::Group { primitives } = &recorded[0] else {
        panic!("a group was expected, not {:?}", recorded[0]);
    };
    assert_eq!(primitives.len(), 1);
    let Primitive::Custom(iced_wgpu::primitive::Custom::Mesh(iced_graphics::Mesh::Solid { buffers, size })) =
        &primitives[0]
    else {
        panic!("a solid mesh was expected, not {:?}", primitives[0]);
    };
    assert_eq!(*size, sz(100.0, 100.0));
    assert_eq!(buffers.vertices.len(), 4);
    assert_eq!(buffers.indices.len(), 6);
    let red = iced_graphics::color::pack(rgb(1.0, 0.0, 0.0));
    let mut corners: Vec<[f32; 2]> = Vec::new();
    for vertex in &buffers.vertices {
        assert_eq!(vertex.color, red);
        corners.push(vertex.position);
    }
    for corner in [[10.0, 10.0], [30.0, 10.0], [30.0, 30.0], [10.0, 30.0]] {
        assert!(corners.contains(&corner));
    }
}

#[test]
fn gpu_renderer_layers_like_the_rasterizer() {
    let Some(mut renderer) = hardware() else {
        return;
    };
    let blue = solid(rgb(0.0, 0.0, 1.0));
    let bounds = rect(0.0, 0.0, 50.0, 50.0);
    renderer.with_layer(bounds, |inner| inner.fill_quad(blue_quad(100.0, 100.0), blue));
    let full = blue_quad(100.0, 100.0);
    assert_eq!(
        hardware_recorded(&mut renderer),
        vec![Primitive::Clip {
            bounds,
            content: Box::new(Primitive::Group {
                primitives: vec![Primitive::Quad {
                    bounds: full.bounds,
                    background: blue,
                    border: full.border,
                    shadow: full.shadow,
                }],
            }),
        }]
    );
    assert_eq!(renderer.default_font(), iced_graphics::core::Font::DEFAULT);
    assert_eq!(renderer.default_size(), px(16.0));
    renderer.clear();
    assert!(hardware_recorded(&mut renderer).is_empty());
}

#[test]
fn nested_layers_nest_their_clips() {
    let mut renderer = software();
    let white = solid(iced_graphics::core::Color::WHITE);
    let outer = rect(0.0, 0.0, 50.0, 50.0);
    let inner_bounds = rect(5.0, 5.0, 10.0, 10.0);
    renderer.with_layer(outer, |first| {
        first.fill_quad(blue_quad(1.0, 1.0), white);
        first.with_layer(inner_bounds, |second| second.fill_quad(blue_quad(2.0, 2.0), white));
    });
    let one = blue_quad(1.0, 1.0);
    let two = blue_quad(2.0, 2.0);
    assert_eq!(
        software_recorded(&mut renderer),
        vec![Primitive::Clip {
            bounds: outer,
            content: Box::new(Primitive::Group {
                primitives: vec![
                    Primitive::Quad {
                        bounds: one.bounds,
                        background: white,
                        border: one.border,
                        shadow: one.shadow,
                    },
                    Primitive::Clip {
                        bounds: inner_bounds,
                        content: Box::new(Primitive::Group {
                            primitives: vec![Primitive::Quad {
                                bounds: two.bounds,
                                background: white,
                                border: two.border,
                                shadow: two.shadow,
                            }],
                        }),
                    },
                ],
            }),
        }]
    );
}

#[test]
fn fill_text_records_the_text_where_it_was_put() {
    let mut renderer = software();
    let text = iced_graphics::core::text::Text {
        content: "overlay",
        bounds: sz(80.0, 20.0),
        size: px(12.0),
        line_height: iced_graphics::core::text::LineHeight::default(),
        font: iced_graphics::core::Font::DEFAULT,
        horizontal_alignment: iced_graphics::core::alignment::Horizontal::Left,
        vertical_alignment: iced_graphics::core::alignment::Vertical::Top,
        shaping: iced_graphics::core::text::Shaping::Basic,
    };
    renderer.fill_text(text, pt(3.0, 4.0), rgb(0.5, 0.5, 0.5), rect(0.0, 0.0, 200.0, 100.0));
    assert_eq!(
        software_recorded(&mut renderer),
        vec![Primitive::Text {
            content: String::from("overlay"),
            bounds: rect(3.0, 4.0, 80.0, 20.0),
            color: rgb(0.5, 0.5, 0.5),
            size: px(12.0),
            line_height: iced_graphics::core::text::LineHeight::default(),
            font: iced_graphics::core::Font::DEFAULT,
            horizontal_alignment: iced_graphics::core::alignment::Horizontal::Left,
            vertical_alignment: iced_graphics::core::alignment::Vertical::Top,
            shaping: iced_graphics::core::text::Shaping::Basic,
            clip_bounds: rect(0.0, 0.0, 200.0, 100.0),
        }]
    );
}

#[test]
fn fill_paragraph_and_fill_editor_record_one_primitive_each() {
    let mut renderer = software();
    let paragraph = iced_graphics::text::Paragraph::new();
    let editor = iced_graphics::text::Editor::new();
    renderer.fill_paragraph(&paragraph, pt(1.0, 2.0), rgb(0.0, 0.0, 0.0), rect(0.0, 0.0, 9.0, 9.0));
    renderer.fill_editor(&editor, pt(3.0, 4.0), rgb(1.0, 1.0, 1.0), rect(0.0, 0.0, 8.0, 8.0));
    let recorded = software_recorded(&mut renderer);
    assert_eq!(recorded.len(), 2);
    match &recorded[0] {
        Primitive::Paragraph { position, color, clip_bounds, .. } => {
            assert_eq!(*position, pt(1.0, 2.0));
            assert_eq!(*color, rgb(0.0, 0.0, 0.0));
            assert_eq!(*clip_bounds, rect(0.0, 0.0, 9.0, 9.0));
        }
        other => panic!("a paragraph was expected, not {other:?}"),
    }
    match &recorded[1] {
        Primitive::Editor { position, color, clip_bounds, .. } => {
            assert_eq!(*position, pt(3.0, 4.0));
            assert_eq!(*color, rgb(1.0, 1.0, 1.0));
            assert_eq!(*clip_bounds, rect(0.0, 0.0, 8.0, 8.0));
        }
        other => panic!("an editor was expected, not {other:?}"),
    }
}

#[test]
fn load_font_draws_nothing() {
    let mut renderer = software();
    renderer.fill_quad(blue_quad(1.0, 1.0), solid(rgb(0.0, 0.0, 1.0)));
    renderer.load_font(std::borrow::Cow::Borrowed(&[0u8, 1, 2, 3]));
    assert_eq!(software_recorded(&mut renderer).len(), 1);
    assert_eq!(renderer.default_font(), iced_graphics::core::Font::MONOSPACE);
    assert_eq!(renderer.default_size(), px(14.0));
}

#[test]
fn images_are_recorded_with_the_values_given() {
    let mut renderer = software();
    let handle = iced_graphics::core::image::Handle::from_pixels(2, 3, vec![255u8; 2 * 3 * 4]);
    renderer.draw_image(
        handle.clone(),
        iced_graphics::core::image::FilterMethod::Nearest,
        rect(1.0, 1.0, 20.0, 30.0),
    );
    assert_eq!(
        software_recorded(&mut renderer),
        vec![Primitive::Image {
            handle,
            filter_method: iced_graphics::core::image::FilterMethod::Nearest,
            bounds: rect(1.0, 1.0, 20.0, 30.0),
        }]
    );
}

#[test]
fn vector_images_are_recorded_with_the_values_given() {
    let mut renderer = software();
    let source: &'static [u8] =
        b"<svg xmlns=\"http://www.w3.org/2000/svg\" width=\"12\" height=\"8\"><rect width=\"12\" height=\"8\"/></svg>";
    let handle = iced_graphics::core::svg::Handle::from_memory(source);
    renderer.draw_svg(handle.clone(), Some(rgb(0.0, 1.0, 0.0)), rect(0.0, 0.0, 24.0, 16.0));
    renderer.draw_svg(handle.clone(), None, rect(0.0, 0.0, 12.0, 8.0));
    assert_eq!(
        software_recorded(&mut renderer),
        vec![
            Primitive::Svg {
                handle: handle.clone(),
                color: Some(rgb(0.0, 1.0, 0.0)),
                bounds: rect(0.0, 0.0, 24.0, 16.0),
            },
            Primitive::Svg { handle, color: None, bounds: rect(0.0, 0.0, 12.0, 8.0) },
        ]
    );
}

#[test]
fn start_layer_puts_aside_and_end_layer_brings_back() {
    let mut renderer = software();
    let white = solid(iced_graphics::core::Color::WHITE);
    renderer.fill_quad(blue_quad(1.0, 1.0), white);
    let layer = renderer.start_layer();
    assert_eq!(layer.backend(), Backend::TinySkia);
    assert!(software_recorded(&mut renderer).is_empty());
    renderer.fill_quad(blue_quad(2.0, 2.0), white);
    renderer.end_layer(layer, rect(0.0, 0.0, 9.0, 9.0));
    let recorded = software_recorded(&mut renderer);
    assert_eq!(recorded.len(), 2);
    assert!(matches!(recorded[0], Primitive::Quad { .. }));
    match &recorded[1] {
        Primitive::Clip { bounds, content } => {
            assert_eq!(*bounds, rect(0.0, 0.0, 9.0, 9.0));
            assert!(matches!(content.as_ref(), Primitive::Group { primitives } if primitives.len() == 1));
        }
        other => panic!("a clip was expected, not {other:?}"),
    }
}

#[test]
fn start_transformation_puts_aside_and_end_transformation_brings_back() {
    let mut renderer = software();
    let white = solid(iced_graphics::core::Color::WHITE);
    renderer.fill_quad(blue_quad(1.0, 1.0), white);
    let layer = renderer.start_transformation();
    assert!(software_recorded(&mut renderer).is_empty());
    let doubled = iced_graphics::core::Transformation::scale(2.0);
    renderer.end_transformation(layer, doubled);
    let one = blue_quad(1.0, 1.0);
    assert_eq!(
        software_recorded(&mut renderer),
        vec![
            Primitive::Quad { bounds: one.bounds, background: white, border: one.border, shadow: one.shadow },
            Primitive::Transform {
                transformation: doubled,
                content: Box::new(Primitive::Group { primitives: Vec::new() }),
            },
        ]
    );
}

#[test]
fn load_font_makes_the_font_known_to_the_font_system() {
    let mut renderer = software();
    let before = iced_graphics::text::font_system().read().expect("Read font system").version();
    renderer.load_font(std::borrow::Cow::Borrowed(&[0u8, 1, 2, 3]));
    let after = iced_graphics::text::font_system().read().expect("Read font system").version();
    assert_ne!(before, after);
}
