//! One drawing surface over two graphics backends.
//!
//! A [`Renderer`] is bound to the software rasterizer or to the GPU backend
//! when it is made, and forwards every drawing call to that backend. A
//! [`geometry::Frame`] made for a renderer draws with the same backend and
//! finishes as [`geometry::Geometry`] that only a renderer of that backend
//! draws.

use vstd::prelude::*;
use vstd::pervasive::unreached;
use crate::model::{Backend, Drawn, LayerView, RendererView};
use crate::geometry::Geometry;
use crate::tiny_skia::{TinySkiaLayer, TinySkiaRenderer};
use iced_wgpu::Primitive as WgpuPrimitive;
use crate::wgpu::WgpuRenderer;

pub mod carried;
pub mod geometry;
pub mod laws;
pub mod model;
pub mod tiny_skia;
pub mod wgpu;

verus! {

/// A renderer bound to one of the two backends for as long as it lives.
///
/// Beside the renderer of its backend each variant keeps, for the contracts
/// alone, the fonts handed to that backend through this renderer. Make one
/// with `Renderer::tiny_skia` or `Renderer::wgpu`.
pub enum Renderer {
    TinySkia(TinySkiaRenderer, Ghost<Seq<std::borrow::Cow<'static, [u8]>>>),
    Wgpu(WgpuRenderer, Ghost<Seq<std::borrow::Cow<'static, [u8]>>>),
}

impl View for Renderer {
    type V = RendererView;

    open spec fn view(&self) -> RendererView {
        match *self {
            Renderer::TinySkia(renderer, fonts) => RendererView {
                backend: Backend::TinySkia,
                recorded: crate::tiny_skia::recorded(renderer),
                default_font: crate::tiny_skia::default_font(renderer),
                default_size: crate::tiny_skia::default_size(renderer),
                fonts_handed: fonts@,
            },
            Renderer::Wgpu(renderer, fonts) => RendererView {
                backend: Backend::Wgpu,
                recorded: crate::wgpu::recorded(renderer),
                default_font: crate::wgpu::default_font(renderer),
                default_size: crate::wgpu::default_size(renderer),
                fonts_handed: fonts@,
            },
        }
    }
}

/// What a renderer had recorded when a scope was opened on it, put aside until
/// the scope ends. Only a renderer of the same backend can take it back.
pub enum Layer {
    TinySkia(TinySkiaLayer),
    Wgpu(Vec<WgpuPrimitive>),
}

impl View for Layer {
    type V = LayerView;

    open spec fn view(&self) -> LayerView {
        match *self {
            Layer::TinySkia(layer) => LayerView {
                backend: Backend::TinySkia,
                held: crate::tiny_skia::held(layer),
            },
            Layer::Wgpu(layer) => LayerView { backend: Backend::Wgpu, held: crate::wgpu::held(layer) },
        }
    }
}

impl Layer {
    /// The backend of the renderer that the primitives were taken from.
    pub fn backend(&self) -> (backend: Backend)
        ensures
            backend == self@.backend,
    {
        match self {
            Layer::TinySkia(_) => Backend::TinySkia,
            Layer::Wgpu(_) => Backend::Wgpu,
        }
    }
}

/// What each piece of geometry holds, in the order of the pieces.
pub open spec fn primitives_of(layers: Seq<Geometry>) -> Seq<Drawn> {
    layers.map_values(|geometry: Geometry| geometry@.primitive)
}

/// Whether every piece of geometry was produced by the given backend.
pub open spec fn all_of(layers: Seq<Geometry>, backend: Backend) -> bool {
    forall|i: int| 0 <= i < layers.len() ==> (#[trigger] layers[i])@.backend == backend
}

impl Renderer {
    /// Whether the renderer of the backend is what that of `before` becomes
    /// once the font in the bytes has been handed to the backend.
    pub open spec fn backend_after(
        self,
        before: Renderer,
        bytes: std::borrow::Cow<'static, [u8]>,
    ) -> bool {
        match (before, self) {
            (Renderer::TinySkia(earlier, _), Renderer::TinySkia(later, _)) => later
                == crate::tiny_skia::font_loaded(earlier, bytes),
            (Renderer::Wgpu(earlier, _), Renderer::Wgpu(later, _)) => later
                == crate::wgpu::font_loaded(earlier, bytes),
            _ => false,
        }
    }

    /// A renderer bound to the software rasterizer, with what the given
    /// renderer of that backend has recorded and no font handed over yet.
    pub fn tiny_skia(renderer: TinySkiaRenderer) -> (made: Renderer)
        ensures
            made@ == (RendererView {
                backend: Backend::TinySkia,
                recorded: crate::tiny_skia::recorded(renderer),
                default_font: crate::tiny_skia::default_font(renderer),
                default_size: crate::tiny_skia::default_size(renderer),
                fonts_handed: Seq::empty(),
            }),
    {
        Renderer::TinySkia(renderer, Ghost(Seq::empty()))
    }

    /// A renderer bound to the GPU backend, with what the given renderer of
    /// that backend has recorded and no font handed over yet.
    pub fn wgpu(renderer: WgpuRenderer) -> (made: Renderer)
        ensures
            made@ == (RendererView {
                backend: Backend::Wgpu,
                recorded: crate::wgpu::recorded(renderer),
                default_font: crate::wgpu::default_font(renderer),
                default_size: crate::wgpu::default_size(renderer),
                fonts_handed: Seq::empty(),
            }),
    {
        Renderer::Wgpu(renderer, Ghost(Seq::empty()))
    }

    /// The backend that the renderer is bound to.
    pub fn backend(&self) -> (backend: Backend)
        ensures
            backend == self@.backend,
    {
        match self {
            Renderer::TinySkia(_, _) => Backend::TinySkia,
            Renderer::Wgpu(_, _) => Backend::Wgpu,
        }
    }

    /// Draws a mesh of triangles, where the backend can.
    ///
    /// The GPU backend records the mesh and nothing comes back. The software
    /// rasterizer cannot draw meshes: the renderer stays as it was and the
    /// mesh comes back, for the caller to report; the drawing session goes on.
    pub fn draw_mesh(&mut self, mesh: iced_graphics::Mesh) -> (refused: Option<iced_graphics::Mesh>)
        ensures
            old(self)@.backend == Backend::TinySkia ==> refused == Some(mesh) && *final(self)
                == *old(self),
            old(self)@.backend == Backend::Wgpu ==> refused.is_none() && final(self)@ == old(
                self,
            )@.recording(Drawn::Mesh { mesh }),
    {
        match self {
            Renderer::TinySkia(_, _) => Some(mesh),
            Renderer::Wgpu(renderer, _) => {
                crate::wgpu::draw_mesh(renderer, mesh);
                None
            },
        }
    }

    /// Draws a primitive that brings a GPU pipeline of its own, where the
    /// backend can.
    ///
    /// The GPU backend records the primitive and nothing comes back. The
    /// software rasterizer has no such pipelines: the renderer stays as it
    /// was and the primitive comes back, for the caller to report; the
    /// drawing session goes on.
    pub fn draw_pipeline_primitive(&mut self, pipeline: iced_wgpu::primitive::Pipeline) -> (refused:
        Option<iced_wgpu::primitive::Pipeline>)
        ensures
            old(self)@.backend == Backend::TinySkia ==> refused == Some(pipeline) && *final(self)
                == *old(self),
            old(self)@.backend == Backend::Wgpu ==> refused.is_none() && final(self)@ == old(
                self,
            )@.recording(Drawn::Pipeline { pipeline }),
    {
        match self {
            Renderer::TinySkia(_, _) => Some(pipeline),
            Renderer::Wgpu(renderer, _) => {
                crate::wgpu::draw_pipeline(renderer, pipeline);
                None
            },
        }
    }

    /// Opens a clipped scope: puts aside what was recorded and leaves the
    /// renderer with nothing recorded. `end_layer` closes the scope.
    pub fn start_layer(&mut self) -> (layer: Layer)
        ensures
            layer@ == (LayerView { backend: old(self)@.backend, held: old(self)@.recorded }),
            final(self)@ == old(self)@.cleared(),
    {
        match self {
            Renderer::TinySkia(renderer, _) => Layer::TinySkia(crate::tiny_skia::start_layer(renderer)),
            Renderer::Wgpu(renderer, _) => Layer::Wgpu(crate::wgpu::start_layer(renderer)),
        }
    }

    /// Closes a clipped scope: what was recorded since it was opened becomes
    /// one layer, clipped to `bounds`, above the primitives put aside. These
    /// must come from a renderer of the same backend.
    pub fn end_layer(&mut self, layer: Layer, bounds: iced_graphics::core::Rectangle)
        requires
            layer@.backend == old(self)@.backend,
        ensures
            final(self)@ == (RendererView {
                recorded: layer@.held.push(Drawn::layer(old(self)@.recorded, bounds)),
                ..old(self)@
            }),
    {
        match self {
            Renderer::TinySkia(renderer, _) => match layer {
                Layer::TinySkia(layer) => crate::tiny_skia::end_layer(renderer, layer, bounds),
                Layer::Wgpu(_) => unreached(),
            },
            Renderer::Wgpu(renderer, _) => match layer {
                Layer::Wgpu(layer) => crate::wgpu::end_layer(renderer, layer, bounds),
                Layer::TinySkia(_) => unreached(),
            },
        }
    }

    /// Opens a transformed scope: puts aside what was recorded and leaves the
    /// renderer with nothing recorded. `end_transformation` closes the scope.
    pub fn start_transformation(&mut self) -> (layer: Layer)
        ensures
            layer@ == (LayerView { backend: old(self)@.backend, held: old(self)@.recorded }),
            final(self)@ == old(self)@.cleared(),
    {
        match self {
            Renderer::TinySkia(renderer, _) => Layer::TinySkia(
                crate::tiny_skia::start_transformation(renderer),
            ),
            Renderer::Wgpu(renderer, _) => Layer::Wgpu(crate::wgpu::start_transformation(renderer)),
        }
    }

    /// Closes a transformed scope: what was recorded since it was opened
    /// becomes one group under `transformation`, above the primitives put
    /// aside. These must come from a renderer of the same backend.
    pub fn end_transformation(
        &mut self,
        layer: Layer,
        transformation: iced_graphics::core::Transformation,
    )
        requires
            layer@.backend == old(self)@.backend,
        ensures
            final(self)@ == (RendererView {
                recorded: layer@.held.push(Drawn::transformed(old(self)@.recorded, transformation)),
                ..old(self)@
            }),
    {
        match self {
            Renderer::TinySkia(renderer, _) => match layer {
                Layer::TinySkia(layer) => crate::tiny_skia::end_transformation(
                    renderer,
                    layer,
                    transformation,
                ),
                Layer::Wgpu(_) => unreached(),
            },
            Renderer::Wgpu(renderer, _) => match layer {
                Layer::Wgpu(layer) => crate::wgpu::end_transformation(renderer, layer, transformation),
                Layer::TinySkia(_) => unreached(),
            },
        }
    }

    /// Runs `f` on the renderer and records what `f` recorded as one layer,
    /// clipped to `bounds`, above what was recorded before.
    ///
    /// `f` gets the renderer with nothing recorded. It must leave the
    /// renderer on its backend. The scope closes when `f` returns; where `f`
    /// unwinds, it stays open and what was put aside is lost.
    pub fn with_layer<F: FnOnce(&mut Renderer)>(&mut self, bounds: iced_graphics::core::Rectangle, f: F)
        requires
            forall|inner: &mut Renderer|
                inner@ == old(self)@.cleared() ==> #[trigger] f.requires((inner,)),
            forall|inner: &mut Renderer|
                inner@ == old(self)@.cleared() && #[trigger] f.ensures((inner,), ())
                    ==> final(inner)@.backend == inner@.backend,
        ensures
            exists|inner: &mut Renderer|
                {
                    &&& inner@ == old(self)@.cleared()
                    &&& #[trigger] f.ensures((inner,), ())
                    &&& final(self)@ == (RendererView {
                        recorded: old(self)@.recorded.push(
                            Drawn::layer(final(inner)@.recorded, bounds),
                        ),
                        ..final(inner)@
                    })
                },
    {
        let layer = self.start_layer();
        f(self);
        self.end_layer(layer, bounds);
    }

    /// Runs `f` on the renderer and records what `f` recorded as one group
    /// under `transformation`, above what was recorded before.
    ///
    /// `f` gets the renderer with nothing recorded. It must leave the
    /// renderer on its backend. The scope closes when `f` returns; where `f`
    /// unwinds, it stays open and what was put aside is lost.
    pub fn with_transformation<F: FnOnce(&mut Renderer)>(
        &mut self,
        transformation: iced_graphics::core::Transformation,
        f: F,
    )
        requires
            forall|inner: &mut Renderer|
                inner@ == old(self)@.cleared() ==> #[trigger] f.requires((inner,)),
            forall|inner: &mut Renderer|
                inner@ == old(self)@.cleared() && #[trigger] f.ensures((inner,), ())
                    ==> final(inner)@.backend == inner@.backend,
        ensures
            exists|inner: &mut Renderer|
                {
                    &&& inner@ == old(self)@.cleared()
                    &&& #[trigger] f.ensures((inner,), ())
                    &&& final(self)@ == (RendererView {
                        recorded: old(self)@.recorded.push(
                            Drawn::transformed(final(inner)@.recorded, transformation),
                        ),
                        ..final(inner)@
                    })
                },
    {
        let layer = self.start_transformation();
        f(self);
        self.end_transformation(layer, transformation);
    }

    /// Draws a rectangle, possibly rounded and bordered, over a background.
    pub fn fill_quad(
        &mut self,
        quad: iced_graphics::core::renderer::Quad,
        background: iced_graphics::core::Background,
    )
        ensures
            final(self)@ == old(self)@.recording(Drawn::Quad { quad, background }),
    {
        match self {
            Renderer::TinySkia(renderer, _) => crate::tiny_skia::fill_quad(renderer, quad, background),
            Renderer::Wgpu(renderer, _) => crate::wgpu::fill_quad(renderer, quad, background),
        }
    }

    /// Forgets everything recorded, for a new frame to start.
    pub fn clear(&mut self)
        ensures
            final(self)@ == old(self)@.cleared(),
    {
        match self {
            Renderer::TinySkia(renderer, _) => crate::tiny_skia::clear(renderer),
            Renderer::Wgpu(renderer, _) => crate::wgpu::clear(renderer),
        }
    }

    /// The font used where a text names none.
    pub fn default_font(&self) -> (font: iced_graphics::core::Font)
        ensures
            font == self@.default_font,
    {
        match self {
            Renderer::TinySkia(renderer, _) => crate::tiny_skia::font_of(renderer),
            Renderer::Wgpu(renderer, _) => crate::wgpu::font_of(renderer),
        }
    }

    /// The text size used where a text names none.
    pub fn default_size(&self) -> (size: iced_graphics::core::Pixels)
        ensures
            size == self@.default_size,
    {
        match self {
            Renderer::TinySkia(renderer, _) => crate::tiny_skia::size_of(renderer),
            Renderer::Wgpu(renderer, _) => crate::wgpu::size_of(renderer),
        }
    }

    /// Hands the font in `bytes` to the backend of the renderer, which makes
    /// it known to the font system that all renderers of the process share
    /// and starts its own store of laid-out text anew. Nothing is drawn, and
    /// the renderer's own font and text size stay.
    pub fn load_font(&mut self, bytes: std::borrow::Cow<'static, [u8]>)
        ensures
            final(self).backend_after(*old(self), bytes),
            final(self)@ == old(self)@.handing(bytes),
    {
        match self {
            Renderer::TinySkia(renderer, fonts) => {
                crate::tiny_skia::load_font(renderer, bytes);
                proof {
                    *fonts = Ghost(fonts@.push(bytes));
                }
            },
            Renderer::Wgpu(renderer, fonts) => {
                crate::wgpu::load_font(renderer, bytes);
                proof {
                    *fonts = Ghost(fonts@.push(bytes));
                }
            },
        }
    }

    /// Draws a laid-out paragraph at `position`, in `color`, as far as it
    /// lies inside `clip_bounds`.
    pub fn fill_paragraph(
        &mut self,
        paragraph: &iced_graphics::text::Paragraph,
        position: iced_graphics::core::Point,
        color: iced_graphics::core::Color,
        clip_bounds: iced_graphics::core::Rectangle,
    )
        ensures
            final(self)@ == old(self)@.recording(
                Drawn::Paragraph { paragraph: *paragraph, position, color, clip_bounds },
            ),
    {
        match self {
            Renderer::TinySkia(renderer, _) => crate::tiny_skia::fill_paragraph(
                renderer,
                paragraph,
                position,
                color,
                clip_bounds,
            ),
            Renderer::Wgpu(renderer, _) => crate::wgpu::fill_paragraph(
                renderer,
                paragraph,
                position,
                color,
                clip_bounds,
            ),
        }
    }

    /// Draws the contents of a text editor at `position`, in `color`, as far
    /// as they lie inside `clip_bounds`.
    pub fn fill_editor(
        &mut self,
        editor: &iced_graphics::text::Editor,
        position: iced_graphics::core::Point,
        color: iced_graphics::core::Color,
        clip_bounds: iced_graphics::core::Rectangle,
    )
        ensures
            final(self)@ == old(self)@.recording(
                Drawn::Editor { editor: *editor, position, color, clip_bounds },
            ),
    {
        match self {
            Renderer::TinySkia(renderer, _) => crate::tiny_skia::fill_editor(
                renderer,
                editor,
                position,
                color,
                clip_bounds,
            ),
            Renderer::Wgpu(renderer, _) => crate::wgpu::fill_editor(
                renderer,
                editor,
                position,
                color,
                clip_bounds,
            ),
        }
    }

    /// Draws a piece of text at `position`, in `color`, as far as it lies
    /// inside `clip_bounds`.
    pub fn fill_text(
        &mut self,
        text: iced_graphics::core::text::Text<'_, iced_graphics::core::Font>,
        position: iced_graphics::core::Point,
        color: iced_graphics::core::Color,
        clip_bounds: iced_graphics::core::Rectangle,
    )
        ensures
            final(self)@ == old(self)@.recording(
                Drawn::Text { text, position, color, clip_bounds },
            ),
    {
        match self {
            Renderer::TinySkia(renderer, _) => crate::tiny_skia::fill_text(
                renderer,
                text,
                position,
                color,
                clip_bounds,
            ),
            Renderer::Wgpu(renderer, _) => crate::wgpu::fill_text(
                renderer,
                text,
                position,
                color,
                clip_bounds,
            ),
        }
    }

    /// Draws a raster image into `bounds`, scaled by `filter_method`.
    pub fn draw_image(
        &mut self,
        handle: iced_graphics::core::image::Handle,
        filter_method: iced_graphics::core::image::FilterMethod,
        bounds: iced_graphics::core::Rectangle,
    )
        ensures
            final(self)@ == old(self)@.recording(Drawn::Image { handle, filter_method, bounds }),
    {
        match self {
            Renderer::TinySkia(renderer, _) => crate::tiny_skia::draw_image(
                renderer,
                handle,
                filter_method,
                bounds,
            ),
            Renderer::Wgpu(renderer, _) => crate::wgpu::draw_image(
                renderer,
                handle,
                filter_method,
                bounds,
            ),
        }
    }

    /// Draws a vector image into `bounds`, in `color` where one is given.
    pub fn draw_svg(
        &mut self,
        handle: iced_graphics::core::svg::Handle,
        color: Option<iced_graphics::core::Color>,
        bounds: iced_graphics::core::Rectangle,
    )
        ensures
            final(self)@ == old(self)@.recording(Drawn::Svg { handle, color, bounds }),
    {
        match self {
            Renderer::TinySkia(renderer, _) => crate::tiny_skia::draw_svg(renderer, handle, color, bounds),
            Renderer::Wgpu(renderer, _) => crate::wgpu::draw_svg(renderer, handle, color, bounds),
        }
    }

    /// Whether every piece of geometry comes from the renderer's backend, so
    /// that `draw` may be called on them.
    pub fn accepts(&self, layers: &Vec<Geometry>) -> (accepted: bool)
        ensures
            accepted == all_of(layers@, self@.backend),
    {
        let backend = self.backend();
        let mut i: usize = 0;
        while i < layers.len()
            invariant
                i <= layers.len(),
                backend == self@.backend,
                all_of(layers@.take(i as int), backend),
            decreases layers.len() - i,
        {
            if layers[i].backend() != backend {
                return false;
            }
            proof {
                assert forall|j: int| 0 <= j < i + 1 implies (#[trigger] layers@.take(
                    i + 1,
                )[j])@.backend == backend by {
                    if j < i {
                        assert(layers@.take(i as int)[j] == layers@[j]);
                    }
                }
            }
            i += 1;
        }
        proof {
            assert(layers@.take(i as int) =~= layers@);
        }
        true
    }

    /// Draws pieces of geometry, lowest first, above what was recorded
    /// before. Every piece must come from the renderer's backend.
    pub fn draw(&mut self, layers: Vec<Geometry>)
        requires
            all_of(layers@, old(self)@.backend),
        ensures
            final(self)@ == old(self)@.recording_all(primitives_of(layers@)),
    {
        let ghost before = self@;
        for layer in iter: layers
            invariant
                iter.seq() == layers@,
                all_of(layers@, before.backend),
                self@ == before.recording_all(primitives_of(layers@.take(iter.index() as int))),
        {
            proof {
                assert(layers@.take(iter.index() + 1) =~= layers@.take(iter.index() as int).push(
                    layer,
                ));
                assert(primitives_of(layers@.take(iter.index() + 1)) =~= primitives_of(
                    layers@.take(iter.index() as int),
                ).push(layer@.primitive));
                assert(layers@[iter.index() as int] == layer);
            }
            match self {
                Renderer::TinySkia(renderer, _) => match layer {
                    Geometry::TinySkia(primitive) => crate::tiny_skia::draw_primitive(
                        renderer,
                        primitive,
                    ),
                    Geometry::Wgpu(_) => unreached(),
                },
                Renderer::Wgpu(renderer, _) => match layer {
                    Geometry::Wgpu(primitive) => crate::wgpu::draw_primitive(renderer, primitive),
                    Geometry::TinySkia(_) => unreached(),
                },
            }
            proof {
                assert(self@.recorded =~= before.recorded + primitives_of(
                    layers@.take(iter.index() + 1),
                ));
            }
        }
        proof {
            assert(layers@.take(layers@.len() as int) =~= layers@);
        }
    }
}

} // verus!
