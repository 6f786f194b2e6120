//! The mathematical model that the contracts of this library speak of.
//!
//! A renderer is modelled by the sequence of primitives it has recorded, a
//! frame by its size, its transform, the transforms it has saved and what it
//! would finish as. None of these values exists at run time.

use vstd::prelude::*;

verus! {

/// One of the two graphics backends.
#[derive(Clone, Copy, Debug, PartialEq, Eq, Structural)]
pub enum Backend {
    /// The software rasterizer.
    TinySkia,
    /// The GPU-accelerated renderer.
    Wgpu,
}

/// A primitive as a renderer records it: what was asked to be drawn, with the
/// values that the caller gave.
#[allow(inconsistent_fields)]
pub ghost enum Drawn {
    /// A rectangle, possibly rounded and bordered, over a background.
    Quad { quad: iced_graphics::core::renderer::Quad, background: iced_graphics::core::Background },
    /// A laid-out paragraph.
    Paragraph {
        paragraph: iced_graphics::text::Paragraph,
        position: iced_graphics::core::Point,
        color: iced_graphics::core::Color,
        clip_bounds: iced_graphics::core::Rectangle,
    },
    /// The contents of a text editor.
    Editor {
        editor: iced_graphics::text::Editor,
        position: iced_graphics::core::Point,
        color: iced_graphics::core::Color,
        clip_bounds: iced_graphics::core::Rectangle,
    },
    /// A piece of text that has not been laid out.
    Text {
        text: iced_graphics::core::text::Text<'static, iced_graphics::core::Font>,
        position: iced_graphics::core::Point,
        color: iced_graphics::core::Color,
        clip_bounds: iced_graphics::core::Rectangle,
    },
    /// A raster image.
    Image {
        handle: iced_graphics::core::image::Handle,
        filter_method: iced_graphics::core::image::FilterMethod,
        bounds: iced_graphics::core::Rectangle,
    },
    /// A vector image, with the color that replaces its own where one is given.
    Svg {
        handle: iced_graphics::core::svg::Handle,
        color: Option<iced_graphics::core::Color>,
        bounds: iced_graphics::core::Rectangle,
    },
    /// A mesh of triangles.
    Mesh { mesh: iced_graphics::Mesh },
    /// A primitive with a GPU pipeline of its own.
    Pipeline { pipeline: iced_wgpu::primitive::Pipeline },
    /// Several primitives, lowest first.
    Group { primitives: Seq<Drawn> },
    /// A primitive of which only the part inside `bounds` shows.
    Clip { bounds: iced_graphics::core::Rectangle, content: Box<Drawn> },
    /// A primitive under a transformation.
    Transform { transformation: iced_graphics::core::Transformation, content: Box<Drawn> },
}

impl Drawn {
    /// The layer that a renderer records when a clipped scope ends: the
    /// primitives of the scope as one group, cut to `bounds`.
    pub open spec fn layer(primitives: Seq<Drawn>, bounds: iced_graphics::core::Rectangle) -> Drawn {
        Drawn::Clip { bounds, content: Box::new(Drawn::Group { primitives }) }
    }

    /// What a renderer records when a transformed scope ends: the primitives of
    /// the scope as one group, under `transformation`.
    pub open spec fn transformed(
        primitives: Seq<Drawn>,
        transformation: iced_graphics::core::Transformation,
    ) -> Drawn {
        Drawn::Transform { transformation, content: Box::new(Drawn::Group { primitives }) }
    }
}

/// An affine transform of the plane, `x' = a x + c y + e` and
/// `y' = b x + d y + f`: the six coefficients in the order `a, b, c, d, e, f`,
/// each as the bits of its single-precision value.
pub type Matrix = Seq<u32>;

/// The bits of the single-precision value one.
pub const ONE_BITS: u32 = 0x3F80_0000;

/// The transform that leaves every point where it is.
pub open spec fn identity() -> Matrix {
    seq![ONE_BITS, 0u32, 0u32, ONE_BITS, 0u32, 0u32]
}

/// What the contracts say of a renderer.
pub ghost struct RendererView {
    /// The backend that the renderer is bound to.
    pub backend: Backend,
    /// The primitives recorded so far, lowest first.
    pub recorded: Seq<Drawn>,
    /// The font used where a text names none.
    pub default_font: iced_graphics::core::Font,
    /// The text size used where a text names none.
    pub default_size: iced_graphics::core::Pixels,
    /// The fonts handed to the backend through this renderer, oldest first.
    pub fonts_handed: Seq<std::borrow::Cow<'static, [u8]>>,
}

/// What the contracts say of the primitives put aside while a scope is open.
pub ghost struct LayerView {
    /// The backend of the renderer that the primitives were taken from.
    pub backend: Backend,
    /// The primitives put aside, lowest first.
    pub held: Seq<Drawn>,
}

/// What the contracts say of a frame.
pub ghost struct FrameView {
    /// The backend that the frame draws with.
    pub backend: Backend,
    /// The width and height of the canvas.
    pub size: iced_graphics::core::Size,
    /// The transform applied to what is drawn next.
    pub transform: Matrix,
    /// The transforms put aside by scopes that are still open, oldest first.
    pub saved: Seq<Matrix>,
    /// Whether the current transform only scales, by one factor above zero
    /// for both directions, and moves. Text is kept as text on such a frame.
    pub upright: bool,
    /// The primitive that the frame would finish as.
    pub content: Drawn,
}

/// What the contracts say of a finished piece of geometry.
pub ghost struct GeometryView {
    /// The backend that produced the geometry and alone can draw it.
    pub backend: Backend,
    /// The primitive that it holds.
    pub primitive: Drawn,
}

impl RendererView {
    /// The renderer once it has recorded one more primitive above the others.
    pub open spec fn recording(self, primitive: Drawn) -> RendererView {
        RendererView { recorded: self.recorded.push(primitive), ..self }
    }

    /// The renderer once it has recorded the primitives, in their order,
    /// above the others.
    pub open spec fn recording_all(self, primitives: Seq<Drawn>) -> RendererView {
        RendererView { recorded: self.recorded + primitives, ..self }
    }

    /// The renderer once one more font has been handed to its backend.
    pub open spec fn handing(self, bytes: std::borrow::Cow<'static, [u8]>) -> RendererView {
        RendererView { fonts_handed: self.fonts_handed.push(bytes), ..self }
    }

    /// The renderer with nothing recorded.
    pub open spec fn cleared(self) -> RendererView {
        RendererView { recorded: Seq::<Drawn>::empty(), ..self }
    }
}

} // verus!
