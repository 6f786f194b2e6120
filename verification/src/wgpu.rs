//! The GPU-accelerated renderer, as this library calls it.
//!
//! Everything here is believed, not proved: each function makes one call into
//! `iced_wgpu` (or into `iced_graphics`, whose renderer it instantiates), and
//! its contract says what that call does to the model of `crate::model`.
//! Recording needs no GPU: what is recorded reaches one only when the
//! application presents it.

use vstd::prelude::*;
use crate::model::{Drawn, Matrix, identity};
use iced_graphics::geometry::Path;
use iced_graphics::geometry::Fill;
use iced_graphics::geometry::Stroke;
use iced_wgpu::geometry::Frame as WgpuFrame;
use iced_wgpu::Primitive as WgpuPrimitive;

verus! {

/// `iced_wgpu::Renderer`: the renderer of the GPU backend. Its type is generic
/// over a trait of `iced_graphics` that the verifier does not know, so it is
/// held whole, in a field that verified code cannot reach; the library touches
/// it only through the functions below.
#[verifier::external_body]
pub struct WgpuRenderer(pub iced_wgpu::Renderer);

/// `iced_graphics::Primitive`: one primitive of a backend, whose own kind of
/// primitive is `T`.
#[verifier::external_type_specification]
#[verifier::external_body]
#[verifier::reject_recursive_types(T)]
pub struct ExPrimitive<T>(iced_graphics::Primitive<T>);

/// `iced_wgpu::primitive::Custom`: the primitives that only the GPU backend
/// has, a mesh or a primitive with a pipeline of its own.
#[verifier::external_type_specification]
#[verifier::external_body]
pub struct ExCustom(iced_wgpu::primitive::Custom);

/// `iced_wgpu::geometry::Frame`: a frame of the GPU backend.
#[verifier::external_type_specification]
#[verifier::external_body]
pub struct ExWgpuFrame(WgpuFrame);

/// The primitives that the renderer has recorded and not yet cleared, lowest
/// first.
pub uninterp spec fn recorded(renderer: WgpuRenderer) -> Seq<Drawn>;

/// The font that the renderer was made with.
pub uninterp spec fn default_font(renderer: WgpuRenderer) -> iced_graphics::core::Font;

/// The text size that the renderer was made with.
pub uninterp spec fn default_size(renderer: WgpuRenderer) -> iced_graphics::core::Pixels;

/// What the primitive draws.
pub uninterp spec fn drawn(primitive: WgpuPrimitive) -> Drawn;

/// What each of the primitives draws, in their order.
pub open spec fn held(layer: Vec<WgpuPrimitive>) -> Seq<Drawn> {
    layer@.map_values(|primitive: WgpuPrimitive| drawn(primitive))
}

/// The renderer once the font in the bytes has been handed to its backend:
/// the same but for the backend's store of laid-out text, which starts anew.
pub uninterp spec fn font_loaded(renderer: WgpuRenderer, bytes: std::borrow::Cow<'static, [u8]>) -> WgpuRenderer;

/// Whether two renderers were made with the same font and text size.
pub open spec fn same_defaults(a: WgpuRenderer, b: WgpuRenderer) -> bool {
    &&& default_font(a) == default_font(b)
    &&& default_size(a) == default_size(b)
}

/// `iced_graphics::Renderer::draw_primitive`: the primitive is recorded above
/// those recorded before.
#[verifier::external_body]
pub(crate) fn draw_primitive(renderer: &mut WgpuRenderer, primitive: WgpuPrimitive)
    ensures
        recorded(*final(renderer)) == recorded(*old(renderer)).push(drawn(primitive)),
        same_defaults(*final(renderer), *old(renderer)),
{
    renderer.0.draw_primitive(primitive)
}

/// `iced_graphics::Renderer::start_layer`: hands out what was recorded and
/// leaves the renderer with nothing recorded.
#[verifier::external_body]
pub(crate) fn start_layer(renderer: &mut WgpuRenderer) -> (layer: Vec<WgpuPrimitive>)
    ensures
        held(layer) == recorded(*old(renderer)),
        recorded(*final(renderer)) == Seq::<Drawn>::empty(),
        same_defaults(*final(renderer), *old(renderer)),
{
    renderer.0.start_layer()
}

/// `iced_graphics::Renderer::end_layer`: what was recorded since the scope
/// was opened becomes one group clipped to `bounds`, recorded above the
/// primitives that had been put aside.
#[verifier::external_body]
pub(crate) fn end_layer(
    renderer: &mut WgpuRenderer,
    layer: Vec<WgpuPrimitive>,
    bounds: iced_graphics::core::Rectangle,
)
    ensures
        recorded(*final(renderer)) == held(layer).push(
            Drawn::layer(recorded(*old(renderer)), bounds),
        ),
        same_defaults(*final(renderer), *old(renderer)),
{
    renderer.0.end_layer(layer, bounds)
}

/// `iced_graphics::Renderer::start_transformation`: hands out what was
/// recorded and leaves the renderer with nothing recorded.
#[verifier::external_body]
pub(crate) fn start_transformation(renderer: &mut WgpuRenderer) -> (layer: Vec<WgpuPrimitive>)
    ensures
        held(layer) == recorded(*old(renderer)),
        recorded(*final(renderer)) == Seq::<Drawn>::empty(),
        same_defaults(*final(renderer), *old(renderer)),
{
    renderer.0.start_transformation()
}

/// `iced_graphics::Renderer::end_transformation`: what was recorded since the
/// scope was opened becomes one group under `transformation`, recorded above
/// the primitives that had been put aside.
#[verifier::external_body]
pub(crate) fn end_transformation(
    renderer: &mut WgpuRenderer,
    layer: Vec<WgpuPrimitive>,
    transformation: iced_graphics::core::Transformation,
)
    ensures
        recorded(*final(renderer)) == held(layer).push(
            Drawn::transformed(recorded(*old(renderer)), transformation),
        ),
        same_defaults(*final(renderer), *old(renderer)),
{
    renderer.0.end_transformation(layer, transformation)
}

/// `iced_core::Renderer::fill_quad` of `iced_graphics::Renderer`: one quad
/// primitive is recorded, with the bounds, border and shadow of `quad` and
/// with `background`.
#[verifier::external_body]
pub(crate) fn fill_quad(
    renderer: &mut WgpuRenderer,
    quad: iced_graphics::core::renderer::Quad,
    background: iced_graphics::core::Background,
)
    ensures
        recorded(*final(renderer)) == recorded(*old(renderer)).push(
            Drawn::Quad { quad, background },
        ),
        same_defaults(*final(renderer), *old(renderer)),
{
    iced_graphics::core::Renderer::fill_quad(&mut renderer.0, quad, background)
}

/// `iced_core::Renderer::clear` of `iced_graphics::Renderer`: nothing stays
/// recorded.
#[verifier::external_body]
pub(crate) fn clear(renderer: &mut WgpuRenderer)
    ensures
        recorded(*final(renderer)) == Seq::<Drawn>::empty(),
        same_defaults(*final(renderer), *old(renderer)),
{
    iced_graphics::core::Renderer::clear(&mut renderer.0)
}

/// `iced_core::text::Renderer::default_font` of `iced_graphics::Renderer`: the
/// font that the renderer was made with.
#[verifier::external_body]
pub(crate) fn font_of(renderer: &WgpuRenderer) -> (font: iced_graphics::core::Font)
    ensures
        font == default_font(*renderer),
{
    iced_graphics::core::text::Renderer::default_font(&renderer.0)
}

/// `iced_core::text::Renderer::default_size` of `iced_graphics::Renderer`: the
/// text size that the renderer was made with.
#[verifier::external_body]
pub(crate) fn size_of(renderer: &WgpuRenderer) -> (size: iced_graphics::core::Pixels)
    ensures
        size == default_size(*renderer),
{
    iced_graphics::core::text::Renderer::default_size(&renderer.0)
}

/// `iced_core::text::Renderer::load_font` of `iced_graphics::Renderer`: the
/// bytes go to the font system that all renderers of the process share, which
/// is no part of this renderer; nothing is recorded, and the font and text
/// size that the renderer was made with stay.
#[verifier::external_body]
pub(crate) fn load_font(renderer: &mut WgpuRenderer, bytes: std::borrow::Cow<'static, [u8]>)
    ensures
        *final(renderer) == font_loaded(*old(renderer), bytes),
        recorded(*final(renderer)) == recorded(*old(renderer)),
        same_defaults(*final(renderer), *old(renderer)),
{
    iced_graphics::core::text::Renderer::load_font(&mut renderer.0, bytes)
}

/// `iced_core::text::Renderer::fill_paragraph` of `iced_graphics::Renderer`:
/// one paragraph primitive is recorded, with the values given.
#[verifier::external_body]
pub(crate) fn fill_paragraph(
    renderer: &mut WgpuRenderer,
    paragraph: &iced_graphics::text::Paragraph,
    position: iced_graphics::core::Point,
    color: iced_graphics::core::Color,
    clip_bounds: iced_graphics::core::Rectangle,
)
    ensures
        recorded(*final(renderer)) == recorded(*old(renderer)).push(
            Drawn::Paragraph { paragraph: *paragraph, position, color, clip_bounds },
        ),
        same_defaults(*final(renderer), *old(renderer)),
{
    iced_graphics::core::text::Renderer::fill_paragraph(
        &mut renderer.0,
        paragraph,
        position,
        color,
        clip_bounds,
    )
}

/// `iced_core::text::Renderer::fill_editor` of `iced_graphics::Renderer`: one
/// editor primitive is recorded, with the values given.
#[verifier::external_body]
pub(crate) fn fill_editor(
    renderer: &mut WgpuRenderer,
    editor: &iced_graphics::text::Editor,
    position: iced_graphics::core::Point,
    color: iced_graphics::core::Color,
    clip_bounds: iced_graphics::core::Rectangle,
)
    ensures
        recorded(*final(renderer)) == recorded(*old(renderer)).push(
            Drawn::Editor { editor: *editor, position, color, clip_bounds },
        ),
        same_defaults(*final(renderer), *old(renderer)),
{
    iced_graphics::core::text::Renderer::fill_editor(
        &mut renderer.0,
        editor,
        position,
        color,
        clip_bounds,
    )
}

/// `iced_core::text::Renderer::fill_text` of `iced_graphics::Renderer`: one
/// text primitive is recorded, with the values given.
#[verifier::external_body]
pub(crate) fn fill_text(
    renderer: &mut WgpuRenderer,
    text: iced_graphics::core::text::Text<'_, iced_graphics::core::Font>,
    position: iced_graphics::core::Point,
    color: iced_graphics::core::Color,
    clip_bounds: iced_graphics::core::Rectangle,
)
    ensures
        recorded(*final(renderer)) == recorded(*old(renderer)).push(
            Drawn::Text { text, position, color, clip_bounds },
        ),
        same_defaults(*final(renderer), *old(renderer)),
{
    iced_graphics::core::text::Renderer::fill_text(
        &mut renderer.0,
        text,
        position,
        color,
        clip_bounds,
    )
}

/// `iced_core::image::Renderer::draw` of `iced_graphics::Renderer`: one image
/// primitive is recorded, with the values given.
#[verifier::external_body]
pub(crate) fn draw_image(
    renderer: &mut WgpuRenderer,
    handle: iced_graphics::core::image::Handle,
    filter_method: iced_graphics::core::image::FilterMethod,
    bounds: iced_graphics::core::Rectangle,
)
    ensures
        recorded(*final(renderer)) == recorded(*old(renderer)).push(
            Drawn::Image { handle, filter_method, bounds },
        ),
        same_defaults(*final(renderer), *old(renderer)),
{
    iced_graphics::core::image::Renderer::draw(&mut renderer.0, handle, filter_method, bounds)
}

/// `iced_core::svg::Renderer::draw` of `iced_graphics::Renderer`: one vector
/// image primitive is recorded, with the values given.
#[verifier::external_body]
pub(crate) fn draw_svg(
    renderer: &mut WgpuRenderer,
    handle: iced_graphics::core::svg::Handle,
    color: Option<iced_graphics::core::Color>,
    bounds: iced_graphics::core::Rectangle,
)
    ensures
        recorded(*final(renderer)) == recorded(*old(renderer)).push(
            Drawn::Svg { handle, color, bounds },
        ),
        same_defaults(*final(renderer), *old(renderer)),
{
    iced_graphics::core::svg::Renderer::draw(&mut renderer.0, handle, color, bounds)
}

/// `iced_graphics::Renderer::draw_primitive`, on the mesh as a primitive of
/// the GPU backend's own kind: the mesh is recorded above what was recorded
/// before.
#[verifier::external_body]
pub(crate) fn draw_mesh(renderer: &mut WgpuRenderer, mesh: iced_graphics::Mesh)
    ensures
        recorded(*final(renderer)) == recorded(*old(renderer)).push(Drawn::Mesh { mesh }),
        same_defaults(*final(renderer), *old(renderer)),
{
    renderer.0.draw_primitive(WgpuPrimitive::Custom(iced_wgpu::primitive::Custom::Mesh(mesh)))
}

/// `iced_graphics::Renderer::draw_primitive`, on the pipeline primitive as a
/// primitive of the GPU backend's own kind: it is recorded above what was
/// recorded before. The backend's own `draw_pipeline_primitive` makes this
/// same call on the pipeline primitive that it builds; it cannot be called
/// here, because it takes the parts of a pipeline primitive, of any type that
/// has the backend's trait, and not the primitive made of them.
#[verifier::external_body]
pub(crate) fn draw_pipeline(renderer: &mut WgpuRenderer, pipeline: iced_wgpu::primitive::Pipeline)
    ensures
        recorded(*final(renderer)) == recorded(*old(renderer)).push(Drawn::Pipeline { pipeline }),
        same_defaults(*final(renderer), *old(renderer)),
{
    renderer.0.draw_primitive(WgpuPrimitive::Custom(iced_wgpu::primitive::Custom::Pipeline(pipeline)))
}

/// The width and height that the frame was made with.
pub uninterp spec fn frame_size(frame: WgpuFrame) -> iced_graphics::core::Size;

/// The transform that the frame applies to what is drawn next.
pub uninterp spec fn transform(frame: WgpuFrame) -> Matrix;

/// The transforms that the frame has put aside, oldest first.
pub uninterp spec fn saved(frame: WgpuFrame) -> Seq<Matrix>;

/// What the frame would finish as: the primitive that
/// `iced_wgpu::geometry::Frame::into_primitive` would hand out now.
pub uninterp spec fn content(frame: WgpuFrame) -> Drawn;

/// Whether the backend keeps a text as text on the frame: its own test of
/// the frame's current transform, which holds where the transform skews by
/// no more than rounding leaves and scales both directions by one factor
/// above zero. It holds of the identity.
pub uninterp spec fn upright(frame: WgpuFrame) -> bool;

/// What `upright` says of a frame, said of its current transform: the
/// backend's test looks at nothing else of the frame.
pub uninterp spec fn upright_of(matrix: Matrix) -> bool;

/// The empty frame of the given size.
pub uninterp spec fn fresh(size: iced_graphics::core::Size) -> WgpuFrame;

/// The frame once the path has been filled on it, or nothing where the
/// backend gives up: where its tessellator fails on the path as the frame
/// transforms it or, with debug assertions on, where transforming the path
/// gives a point that is not finite.
pub uninterp spec fn filled(frame: WgpuFrame, path: Path, fill: Fill) -> Option<WgpuFrame>;

/// The frame once the path has been stroked on it, or nothing where the
/// backend gives up or does not come back: where its tessellator fails on the
/// path as the frame transforms it and the stroke dashes it or, with debug
/// assertions on, where that gives a point that is not finite.
pub uninterp spec fn stroked(frame: WgpuFrame, path: Path, stroke: Stroke<'static>) -> Option<WgpuFrame>;

/// The frame once the rectangle has been filled on it.
pub uninterp spec fn rectangle_filled(
    frame: WgpuFrame,
    top_left: iced_graphics::core::Point,
    size: iced_graphics::core::Size,
    fill: Fill,
) -> WgpuFrame;

/// The frame, upright, once the text has been put on it.
pub uninterp spec fn labelled(frame: WgpuFrame, text: iced_graphics::geometry::Text) -> WgpuFrame;

/// The frame once the other frame has been laid on it with its top-left
/// corner at the point.
pub uninterp spec fn overlaid(frame: WgpuFrame, other: WgpuFrame, at: iced_graphics::core::Point) -> WgpuFrame;

/// The frame once its current transform has been put aside.
pub uninterp spec fn pushed(frame: WgpuFrame) -> WgpuFrame;

/// The frame once the transform it saved last has been made current again.
pub uninterp spec fn popped(frame: WgpuFrame) -> WgpuFrame;

/// The frame once it has been moved by the vector.
pub uninterp spec fn translated(frame: WgpuFrame, translation: iced_graphics::core::Vector) -> WgpuFrame;

/// The frame once it has been turned by an angle of which the machine gave
/// the sine and the cosine with the given bits.
pub uninterp spec fn turned(frame: WgpuFrame, sine: u32, cosine: u32) -> WgpuFrame;

/// The frame once it has been scaled by the factor, the same in both
/// directions.
pub uninterp spec fn scaled(frame: WgpuFrame, factor: iced_graphics::core::Pixels) -> WgpuFrame;

/// The frame once it has been scaled by the factors of the vector, one for
/// each direction.
pub uninterp spec fn stretched(frame: WgpuFrame, factors: iced_graphics::core::Vector) -> WgpuFrame;

/// Whether two frames have the same size and the same transform, current and
/// saved.
pub open spec fn same_setup(a: WgpuFrame, b: WgpuFrame) -> bool {
    &&& frame_size(a) == frame_size(b)
    &&& transform(a) == transform(b)
    &&& saved(a) == saved(b)
    &&& upright(a) == upright(b)
}

/// Whether two frames have the same size, the same saved transforms and would
/// finish as the same primitive.
pub open spec fn same_but_transform(a: WgpuFrame, b: WgpuFrame) -> bool {
    &&& frame_size(a) == frame_size(b)
    &&& saved(a) == saved(b)
    &&& content(a) == content(b)
}

/// `iced_wgpu::geometry::Frame::new`: the empty frame of the given size, with
/// the identity as its transform and none saved. It would finish as an empty
/// group.
#[verifier::external_body]
pub(crate) fn new_frame(size: iced_graphics::core::Size) -> (frame: WgpuFrame)
    ensures
        frame == fresh(size),
        frame_size(frame) == size,
        transform(frame) == identity(),
        saved(frame) == Seq::<Matrix>::empty(),
        upright(frame),
        content(frame) == (Drawn::Group { primitives: Seq::<Drawn>::empty() }),
{
    WgpuFrame::new(size)
}

/// `iced_wgpu::geometry::Frame::width`: the width of the frame's size.
#[verifier::external_body]
pub(crate) fn frame_width(frame: &WgpuFrame) -> (width: iced_graphics::core::Pixels)
    ensures
        width == crate::carried::width_of(frame_size(*frame)),
{
    iced_graphics::core::Pixels(frame.width())
}

/// `iced_wgpu::geometry::Frame::height`: the height of the frame's size.
#[verifier::external_body]
pub(crate) fn frame_height(frame: &WgpuFrame) -> (height: iced_graphics::core::Pixels)
    ensures
        height == crate::carried::height_of(frame_size(*frame)),
{
    iced_graphics::core::Pixels(frame.height())
}

/// `iced_wgpu::geometry::Frame::size`: the size that the frame was made with.
#[verifier::external_body]
pub(crate) fn frame_extent(frame: &WgpuFrame) -> (size: iced_graphics::core::Size)
    ensures
        size == frame_size(*frame),
{
    frame.size()
}

/// `iced_wgpu::geometry::Frame::center`: the point at half the width and half
/// the height of the frame's size.
#[verifier::external_body]
pub(crate) fn frame_center(frame: &WgpuFrame) -> (center: iced_graphics::core::Point)
    ensures
        center == crate::carried::center_of(frame_size(*frame)),
{
    frame.center()
}

/// `iced_wgpu::geometry::Frame::fill`: draws on the frame and leaves its size
/// and transforms alone. The path must be one on which the backend does not
/// give up.
#[verifier::external_body]
pub(crate) fn fill(frame: &mut WgpuFrame, path: &Path, fill: Fill)
    requires
        filled(*old(frame), *path, fill).is_some(),
    ensures
        Some(*final(frame)) == filled(*old(frame), *path, fill),
        same_setup(*final(frame), *old(frame)),
{
    frame.fill(path, fill)
}

/// `iced_wgpu::geometry::Frame::fill_rectangle`: draws on the frame and leaves
/// its size and transforms alone.
#[verifier::external_body]
pub(crate) fn fill_rectangle(
    frame: &mut WgpuFrame,
    top_left: iced_graphics::core::Point,
    size: iced_graphics::core::Size,
    fill: Fill,
)
    ensures
        *final(frame) == rectangle_filled(*old(frame), top_left, size, fill),
        same_setup(*final(frame), *old(frame)),
{
    frame.fill_rectangle(top_left, size, fill)
}

/// `iced_wgpu::geometry::Frame::stroke`: draws on the frame and leaves its
/// size and transforms alone. The path and stroke must be such that the
/// backend does not give up.
#[verifier::external_body]
pub(crate) fn stroke(frame: &mut WgpuFrame, path: &Path, stroke: Stroke<'_>)
    requires
        stroked(*old(frame), *path, stroke).is_some(),
    ensures
        Some(*final(frame)) == stroked(*old(frame), *path, stroke),
        same_setup(*final(frame), *old(frame)),
{
    frame.stroke(path, stroke)
}

/// `iced_wgpu::geometry::Frame::fill_text`, on an upright frame: the text is
/// kept as text, at the place where the frame's transform puts it and at the
/// size to which that transform scales it, and the frame's size and
/// transforms stay. On a frame that is not upright the backend shapes the
/// text with the fonts of the machine and fills the outlines; the contract
/// leaves such a frame out.
#[verifier::external_body]
pub(crate) fn fill_frame_text(frame: &mut WgpuFrame, text: iced_graphics::geometry::Text)
    requires
        upright(*old(frame)),
    ensures
        *final(frame) == labelled(*old(frame), text),
        same_setup(*final(frame), *old(frame)),
{
    frame.fill_text(text)
}

/// `iced_wgpu::geometry::Frame::push_transform`: the current transform is put
/// aside, above those saved before, and stays current.
#[verifier::external_body]
pub(crate) fn push_transform(frame: &mut WgpuFrame)
    ensures
        *final(frame) == pushed(*old(frame)),
        saved(*final(frame)) == saved(*old(frame)).push(transform(*old(frame))),
        transform(*final(frame)) == transform(*old(frame)),
        upright(*final(frame)) == upright(*old(frame)),
        upright(*old(frame)) == upright_of(transform(*old(frame))),
        frame_size(*final(frame)) == frame_size(*old(frame)),
        content(*final(frame)) == content(*old(frame)),
{
    frame.push_transform()
}

/// `iced_wgpu::geometry::Frame::pop_transform`: the transform saved last
/// becomes current again and is no longer saved. With none saved the backend
/// gives up, so one must be.
#[verifier::external_body]
pub(crate) fn pop_transform(frame: &mut WgpuFrame)
    requires
        saved(*old(frame)).len() > 0,
    ensures
        *final(frame) == popped(*old(frame)),
        transform(*final(frame)) == saved(*old(frame)).last(),
        saved(*final(frame)) == saved(*old(frame)).drop_last(),
        upright(*final(frame)) == upright_of(transform(*final(frame))),
        frame_size(*final(frame)) == frame_size(*old(frame)),
        content(*final(frame)) == content(*old(frame)),
{
    frame.pop_transform()
}

/// `iced_wgpu::geometry::Frame::clip`: lays the other frame on this one with
/// its top-left corner at the point, and leaves the size and transforms of
/// this one alone.
#[verifier::external_body]
pub(crate) fn clip(frame: &mut WgpuFrame, other: WgpuFrame, at: iced_graphics::core::Point)
    ensures
        *final(frame) == overlaid(*old(frame), other, at),
        same_setup(*final(frame), *old(frame)),
{
    frame.clip(other, at)
}

/// `iced_wgpu::geometry::Frame::translate`: changes the current transform and
/// nothing else.
#[verifier::external_body]
pub(crate) fn translate(frame: &mut WgpuFrame, translation: iced_graphics::core::Vector)
    ensures
        *final(frame) == translated(*old(frame), translation),
        same_but_transform(*final(frame), *old(frame)),
        upright(*final(frame)) == upright_of(transform(*final(frame))),
{
    frame.translate(translation)
}

/// `iced_wgpu::geometry::Frame::rotate`, with the angle in radians: changes
/// the current transform and nothing else. The new transform rests on the
/// sine and cosine that the machine gives for the angle, which are not said;
/// given those two, the frame that comes out is fixed.
#[verifier::external_body]
pub(crate) fn rotate(frame: &mut WgpuFrame, angle: iced_graphics::core::Radians)
    ensures
        exists|sine: u32, cosine: u32| *final(frame) == #[trigger] turned(*old(frame), sine, cosine),
        same_but_transform(*final(frame), *old(frame)),
        upright(*final(frame)) == upright_of(transform(*final(frame))),
{
    frame.rotate(angle.0)
}

/// `iced_wgpu::geometry::Frame::scale`: changes the current transform and
/// nothing else.
#[verifier::external_body]
pub(crate) fn scale(frame: &mut WgpuFrame, factor: iced_graphics::core::Pixels)
    ensures
        *final(frame) == scaled(*old(frame), factor),
        same_but_transform(*final(frame), *old(frame)),
        upright(*final(frame)) == upright_of(transform(*final(frame))),
{
    frame.scale(factor)
}

/// `iced_wgpu::geometry::Frame::scale_nonuniform`: changes the current
/// transform and nothing else.
#[verifier::external_body]
pub(crate) fn scale_nonuniform(frame: &mut WgpuFrame, factors: iced_graphics::core::Vector)
    ensures
        *final(frame) == stretched(*old(frame), factors),
        same_but_transform(*final(frame), *old(frame)),
        upright(*final(frame)) == upright_of(transform(*final(frame))),
{
    frame.scale_nonuniform(factors)
}

/// `iced_wgpu::geometry::Frame::into_primitive`: the primitive that the frame
/// finishes as.
#[verifier::external_body]
pub(crate) fn into_primitive(frame: WgpuFrame) -> (primitive: WgpuPrimitive)
    ensures
        drawn(primitive) == content(frame),
{
    frame.into_primitive()
}

} // verus!
