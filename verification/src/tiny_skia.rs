//! The software rasterizer, as this library calls it.
//!
//! Everything here is believed, not proved: each function makes one call into
//! `iced_tiny_skia` (or into `iced_graphics`, whose renderer it instantiates),
//! and its contract says what that call does to the model of `crate::model`.

use vstd::prelude::*;
use crate::model::{Drawn, Matrix, identity};
use iced_graphics::geometry::Path;
use iced_graphics::geometry::Fill;
use iced_graphics::geometry::Stroke;
use iced_tiny_skia::geometry::Frame as TinySkiaFrame;

verus! {

/// `iced_tiny_skia::Renderer`: the renderer of the software rasterizer. Its
/// type is generic over a trait of `iced_graphics` that the verifier does not
/// know, so it is held whole, in a field that verified code cannot reach; the
/// library touches it only through the functions below.
#[verifier::external_body]
pub struct TinySkiaRenderer(pub iced_tiny_skia::Renderer);

/// `iced_tiny_skia::Primitive`: one primitive of the software rasterizer. The
/// rasterizer keeps its own kind of primitive private, so the type cannot be
/// declared and is held whole.
#[verifier::external_body]
pub struct TinySkiaPrimitive(pub iced_tiny_skia::Primitive);

/// The primitives that a renderer of the software rasterizer had recorded when
/// a scope was opened on it, put aside until the scope ends.
#[verifier::external_body]
pub struct TinySkiaLayer(pub Vec<iced_tiny_skia::Primitive>);

/// `iced_tiny_skia::geometry::Frame`: a frame of the software rasterizer.
#[verifier::external_type_specification]
#[verifier::external_body]
pub struct ExTinySkiaFrame(TinySkiaFrame);

/// The primitives that the renderer has recorded and not yet cleared, lowest
/// first.
pub uninterp spec fn recorded(renderer: TinySkiaRenderer) -> Seq<Drawn>;

/// The font that the renderer was made with.
pub uninterp spec fn default_font(renderer: TinySkiaRenderer) -> iced_graphics::core::Font;

/// The text size that the renderer was made with.
pub uninterp spec fn default_size(renderer: TinySkiaRenderer) -> iced_graphics::core::Pixels;

/// What the primitive draws.
pub uninterp spec fn drawn(primitive: TinySkiaPrimitive) -> Drawn;

/// The primitives put aside, lowest first.
pub uninterp spec fn held(layer: TinySkiaLayer) -> Seq<Drawn>;

/// The renderer once the font in the bytes has been handed to its backend:
/// the same but for the backend's store of laid-out text, which starts anew.
pub uninterp spec fn font_loaded(renderer: TinySkiaRenderer, bytes: std::borrow::Cow<'static, [u8]>) -> TinySkiaRenderer;

/// Whether two renderers were made with the same font and text size.
pub open spec fn same_defaults(a: TinySkiaRenderer, b: TinySkiaRenderer) -> bool {
    &&& default_font(a) == default_font(b)
    &&& default_size(a) == default_size(b)
}

/// `iced_graphics::Renderer::draw_primitive`: the primitive is recorded above
/// those recorded before.
#[verifier::external_body]
pub(crate) fn draw_primitive(renderer: &mut TinySkiaRenderer, primitive: TinySkiaPrimitive)
    ensures
        recorded(*final(renderer)) == recorded(*old(renderer)).push(drawn(primitive)),
        same_defaults(*final(renderer), *old(renderer)),
{
    renderer.0.draw_primitive(primitive.0)
}

/// `iced_graphics::Renderer::start_layer`: hands out what was recorded and
/// leaves the renderer with nothing recorded.
#[verifier::external_body]
pub(crate) fn start_layer(renderer: &mut TinySkiaRenderer) -> (layer: TinySkiaLayer)
    ensures
        held(layer) == recorded(*old(renderer)),
        recorded(*final(renderer)) == Seq::<Drawn>::empty(),
        same_defaults(*final(renderer), *old(renderer)),
{
    TinySkiaLayer(renderer.0.start_layer())
}

/// `iced_graphics::Renderer::end_layer`: what was recorded since the scope
/// was opened becomes one group clipped to `bounds`, recorded above the
/// primitives that had been put aside.
#[verifier::external_body]
pub(crate) fn end_layer(
    renderer: &mut TinySkiaRenderer,
    layer: TinySkiaLayer,
    bounds: iced_graphics::core::Rectangle,
)
    ensures
        recorded(*final(renderer)) == held(layer).push(
            Drawn::layer(recorded(*old(renderer)), bounds),
        ),
        same_defaults(*final(renderer), *old(renderer)),
{
    renderer.0.end_layer(layer.0, bounds)
}

/// `iced_graphics::Renderer::start_transformation`: hands out what was
/// recorded and leaves the renderer with nothing recorded.
#[verifier::external_body]
pub(crate) fn start_transformation(renderer: &mut TinySkiaRenderer) -> (layer: TinySkiaLayer)
    ensures
        held(layer) == recorded(*old(renderer)),
        recorded(*final(renderer)) == Seq::<Drawn>::empty(),
        same_defaults(*final(renderer), *old(renderer)),
{
    TinySkiaLayer(renderer.0.start_transformation())
}

/// `iced_graphics::Renderer::end_transformation`: what was recorded since the
/// scope was opened becomes one group under `transformation`, recorded above
/// the primitives that had been put aside.
#[verifier::external_body]
pub(crate) fn end_transformation(
    renderer: &mut TinySkiaRenderer,
    layer: TinySkiaLayer,
    transformation: iced_graphics::core::Transformation,
)
    ensures
        recorded(*final(renderer)) == held(layer).push(
            Drawn::transformed(recorded(*old(renderer)), transformation),
        ),
        same_defaults(*final(renderer), *old(renderer)),
{
    renderer.0.end_transformation(layer.0, transformation)
}

/// `iced_core::Renderer::fill_quad` of `iced_graphics::Renderer`: one quad
/// primitive is recorded, with the bounds, border and shadow of `quad` and
/// with `background`.
#[verifier::external_body]
pub(crate) fn fill_quad(
    renderer: &mut TinySkiaRenderer,
    quad: iced_graphics::core::renderer::Quad,
    background: iced_graphics::core::Background,
)
    ensures
        recorded(*final(renderer)) == recorded(*old(renderer)).push(
            Drawn::Quad { quad, background },
        ),
        same_defaults(*final(renderer), *old(renderer)),
{
    iced_graphics::core::Renderer::fill_quad(&mut renderer.0, quad, background)
}

/// `iced_core::Renderer::clear` of `iced_graphics::Renderer`: nothing stays
/// recorded.
#[verifier::external_body]
pub(crate) fn clear(renderer: &mut TinySkiaRenderer)
    ensures
        recorded(*final(renderer)) == Seq::<Drawn>::empty(),
        same_defaults(*final(renderer), *old(renderer)),
{
    iced_graphics::core::Renderer::clear(&mut renderer.0)
}

/// `iced_core::text::Renderer::default_font` of `iced_graphics::Renderer`: the
/// font that the renderer was made with.
#[verifier::external_body]
pub(crate) fn font_of(renderer: &TinySkiaRenderer) -> (font: iced_graphics::core::Font)
    ensures
        font == default_font(*renderer),
{
    iced_graphics::core::text::Renderer::default_font(&renderer.0)
}

/// `iced_core::text::Renderer::default_size` of `iced_graphics::Renderer`: the
/// text size that the renderer was made with.
#[verifier::external_body]
pub(crate) fn size_of(renderer: &TinySkiaRenderer) -> (size: iced_graphics::core::Pixels)
    ensures
        size == default_size(*renderer),
{
    iced_graphics::core::text::Renderer::default_size(&renderer.0)
}

/// `iced_core::text::Renderer::load_font` of `iced_graphics::Renderer`: the
/// bytes go to the font system that all renderers of the process share, which
/// is no part of this renderer; nothing is recorded, and the font and text
/// size that the renderer was made with stay.
#[verifier::external_body]
pub(crate) fn load_font(renderer: &mut TinySkiaRenderer, bytes: std::borrow::Cow<'static, [u8]>)
    ensures
        *final(renderer) == font_loaded(*old(renderer), bytes),
        recorded(*final(renderer)) == recorded(*old(renderer)),
        same_defaults(*final(renderer), *old(renderer)),
{
    iced_graphics::core::text::Renderer::load_font(&mut renderer.0, bytes)
}

/// `iced_core::text::Renderer::fill_paragraph` of `iced_graphics::Renderer`:
/// one paragraph primitive is recorded, with the values given.
#[verifier::external_body]
pub(crate) fn fill_paragraph(
    renderer: &mut TinySkiaRenderer,
    paragraph: &iced_graphics::text::Paragraph,
    position: iced_graphics::core::Point,
    color: iced_graphics::core::Color,
    clip_bounds: iced_graphics::core::Rectangle,
)
    ensures
        recorded(*final(renderer)) == recorded(*old(renderer)).push(
            Drawn::Paragraph { paragraph: *paragraph, position, color, clip_bounds },
        ),
        same_defaults(*final(renderer), *old(renderer)),
{
    iced_graphics::core::text::Renderer::fill_paragraph(
        &mut renderer.0,
        paragraph,
        position,
        color,
        clip_bounds,
    )
}

/// `iced_core::text::Renderer::fill_editor` of `iced_graphics::Renderer`: one
/// editor primitive is recorded, with the values given.
#[verifier::external_body]
pub(crate) fn fill_editor(
    renderer: &mut TinySkiaRenderer,
    editor: &iced_graphics::text::Editor,
    position: iced_graphics::core::Point,
    color: iced_graphics::core::Color,
    clip_bounds: iced_graphics::core::Rectangle,
)
    ensures
        recorded(*final(renderer)) == recorded(*old(renderer)).push(
            Drawn::Editor { editor: *editor, position, color, clip_bounds },
        ),
        same_defaults(*final(renderer), *old(renderer)),
{
    iced_graphics::core::text::Renderer::fill_editor(
        &mut renderer.0,
        editor,
        position,
        color,
        clip_bounds,
    )
}

/// `iced_core::text::Renderer::fill_text` of `iced_graphics::Renderer`: one
/// text primitive is recorded, with the values given.
#[verifier::external_body]
pub(crate) fn fill_text(
    renderer: &mut TinySkiaRenderer,
    text: iced_graphics::core::text::Text<'_, iced_graphics::core::Font>,
    position: iced_graphics::core::Point,
    color: iced_graphics::core::Color,
    clip_bounds: iced_graphics::core::Rectangle,
)
    ensures
        recorded(*final(renderer)) == recorded(*old(renderer)).push(
            Drawn::Text { text, position, color, clip_bounds },
        ),
        same_defaults(*final(renderer), *old(renderer)),
{
    iced_graphics::core::text::Renderer::fill_text(
        &mut renderer.0,
        text,
        position,
        color,
        clip_bounds,
    )
}

/// `iced_core::image::Renderer::draw` of `iced_graphics::Renderer`: one image
/// primitive is recorded, with the values given.
#[verifier::external_body]
pub(crate) fn draw_image(
    renderer: &mut TinySkiaRenderer,
    handle: iced_graphics::core::image::Handle,
    filter_method: iced_graphics::core::image::FilterMethod,
    bounds: iced_graphics::core::Rectangle,
)
    ensures
        recorded(*final(renderer)) == recorded(*old(renderer)).push(
            Drawn::Image { handle, filter_method, bounds },
        ),
        same_defaults(*final(renderer), *old(renderer)),
{
    iced_graphics::core::image::Renderer::draw(&mut renderer.0, handle, filter_method, bounds)
}

/// `iced_core::svg::Renderer::draw` of `iced_graphics::Renderer`: one vector
/// image primitive is recorded, with the values given.
#[verifier::external_body]
pub(crate) fn draw_svg(
    renderer: &mut TinySkiaRenderer,
    handle: iced_graphics::core::svg::Handle,
    color: Option<iced_graphics::core::Color>,
    bounds: iced_graphics::core::Rectangle,
)
    ensures
        recorded(*final(renderer)) == recorded(*old(renderer)).push(
            Drawn::Svg { handle, color, bounds },
        ),
        same_defaults(*final(renderer), *old(renderer)),
{
    iced_graphics::core::svg::Renderer::draw(&mut renderer.0, handle, color, bounds)
}

/// The width and height that the frame was made with.
pub uninterp spec fn frame_size(frame: TinySkiaFrame) -> iced_graphics::core::Size;

/// The transform that the frame applies to what is drawn next.
pub uninterp spec fn transform(frame: TinySkiaFrame) -> Matrix;

/// The transforms that the frame has put aside, oldest first.
pub uninterp spec fn saved(frame: TinySkiaFrame) -> Seq<Matrix>;

/// The primitives drawn on the frame so far, lowest first.
pub uninterp spec fn items(frame: TinySkiaFrame) -> Seq<Drawn>;

/// What the frame would finish as: what was drawn on it, as one group
/// clipped to its canvas.
pub open spec fn content(frame: TinySkiaFrame) -> Drawn {
    Drawn::layer(items(frame), crate::carried::canvas_of(frame_size(frame)))
}

/// Whether the backend keeps a text as text on the frame: its own test of
/// the frame's current transform, which holds where the transform scales or
/// moves, does not skew, and scales both directions by one factor above zero.
/// It does not hold of the identity.
pub uninterp spec fn upright(frame: TinySkiaFrame) -> bool;

/// What `upright` says of a frame, said of its current transform: the
/// backend's test looks at nothing else of the frame.
pub uninterp spec fn upright_of(matrix: Matrix) -> bool;

/// The empty frame of the given size.
pub uninterp spec fn fresh(size: iced_graphics::core::Size) -> TinySkiaFrame;

/// Whether the rasterizer can make a paint of the style of the fill: every
/// color in it has its four components between zero and one, and a gradient
/// has ends a finite distance apart.
pub uninterp spec fn paints(fill: Fill) -> bool;

/// Whether the rasterizer can make a paint of the style of the stroke: every
/// color in it has its four components between zero and one, and a gradient
/// has ends a finite distance apart.
pub uninterp spec fn outlines(stroke: Stroke<'static>) -> bool;

/// Whether the four corners of the rectangle with the given top-left corner
/// and size have finite coordinates. Where its debug assertions are on, the
/// path builder behind the rasterizer gives up on any other.
pub uninterp spec fn spans(top_left: iced_graphics::core::Point, size: iced_graphics::core::Size) -> bool;

/// The point with the given whole coordinates.
pub uninterp spec fn whole_point(x: u16, y: u16) -> iced_graphics::core::Point;

/// The size with the given whole width and height.
pub uninterp spec fn whole_size(width: u16, height: u16) -> iced_graphics::core::Size;

/// The frame once the path has been filled on it.
pub uninterp spec fn filled(frame: TinySkiaFrame, path: Path, fill: Fill) -> TinySkiaFrame;

/// The frame once the path has been stroked on it.
pub uninterp spec fn stroked(frame: TinySkiaFrame, path: Path, stroke: Stroke<'static>) -> TinySkiaFrame;

/// The frame once the rectangle has been filled on it.
pub uninterp spec fn rectangle_filled(
    frame: TinySkiaFrame,
    top_left: iced_graphics::core::Point,
    size: iced_graphics::core::Size,
    fill: Fill,
) -> TinySkiaFrame;

/// The frame, upright, once the text has been put on it.
pub uninterp spec fn labelled(frame: TinySkiaFrame, text: iced_graphics::geometry::Text) -> TinySkiaFrame;

/// The frame once the other frame has been laid on it with its top-left
/// corner at the point.
pub uninterp spec fn overlaid(frame: TinySkiaFrame, other: TinySkiaFrame, at: iced_graphics::core::Point) -> TinySkiaFrame;

/// The frame once its current transform has been put aside.
pub uninterp spec fn pushed(frame: TinySkiaFrame) -> TinySkiaFrame;

/// The frame once the transform it saved last has been made current again.
pub uninterp spec fn popped(frame: TinySkiaFrame) -> TinySkiaFrame;

/// The frame once it has been moved by the vector.
pub uninterp spec fn translated(frame: TinySkiaFrame, translation: iced_graphics::core::Vector) -> TinySkiaFrame;

/// The frame once it has been turned by an angle of which the machine gave
/// the sine and the cosine with the given bits.
pub uninterp spec fn turned(frame: TinySkiaFrame, sine: u32, cosine: u32) -> TinySkiaFrame;

/// The frame once it has been scaled by the factor, the same in both
/// directions.
pub uninterp spec fn scaled(frame: TinySkiaFrame, factor: iced_graphics::core::Pixels) -> TinySkiaFrame;

/// The frame once it has been scaled by the factors of the vector, one for
/// each direction.
pub uninterp spec fn stretched(frame: TinySkiaFrame, factors: iced_graphics::core::Vector) -> TinySkiaFrame;

/// Whether two frames have the same size and the same transform, current and
/// saved.
pub open spec fn same_setup(a: TinySkiaFrame, b: TinySkiaFrame) -> bool {
    &&& frame_size(a) == frame_size(b)
    &&& transform(a) == transform(b)
    &&& saved(a) == saved(b)
    &&& upright(a) == upright(b)
}

/// Whether two frames have the same size, the same saved transforms and the
/// same primitives drawn on them.
pub open spec fn same_but_transform(a: TinySkiaFrame, b: TinySkiaFrame) -> bool {
    &&& frame_size(a) == frame_size(b)
    &&& saved(a) == saved(b)
    &&& items(a) == items(b)
}

/// `iced_tiny_skia::geometry::Frame::new`: the empty frame of the given size,
/// with the identity as its transform and none saved. It is not upright: the
/// rasterizer's test asks for a transform that scales or moves. It would
/// finish as an empty group clipped to the canvas.
#[verifier::external_body]
pub(crate) fn new_frame(size: iced_graphics::core::Size) -> (frame: TinySkiaFrame)
    ensures
        frame == fresh(size),
        frame_size(frame) == size,
        transform(frame) == identity(),
        saved(frame) == Seq::<Matrix>::empty(),
        !upright(frame),
        items(frame) == Seq::<Drawn>::empty(),
{
    TinySkiaFrame::new(size)
}

/// `iced_tiny_skia::geometry::Frame::width`: the width of the frame's size.
#[verifier::external_body]
pub(crate) fn frame_width(frame: &TinySkiaFrame) -> (width: iced_graphics::core::Pixels)
    ensures
        width == crate::carried::width_of(frame_size(*frame)),
{
    iced_graphics::core::Pixels(frame.width())
}

/// `iced_tiny_skia::geometry::Frame::height`: the height of the frame's size.
#[verifier::external_body]
pub(crate) fn frame_height(frame: &TinySkiaFrame) -> (height: iced_graphics::core::Pixels)
    ensures
        height == crate::carried::height_of(frame_size(*frame)),
{
    iced_graphics::core::Pixels(frame.height())
}

/// `iced_tiny_skia::geometry::Frame::size`: the size that the frame was made with.
#[verifier::external_body]
pub(crate) fn frame_extent(frame: &TinySkiaFrame) -> (size: iced_graphics::core::Size)
    ensures
        size == frame_size(*frame),
{
    frame.size()
}

/// `iced_tiny_skia::geometry::Frame::center`: the point at half the width and half
/// the height of the frame's size.
#[verifier::external_body]
pub(crate) fn frame_center(frame: &TinySkiaFrame) -> (center: iced_graphics::core::Point)
    ensures
        center == crate::carried::center_of(frame_size(*frame)),
{
    frame.center()
}

/// The fill of the one color with the given red, green and blue, each out of
/// 255, and no transparency.
pub uninterp spec fn solid_fill(red: u8, green: u8, blue: u8) -> Fill;

/// The stroke, one unit wide and not dashed, of the one color with the given
/// red, green and blue, each out of 255, and no transparency.
pub uninterp spec fn solid_stroke(red: u8, green: u8, blue: u8) -> Stroke<'static>;

/// `iced_core::Color::from_rgb8`, as a fill: the color with the given red,
/// green and blue, each out of 255, and no transparency. Its components lie
/// between zero and one, so the rasterizer can paint it.
#[verifier::external_body]
pub(crate) fn fill_of_rgb8(red: u8, green: u8, blue: u8) -> (fill: Fill)
    ensures
        fill == solid_fill(red, green, blue),
        paints(fill),
{
    Fill::from(iced_graphics::core::Color::from_rgb8(red, green, blue))
}

/// `iced_graphics::geometry::Stroke::with_color`, on the default stroke and
/// the color that `iced_core::Color::from_rgb8` gives: a stroke one unit wide
/// whose color has its components between zero and one, so the rasterizer can
/// paint it.
#[verifier::external_body]
pub(crate) fn stroke_of_rgb8(red: u8, green: u8, blue: u8) -> (stroke: Stroke<'static>)
    ensures
        stroke == solid_stroke(red, green, blue),
        outlines(stroke),
{
    Stroke::default().with_color(iced_graphics::core::Color::from_rgb8(red, green, blue))
}

/// `iced_core::Point::new` and `iced_core::Size::new`, on whole numbers as
/// `iced_core::Pixels` turns them into amounts: the corner and the size of a
/// rectangle whose corners all have finite coordinates.
#[verifier::external_body]
pub(crate) fn rectangle_of(x: u16, y: u16, width: u16, height: u16) -> (rectangle: (
    iced_graphics::core::Point,
    iced_graphics::core::Size,
))
    ensures
        rectangle.0 == whole_point(x, y),
        rectangle.1 == whole_size(width, height),
        spans(rectangle.0, rectangle.1),
{
    (
        iced_graphics::core::Point::new(
            iced_graphics::core::Pixels::from(x).0,
            iced_graphics::core::Pixels::from(y).0,
        ),
        iced_graphics::core::Size::new(
            iced_graphics::core::Pixels::from(width).0,
            iced_graphics::core::Pixels::from(height).0,
        ),
    )
}

/// `iced_tiny_skia::geometry::Frame::fill`: draws on the frame and leaves its
/// size and transforms alone. The backend gives up on a style it cannot make
/// a paint of, so the fill must be one it can paint.
#[verifier::external_body]
pub(crate) fn fill(frame: &mut TinySkiaFrame, path: &Path, fill: Fill)
    requires
        paints(fill),
    ensures
        *final(frame) == filled(*old(frame), *path, fill),
        same_setup(*final(frame), *old(frame)),
{
    frame.fill(path, fill)
}

/// `iced_tiny_skia::geometry::Frame::fill_rectangle`: draws on the frame and
/// leaves its size and transforms alone. The backend gives up on a style it
/// cannot make a paint of and, with debug assertions on, on a corner that is
/// not finite; so the fill must be one it can paint and the corners finite.
#[verifier::external_body]
pub(crate) fn fill_rectangle(
    frame: &mut TinySkiaFrame,
    top_left: iced_graphics::core::Point,
    size: iced_graphics::core::Size,
    fill: Fill,
)
    requires
        paints(fill),
        spans(top_left, size),
    ensures
        *final(frame) == rectangle_filled(*old(frame), top_left, size, fill),
        same_setup(*final(frame), *old(frame)),
{
    frame.fill_rectangle(top_left, size, fill)
}

/// `iced_tiny_skia::geometry::Frame::stroke`: draws on the frame and leaves
/// its size and transforms alone. The backend gives up on a style it cannot
/// make a paint of, so the stroke must be one it can paint.
#[verifier::external_body]
pub(crate) fn stroke(frame: &mut TinySkiaFrame, path: &Path, stroke: Stroke<'_>)
    requires
        outlines(stroke),
    ensures
        *final(frame) == stroked(*old(frame), *path, stroke),
        same_setup(*final(frame), *old(frame)),
{
    frame.stroke(path, stroke)
}

/// `iced_tiny_skia::geometry::Frame::fill_text`, on an upright frame: the text is
/// kept as text, at the place where the frame's transform puts it and at the
/// size to which that transform scales it, and the frame's size and
/// transforms stay. On a frame that is not upright the backend shapes the
/// text with the fonts of the machine and fills the outlines; the contract
/// leaves such a frame out.
#[verifier::external_body]
pub(crate) fn fill_frame_text(frame: &mut TinySkiaFrame, text: iced_graphics::geometry::Text)
    requires
        upright(*old(frame)),
    ensures
        *final(frame) == labelled(*old(frame), text),
        same_setup(*final(frame), *old(frame)),
{
    frame.fill_text(text)
}

/// `iced_tiny_skia::geometry::Frame::push_transform`: the current transform is put
/// aside, above those saved before, and stays current.
#[verifier::external_body]
pub(crate) fn push_transform(frame: &mut TinySkiaFrame)
    ensures
        *final(frame) == pushed(*old(frame)),
        saved(*final(frame)) == saved(*old(frame)).push(transform(*old(frame))),
        transform(*final(frame)) == transform(*old(frame)),
        upright(*final(frame)) == upright(*old(frame)),
        upright(*old(frame)) == upright_of(transform(*old(frame))),
        frame_size(*final(frame)) == frame_size(*old(frame)),
        items(*final(frame)) == items(*old(frame)),
{
    frame.push_transform()
}

/// `iced_tiny_skia::geometry::Frame::pop_transform`: the transform saved last
/// becomes current again and is no longer saved. With none saved the backend
/// gives up, so one must be.
#[verifier::external_body]
pub(crate) fn pop_transform(frame: &mut TinySkiaFrame)
    requires
        saved(*old(frame)).len() > 0,
    ensures
        *final(frame) == popped(*old(frame)),
        transform(*final(frame)) == saved(*old(frame)).last(),
        saved(*final(frame)) == saved(*old(frame)).drop_last(),
        upright(*final(frame)) == upright_of(transform(*final(frame))),
        frame_size(*final(frame)) == frame_size(*old(frame)),
        items(*final(frame)) == items(*old(frame)),
{
    frame.pop_transform()
}

/// `iced_tiny_skia::geometry::Frame::clip`: lays the other frame on this one with
/// its top-left corner at the point, and leaves the size and transforms of
/// this one alone. What the other frame finishes as, clipped to its own
/// canvas, is drawn above the rest, moved to the point.
#[verifier::external_body]
pub(crate) fn clip(frame: &mut TinySkiaFrame, other: TinySkiaFrame, at: iced_graphics::core::Point)
    ensures
        *final(frame) == overlaid(*old(frame), other, at),
        items(*final(frame)) == items(*old(frame)).push(
            Drawn::Transform {
                transformation: crate::carried::shift_to(at),
                content: Box::new(content(other)),
            },
        ),
        same_setup(*final(frame), *old(frame)),
{
    frame.clip(other, at)
}

/// `iced_tiny_skia::geometry::Frame::translate`: changes the current transform and
/// nothing else.
#[verifier::external_body]
pub(crate) fn translate(frame: &mut TinySkiaFrame, translation: iced_graphics::core::Vector)
    ensures
        *final(frame) == translated(*old(frame), translation),
        same_but_transform(*final(frame), *old(frame)),
        upright(*final(frame)) == upright_of(transform(*final(frame))),
{
    frame.translate(translation)
}

/// `iced_tiny_skia::geometry::Frame::rotate`, with the angle in radians: changes
/// the current transform and nothing else. The new transform rests on the
/// sine and cosine that the machine gives for the angle, which are not said;
/// given those two, the frame that comes out is fixed.
#[verifier::external_body]
pub(crate) fn rotate(frame: &mut TinySkiaFrame, angle: iced_graphics::core::Radians)
    ensures
        exists|sine: u32, cosine: u32| *final(frame) == #[trigger] turned(*old(frame), sine, cosine),
        same_but_transform(*final(frame), *old(frame)),
        upright(*final(frame)) == upright_of(transform(*final(frame))),
{
    frame.rotate(angle.0)
}

/// `iced_tiny_skia::geometry::Frame::scale`: changes the current transform and
/// nothing else.
#[verifier::external_body]
pub(crate) fn scale(frame: &mut TinySkiaFrame, factor: iced_graphics::core::Pixels)
    ensures
        *final(frame) == scaled(*old(frame), factor),
        same_but_transform(*final(frame), *old(frame)),
        upright(*final(frame)) == upright_of(transform(*final(frame))),
{
    frame.scale(factor)
}

/// `iced_tiny_skia::geometry::Frame::scale_nonuniform`: changes the current
/// transform and nothing else.
#[verifier::external_body]
pub(crate) fn scale_nonuniform(frame: &mut TinySkiaFrame, factors: iced_graphics::core::Vector)
    ensures
        *final(frame) == stretched(*old(frame), factors),
        same_but_transform(*final(frame), *old(frame)),
        upright(*final(frame)) == upright_of(transform(*final(frame))),
{
    frame.scale_nonuniform(factors)
}

/// `iced_tiny_skia::geometry::Frame::into_primitive`: the primitive that the frame
/// finishes as, which is what was drawn on it as one group clipped to its
/// canvas.
#[verifier::external_body]
pub(crate) fn into_primitive(frame: TinySkiaFrame) -> (primitive: TinySkiaPrimitive)
    ensures
        drawn(primitive) == Drawn::layer(
            items(frame),
            crate::carried::canvas_of(frame_size(frame)),
        ),
{
    TinySkiaPrimitive(frame.into_primitive())
}

} // verus!
