//! The drawing toolkit's own value types, as this library carries them.
//!
//! The library never looks inside any of these: it receives them from the
//! caller and hands them to the active backend unchanged. Each is declared
//! opaque, so that two of them are equal in a contract only where they are the
//! same value.

use vstd::prelude::*;

verus! {

/// `iced_core::Size`: a width and a height.
#[verifier::external_type_specification]
#[verifier::external_body]
#[verifier::reject_recursive_types(T)]
pub struct ExSize<T>(iced_graphics::core::Size<T>);

/// `iced_core::Point`: a position in the plane.
#[verifier::external_type_specification]
#[verifier::external_body]
#[verifier::reject_recursive_types(T)]
pub struct ExPoint<T>(iced_graphics::core::Point<T>);

/// `iced_core::Vector`: a displacement in the plane.
#[verifier::external_type_specification]
#[verifier::external_body]
#[verifier::reject_recursive_types(T)]
pub struct ExVector<T>(iced_graphics::core::Vector<T>);

/// `iced_core::Rectangle`: an axis-aligned rectangle.
#[verifier::external_type_specification]
#[verifier::external_body]
#[verifier::reject_recursive_types(T)]
pub struct ExRectangle<T>(iced_graphics::core::Rectangle<T>);

/// `iced_core::Color`.
#[verifier::external_type_specification]
#[verifier::external_body]
pub struct ExColor(iced_graphics::core::Color);

/// `iced_core::Font`.
#[verifier::external_type_specification]
#[verifier::external_body]
pub struct ExFont(iced_graphics::core::Font);

/// `iced_core::Pixels`: an amount of logical pixels.
#[verifier::external_type_specification]
#[verifier::external_body]
pub struct ExPixels(iced_graphics::core::Pixels);

/// `iced_core::Radians`: an angle.
#[verifier::external_type_specification]
#[verifier::external_body]
pub struct ExRadians(iced_graphics::core::Radians);

/// `iced_core::Background`: a solid color or a gradient.
#[verifier::external_type_specification]
#[verifier::external_body]
pub struct ExBackground(iced_graphics::core::Background);

/// `iced_core::Transformation`: a transformation of a whole layer.
#[verifier::external_type_specification]
#[verifier::external_body]
pub struct ExTransformation(iced_graphics::core::Transformation);

/// `iced_core::renderer::Quad`: a rectangle with its border and shadow.
#[verifier::external_type_specification]
#[verifier::external_body]
pub struct ExQuad(iced_graphics::core::renderer::Quad);

/// `iced_core::text::Text`: a piece of text with its layout settings.
#[verifier::external_type_specification]
#[verifier::external_body]
#[verifier::reject_recursive_types(F)]
pub struct ExText<'a, F>(iced_graphics::core::text::Text<'a, F>);

/// `iced_core::image::Handle`: a raster image.
#[verifier::external_type_specification]
#[verifier::external_body]
pub struct ExImageHandle(iced_graphics::core::image::Handle);

/// `iced_core::image::FilterMethod`: how a raster image is scaled.
#[verifier::external_type_specification]
#[verifier::external_body]
pub struct ExFilterMethod(iced_graphics::core::image::FilterMethod);

/// `iced_core::svg::Handle`: a vector image.
#[verifier::external_type_specification]
#[verifier::external_body]
pub struct ExSvgHandle(iced_graphics::core::svg::Handle);

/// `iced_graphics::text::Paragraph`: a laid-out paragraph.
#[verifier::external_type_specification]
#[verifier::external_body]
pub struct ExParagraph(iced_graphics::text::Paragraph);

/// `iced_graphics::text::Editor`: the state of a text editor.
#[verifier::external_type_specification]
#[verifier::external_body]
pub struct ExEditor(iced_graphics::text::Editor);

/// `iced_graphics::Mesh`: a mesh of triangles.
#[verifier::external_type_specification]
#[verifier::external_body]
pub struct ExMesh(iced_graphics::Mesh);

/// `iced_graphics::geometry::Path`: a path of lines and curves.
#[verifier::external_type_specification]
#[verifier::external_body]
pub struct ExPath(iced_graphics::geometry::Path);

/// `iced_graphics::geometry::Fill`: how the inside of a path is painted.
#[verifier::external_type_specification]
#[verifier::external_body]
pub struct ExFill(iced_graphics::geometry::Fill);

/// `iced_graphics::geometry::Stroke`: how the outline of a path is painted.
#[verifier::external_type_specification]
#[verifier::external_body]
pub struct ExStroke<'a>(iced_graphics::geometry::Stroke<'a>);

/// `iced_graphics::geometry::Text`: text placed on a frame.
#[verifier::external_type_specification]
#[verifier::external_body]
pub struct ExGeometryText(iced_graphics::geometry::Text);

/// `iced_wgpu::primitive::Pipeline`: a primitive that brings its own GPU pipeline.
#[verifier::external_type_specification]
#[verifier::external_body]
pub struct ExPipeline(iced_wgpu::primitive::Pipeline);

/// The width of a size, as an amount of pixels.
pub uninterp spec fn width_of(size: iced_graphics::core::Size) -> iced_graphics::core::Pixels;

/// The height of a size, as an amount of pixels.
pub uninterp spec fn height_of(size: iced_graphics::core::Size) -> iced_graphics::core::Pixels;

/// The point in the middle of a canvas of the given size whose top-left corner
/// is the origin: half the width to the right, half the height down.
pub uninterp spec fn center_of(size: iced_graphics::core::Size) -> iced_graphics::core::Point;

/// The rectangle that a canvas of the given size covers: its top-left corner
/// at the origin, its width and height those of the size.
pub uninterp spec fn canvas_of(size: iced_graphics::core::Size) -> iced_graphics::core::Rectangle;

/// The transformation that moves the origin to the point.
pub uninterp spec fn shift_to(at: iced_graphics::core::Point) -> iced_graphics::core::Transformation;

/// The width and height of a rectangle.
pub uninterp spec fn extent_of(rectangle: iced_graphics::core::Rectangle) -> iced_graphics::core::Size;

/// The top-left corner of a rectangle.
pub uninterp spec fn corner_of(rectangle: iced_graphics::core::Rectangle) -> iced_graphics::core::Point;

/// `iced_core::Rectangle::size`: the width and height of the rectangle.
#[verifier::external_body]
pub(crate) fn rectangle_size(rectangle: &iced_graphics::core::Rectangle) -> (size:
    iced_graphics::core::Size)
    ensures
        size == extent_of(*rectangle),
{
    rectangle.size()
}

/// `iced_core::Rectangle::position`: the top-left corner of the rectangle.
#[verifier::external_body]
pub(crate) fn rectangle_position(rectangle: &iced_graphics::core::Rectangle) -> (corner:
    iced_graphics::core::Point)
    ensures
        corner == corner_of(*rectangle),
{
    rectangle.position()
}

} // verus!
