//! Frames, on which geometry is drawn, and the geometry they finish as.

use vstd::prelude::*;
use vstd::pervasive::unreached;
use crate::Renderer;
use crate::model::{Backend, Drawn, FrameView, GeometryView, Matrix, identity};
use crate::carried::{rectangle_position, rectangle_size, canvas_of, center_of, corner_of, extent_of, height_of, shift_to, width_of};
use crate::tiny_skia::TinySkiaPrimitive;
use iced_graphics::geometry::Path;
use iced_graphics::geometry::Fill;
use iced_graphics::geometry::Stroke;
use iced_tiny_skia::geometry::Frame as TinySkiaFrame;
use iced_wgpu::geometry::Frame as WgpuFrame;
use iced_wgpu::Primitive as WgpuPrimitive;

verus! {

/// A surface to draw on, bound to the backend of the renderer it was made for.
pub enum Frame {
    TinySkia(TinySkiaFrame),
    Wgpu(WgpuFrame),
}

/// What a frame finishes as. Only a renderer of the same backend can draw it.
pub enum Geometry {
    TinySkia(TinySkiaPrimitive),
    Wgpu(WgpuPrimitive),
}

impl View for Geometry {
    type V = GeometryView;

    open spec fn view(&self) -> GeometryView {
        match *self {
            Geometry::TinySkia(primitive) => GeometryView {
                backend: Backend::TinySkia,
                primitive: crate::tiny_skia::drawn(primitive),
            },
            Geometry::Wgpu(primitive) => GeometryView {
                backend: Backend::Wgpu,
                primitive: crate::wgpu::drawn(primitive),
            },
        }
    }
}

impl Geometry {
    /// The backend that produced the geometry.
    pub fn backend(&self) -> (backend: Backend)
        ensures
            backend == self@.backend,
    {
        match self {
            Geometry::TinySkia(_) => Backend::TinySkia,
            Geometry::Wgpu(_) => Backend::Wgpu,
        }
    }
}

impl View for Frame {
    type V = FrameView;

    open spec fn view(&self) -> FrameView {
        match *self {
            Frame::TinySkia(frame) => FrameView {
                backend: Backend::TinySkia,
                size: crate::tiny_skia::frame_size(frame),
                transform: crate::tiny_skia::transform(frame),
                saved: crate::tiny_skia::saved(frame),
                upright: crate::tiny_skia::upright(frame),
                content: crate::tiny_skia::content(frame),
            },
            Frame::Wgpu(frame) => FrameView {
                backend: Backend::Wgpu,
                size: crate::wgpu::frame_size(frame),
                transform: crate::wgpu::transform(frame),
                saved: crate::wgpu::saved(frame),
                upright: crate::wgpu::upright(frame),
                content: crate::wgpu::content(frame),
            },
        }
    }
}

impl FrameView {
    /// A frame of the given backend and size on which nothing has been drawn
    /// or transformed yet. Of the two backends only the GPU backend takes
    /// such a frame for upright.
    pub open spec fn fresh(backend: Backend, size: iced_graphics::core::Size) -> FrameView {
        FrameView {
            backend,
            size,
            transform: identity(),
            saved: Seq::<Matrix>::empty(),
            upright: backend == Backend::Wgpu,
            content: match backend {
                Backend::TinySkia => Drawn::layer(Seq::<Drawn>::empty(), canvas_of(size)),
                Backend::Wgpu => Drawn::Group { primitives: Seq::<Drawn>::empty() },
            },
        }
    }

    /// The frame with its current transform put aside on top of the saved
    /// ones.
    pub open spec fn pushed(self) -> FrameView {
        FrameView { saved: self.saved.push(self.transform), ..self }
    }

    /// The frame with other content.
    pub open spec fn drawn(self, content: Drawn) -> FrameView {
        FrameView { content, ..self }
    }

    /// The frame with another current transform, upright or not.
    pub open spec fn moved(self, transform: Matrix, upright: bool) -> FrameView {
        FrameView { transform, upright, ..self }
    }
}

/// A fill of one color, given by its red, green and blue out of 255, without
/// transparency. Every frame can draw with it.
pub fn solid(red: u8, green: u8, blue: u8) -> (fill: Fill)
    ensures
        fill == crate::tiny_skia::solid_fill(red, green, blue),
        crate::tiny_skia::paints(fill),
{
    crate::tiny_skia::fill_of_rgb8(red, green, blue)
}

/// A stroke one unit wide of one color, given by its red, green and blue out
/// of 255, without transparency. Every frame of the software rasterizer can
/// draw with it.
pub fn outline(red: u8, green: u8, blue: u8) -> (stroke: Stroke<'static>)
    ensures
        stroke == crate::tiny_skia::solid_stroke(red, green, blue),
        crate::tiny_skia::outlines(stroke),
{
    crate::tiny_skia::stroke_of_rgb8(red, green, blue)
}

/// The top-left corner and the size of a rectangle, given in whole units.
/// Every frame can fill it.
pub fn cell(x: u16, y: u16, width: u16, height: u16) -> (rectangle: (
    iced_graphics::core::Point,
    iced_graphics::core::Size,
))
    ensures
        rectangle.0 == crate::tiny_skia::whole_point(x, y),
        rectangle.1 == crate::tiny_skia::whole_size(width, height),
        crate::tiny_skia::spans(rectangle.0, rectangle.1),
{
    crate::tiny_skia::rectangle_of(x, y, width, height)
}

impl Frame {
    /// The empty frame of the given backend and size.
    pub open spec fn fresh(backend: Backend, size: iced_graphics::core::Size) -> Frame {
        match backend {
            Backend::TinySkia => Frame::TinySkia(crate::tiny_skia::fresh(size)),
            Backend::Wgpu => Frame::Wgpu(crate::wgpu::fresh(size)),
        }
    }

    /// Whether the backend of the frame can fill the path: the software
    /// rasterizer where it can make a paint of the fill, the GPU backend where
    /// its tessellator does not fail.
    pub open spec fn can_fill(self, path: Path, fill: Fill) -> bool {
        match self {
            Frame::TinySkia(_) => crate::tiny_skia::paints(fill),
            Frame::Wgpu(frame) => crate::wgpu::filled(frame, path, fill).is_some(),
        }
    }

    /// The frame once the path has been filled on it.
    pub open spec fn filled(self, path: Path, fill: Fill) -> Frame
        recommends
            self.can_fill(path, fill),
    {
        match self {
            Frame::TinySkia(frame) => Frame::TinySkia(crate::tiny_skia::filled(frame, path, fill)),
            Frame::Wgpu(frame) => Frame::Wgpu(crate::wgpu::filled(frame, path, fill).unwrap()),
        }
    }

    /// Whether the backend of the frame can fill the rectangle with the
    /// fill: the software rasterizer where it can make a paint of the fill and
    /// the corners are finite, the GPU backend always.
    pub open spec fn can_fill_rectangle(
        self,
        top_left: iced_graphics::core::Point,
        size: iced_graphics::core::Size,
        fill: Fill,
    ) -> bool {
        match self {
            Frame::TinySkia(_) => crate::tiny_skia::paints(fill) && crate::tiny_skia::spans(
                top_left,
                size,
            ),
            Frame::Wgpu(_) => true,
        }
    }

    /// The frame once the rectangle has been filled on it.
    pub open spec fn rectangle_filled(
        self,
        top_left: iced_graphics::core::Point,
        size: iced_graphics::core::Size,
        fill: Fill,
    ) -> Frame {
        match self {
            Frame::TinySkia(frame) => Frame::TinySkia(
                crate::tiny_skia::rectangle_filled(frame, top_left, size, fill),
            ),
            Frame::Wgpu(frame) => Frame::Wgpu(
                crate::wgpu::rectangle_filled(frame, top_left, size, fill),
            ),
        }
    }

    /// Whether the backend of the frame can stroke the path: the software
    /// rasterizer where it can make a paint of the stroke, the GPU backend
    /// where its tessellator does not fail.
    pub open spec fn can_stroke(self, path: Path, stroke: Stroke<'static>) -> bool {
        match self {
            Frame::TinySkia(_) => crate::tiny_skia::outlines(stroke),
            Frame::Wgpu(frame) => crate::wgpu::stroked(frame, path, stroke).is_some(),
        }
    }

    /// The frame once the path has been stroked on it.
    pub open spec fn stroked(self, path: Path, stroke: Stroke<'static>) -> Frame
        recommends
            self.can_stroke(path, stroke),
    {
        match self {
            Frame::TinySkia(frame) => Frame::TinySkia(crate::tiny_skia::stroked(frame, path, stroke)),
            Frame::Wgpu(frame) => Frame::Wgpu(crate::wgpu::stroked(frame, path, stroke).unwrap()),
        }
    }

    /// The frame, upright, once the text has been put on it.
    pub open spec fn labelled(self, text: iced_graphics::geometry::Text) -> Frame {
        match self {
            Frame::TinySkia(frame) => Frame::TinySkia(crate::tiny_skia::labelled(frame, text)),
            Frame::Wgpu(frame) => Frame::Wgpu(crate::wgpu::labelled(frame, text)),
        }
    }

    /// The frame once the other frame, of the same backend, has been laid on
    /// it with its top-left corner at the point.
    pub open spec fn overlaid(self, other: Frame, at: iced_graphics::core::Point) -> Frame
        recommends
            self@.backend == other@.backend,
    {
        match (self, other) {
            (Frame::TinySkia(frame), Frame::TinySkia(other)) => Frame::TinySkia(
                crate::tiny_skia::overlaid(frame, other, at),
            ),
            (Frame::Wgpu(frame), Frame::Wgpu(other)) => Frame::Wgpu(
                crate::wgpu::overlaid(frame, other, at),
            ),
            _ => self,
        }
    }

    /// The primitives drawn so far on a frame of the software rasterizer,
    /// lowest first. A frame of the GPU backend keeps what is drawn on it in
    /// another form, not said here.
    pub open spec fn items(self) -> Seq<Drawn>
        recommends
            self@.backend == Backend::TinySkia,
    {
        match self {
            Frame::TinySkia(frame) => crate::tiny_skia::items(frame),
            Frame::Wgpu(_) => Seq::<Drawn>::empty(),
        }
    }

    /// The frame once its current transform has been put aside.
    pub open spec fn pushed(self) -> Frame {
        match self {
            Frame::TinySkia(frame) => Frame::TinySkia(crate::tiny_skia::pushed(frame)),
            Frame::Wgpu(frame) => Frame::Wgpu(crate::wgpu::pushed(frame)),
        }
    }

    /// The frame once the transform it saved last has been made current
    /// again.
    pub open spec fn popped(self) -> Frame
        recommends
            self@.saved.len() > 0,
    {
        match self {
            Frame::TinySkia(frame) => Frame::TinySkia(crate::tiny_skia::popped(frame)),
            Frame::Wgpu(frame) => Frame::Wgpu(crate::wgpu::popped(frame)),
        }
    }

    /// The frame once it has been moved by the vector.
    pub open spec fn translated(self, translation: iced_graphics::core::Vector) -> Frame {
        match self {
            Frame::TinySkia(frame) => Frame::TinySkia(crate::tiny_skia::translated(frame, translation)),
            Frame::Wgpu(frame) => Frame::Wgpu(crate::wgpu::translated(frame, translation)),
        }
    }

    /// The frame once it has been turned by an angle of which the machine
    /// gave the sine and the cosine with the given bits.
    pub open spec fn turned(self, sine: u32, cosine: u32) -> Frame {
        match self {
            Frame::TinySkia(frame) => Frame::TinySkia(crate::tiny_skia::turned(frame, sine, cosine)),
            Frame::Wgpu(frame) => Frame::Wgpu(crate::wgpu::turned(frame, sine, cosine)),
        }
    }

    /// The frame once it has been scaled by the factor.
    pub open spec fn scaled(self, factor: iced_graphics::core::Pixels) -> Frame {
        match self {
            Frame::TinySkia(frame) => Frame::TinySkia(crate::tiny_skia::scaled(frame, factor)),
            Frame::Wgpu(frame) => Frame::Wgpu(crate::wgpu::scaled(frame, factor)),
        }
    }

    /// The frame once it has been scaled by the factors of the vector.
    pub open spec fn stretched(self, factors: iced_graphics::core::Vector) -> Frame {
        match self {
            Frame::TinySkia(frame) => Frame::TinySkia(crate::tiny_skia::stretched(frame, factors)),
            Frame::Wgpu(frame) => Frame::Wgpu(crate::wgpu::stretched(frame, factors)),
        }
    }

    /// An empty frame of the given size for the backend of the renderer.
    pub fn new(renderer: &Renderer, size: iced_graphics::core::Size) -> (frame: Frame)
        ensures
            frame == Frame::fresh(renderer@.backend, size),
            frame@ == FrameView::fresh(renderer@.backend, size),
    {
        match renderer {
            Renderer::TinySkia(_, _) => Frame::TinySkia(crate::tiny_skia::new_frame(size)),
            Renderer::Wgpu(_, _) => Frame::Wgpu(crate::wgpu::new_frame(size)),
        }
    }

    /// The backend that the frame draws with.
    pub fn backend(&self) -> (backend: Backend)
        ensures
            backend == self@.backend,
    {
        match self {
            Frame::TinySkia(_) => Backend::TinySkia,
            Frame::Wgpu(_) => Backend::Wgpu,
        }
    }

    /// The width of the frame.
    pub fn width(&self) -> (width: iced_graphics::core::Pixels)
        ensures
            width == width_of(self@.size),
    {
        match self {
            Frame::TinySkia(frame) => crate::tiny_skia::frame_width(frame),
            Frame::Wgpu(frame) => crate::wgpu::frame_width(frame),
        }
    }

    /// The height of the frame.
    pub fn height(&self) -> (height: iced_graphics::core::Pixels)
        ensures
            height == height_of(self@.size),
    {
        match self {
            Frame::TinySkia(frame) => crate::tiny_skia::frame_height(frame),
            Frame::Wgpu(frame) => crate::wgpu::frame_height(frame),
        }
    }

    /// The width and height of the frame.
    pub fn size(&self) -> (size: iced_graphics::core::Size)
        ensures
            size == self@.size,
    {
        match self {
            Frame::TinySkia(frame) => crate::tiny_skia::frame_extent(frame),
            Frame::Wgpu(frame) => crate::wgpu::frame_extent(frame),
        }
    }

    /// The point in the middle of the frame.
    pub fn center(&self) -> (center: iced_graphics::core::Point)
        ensures
            center == center_of(self@.size),
    {
        match self {
            Frame::TinySkia(frame) => crate::tiny_skia::frame_center(frame),
            Frame::Wgpu(frame) => crate::wgpu::frame_center(frame),
        }
    }

    /// Fills the inside of the path. The backend must be able to: see
    /// `can_fill`.
    pub fn fill(&mut self, path: &Path, fill: Fill)
        requires
            old(self).can_fill(*path, fill),
        ensures
            *final(self) == old(self).filled(*path, fill),
            final(self)@ == old(self)@.drawn(final(self)@.content),
    {
        match self {
            Frame::TinySkia(frame) => crate::tiny_skia::fill(frame, path, fill),
            Frame::Wgpu(frame) => crate::wgpu::fill(frame, path, fill),
        }
    }

    /// Fills the axis-aligned rectangle with the given top-left corner and
    /// size. The backend must be able to: see `can_fill_rectangle`.
    pub fn fill_rectangle(
        &mut self,
        top_left: iced_graphics::core::Point,
        size: iced_graphics::core::Size,
        fill: Fill,
    )
        requires
            old(self).can_fill_rectangle(top_left, size, fill),
        ensures
            *final(self) == old(self).rectangle_filled(top_left, size, fill),
            final(self)@ == old(self)@.drawn(final(self)@.content),
    {
        match self {
            Frame::TinySkia(frame) => crate::tiny_skia::fill_rectangle(frame, top_left, size, fill),
            Frame::Wgpu(frame) => crate::wgpu::fill_rectangle(frame, top_left, size, fill),
        }
    }

    /// Draws the outline of the path. The backend must be able to: see
    /// `can_stroke`.
    pub fn stroke<'a>(&mut self, path: &Path, stroke: Stroke<'a>)
        requires
            old(self).can_stroke(*path, stroke),
        ensures
            *final(self) == old(self).stroked(*path, stroke),
            final(self)@ == old(self)@.drawn(final(self)@.content),
    {
        match self {
            Frame::TinySkia(frame) => crate::tiny_skia::stroke(frame, path, stroke),
            Frame::Wgpu(frame) => crate::wgpu::stroke(frame, path, stroke),
        }
    }

    /// Puts the characters of the text on the frame, which must be upright:
    /// under such a transform the backend keeps the text as text. A frame of
    /// the GPU backend is upright when it is made, one of the software
    /// rasterizer is not; drawing leaves a frame as upright as it was, and so
    /// does `with_save`.
    ///
    /// The frame's transform moves the place where the text starts; text put
    /// on a frame this way ends up above everything else on the frame,
    /// whatever was drawn after it. So this suits overlays, not text that
    /// belongs inside a scene.
    pub fn fill_text(&mut self, text: iced_graphics::geometry::Text)
        requires
            old(self)@.upright,
        ensures
            *final(self) == old(self).labelled(text),
            final(self)@ == old(self)@.drawn(final(self)@.content),
    {
        match self {
            Frame::TinySkia(frame) => crate::tiny_skia::fill_frame_text(frame, text),
            Frame::Wgpu(frame) => crate::wgpu::fill_frame_text(frame, text),
        }
    }

    /// Runs `f` on the frame and restores afterwards the transform that was
    /// current before: whatever `f` does to the transform stays inside `f`.
    ///
    /// `f` gets the frame with its transform put aside. It must leave the
    /// frame on its backend and with the same transforms put aside, as every
    /// method of a frame does. The transform is restored when `f` returns;
    /// where `f` unwinds, it is not.
    pub fn with_save<F: FnOnce(&mut Frame)>(&mut self, f: F)
        requires
            forall|inner: &mut Frame|
                *inner == old(self).pushed() && inner@ == old(self)@.pushed()
                    ==> #[trigger] f.requires((inner,)),
            forall|inner: &mut Frame|
                *inner == old(self).pushed() && inner@ == old(self)@.pushed()
                    && #[trigger] f.ensures((inner,), ()) ==> {
                    &&& final(inner)@.backend == inner@.backend
                    &&& final(inner)@.saved == inner@.saved
                },
        ensures
            final(self)@.backend == old(self)@.backend,
            final(self)@.transform == old(self)@.transform,
            final(self)@.saved == old(self)@.saved,
            final(self)@.upright == old(self)@.upright,
            exists|inner: &mut Frame|
                {
                    &&& *inner == old(self).pushed()
                    &&& inner@ == old(self)@.pushed()
                    &&& #[trigger] f.ensures((inner,), ())
                    &&& *final(self) == final(inner).popped()
                    &&& final(self)@.size == final(inner)@.size
                    &&& final(self)@.content == final(inner)@.content
                },
    {
        match self {
            Frame::TinySkia(frame) => crate::tiny_skia::push_transform(frame),
            Frame::Wgpu(frame) => crate::wgpu::push_transform(frame),
        }
        f(self);
        proof {
            assert(old(self)@.pushed().saved.len() > 0);
            assert(old(self)@.pushed().saved.last() == old(self)@.transform);
            assert(old(self)@.pushed().saved.drop_last() =~= old(self)@.saved);
        }
        match self {
            Frame::TinySkia(frame) => crate::tiny_skia::pop_transform(frame),
            Frame::Wgpu(frame) => crate::wgpu::pop_transform(frame),
        }
    }

    /// Runs `f` on an empty frame of the size of `region` and lays what `f`
    /// drew on this frame, with its top-left corner at that of `region`. What
    /// `f` draws is in the coordinates of the region, and what `f` does to the
    /// transform stays inside `f`.
    ///
    /// On the software rasterizer what `f` drew arrives as one primitive above
    /// the rest: the sub-frame's content, clipped to the size of the region,
    /// moved to the region's corner.
    ///
    /// `f` must leave its frame on the backend it was given. Where `f`
    /// unwinds, nothing of what it drew reaches this frame.
    pub fn with_clip<F: FnOnce(&mut Frame)>(&mut self, region: iced_graphics::core::Rectangle, f: F)
        requires
            forall|inner: &mut Frame|
                *inner == Frame::fresh(old(self)@.backend, extent_of(region)) && inner@
                    == FrameView::fresh(old(self)@.backend, extent_of(region))
                    ==> #[trigger] f.requires((inner,)),
            forall|inner: &mut Frame|
                *inner == Frame::fresh(old(self)@.backend, extent_of(region)) && inner@
                    == FrameView::fresh(old(self)@.backend, extent_of(region))
                    && #[trigger] f.ensures((inner,), ()) ==> final(inner)@.backend
                    == inner@.backend,
        ensures
            exists|inner: &mut Frame|
                {
                    &&& *inner == Frame::fresh(old(self)@.backend, extent_of(region))
                    &&& inner@ == FrameView::fresh(old(self)@.backend, extent_of(region))
                    &&& #[trigger] f.ensures((inner,), ())
                    &&& *final(self) == old(self).overlaid(*final(inner), corner_of(region))
                    &&& final(self)@ == old(self)@.drawn(final(self)@.content)
                    &&& old(self)@.backend == Backend::TinySkia ==> final(self).items() == old(
                        self,
                    ).items().push(
                        Drawn::Transform {
                            transformation: shift_to(corner_of(region)),
                            content: Box::new(final(inner)@.content),
                        },
                    )
                },
    {
        let size = rectangle_size(&region);
        let mut frame = match self {
            Frame::TinySkia(_) => Frame::TinySkia(crate::tiny_skia::new_frame(size)),
            Frame::Wgpu(_) => Frame::Wgpu(crate::wgpu::new_frame(size)),
        };
        f(&mut frame);
        let origin = rectangle_position(&region);
        match (self, frame) {
            (Frame::TinySkia(target), Frame::TinySkia(frame)) => crate::tiny_skia::clip(
                target,
                frame,
                origin,
            ),
            (Frame::Wgpu(target), Frame::Wgpu(frame)) => crate::wgpu::clip(target, frame, origin),
            _ => unreached(),
        }
    }

    /// Moves the current transform by the vector.
    pub fn translate(&mut self, translation: iced_graphics::core::Vector)
        ensures
            *final(self) == old(self).translated(translation),
            final(self)@ == old(self)@.moved(final(self)@.transform, final(self)@.upright),
    {
        match self {
            Frame::TinySkia(frame) => crate::tiny_skia::translate(frame, translation),
            Frame::Wgpu(frame) => crate::wgpu::translate(frame, translation),
        }
    }

    /// Turns the current transform by the angle. The frame that comes out
    /// is fixed by the sine and cosine that the machine gives for the angle;
    /// which these are is not said. Nothing but the transform changes.
    pub fn rotate(&mut self, angle: iced_graphics::core::Radians)
        ensures
            exists|sine: u32, cosine: u32| *final(self) == #[trigger] old(self).turned(sine, cosine),
            final(self)@ == old(self)@.moved(final(self)@.transform, final(self)@.upright),
    {
        match self {
            Frame::TinySkia(frame) => {
                crate::tiny_skia::rotate(frame, angle);
                proof {
                    let (sine, cosine) = choose|sine: u32, cosine: u32|
                        *frame == #[trigger] crate::tiny_skia::turned(
                            old(self)->TinySkia_0,
                            sine,
                            cosine,
                        );
                    assert(*self == old(self).turned(sine, cosine));
                }
            },
            Frame::Wgpu(frame) => {
                crate::wgpu::rotate(frame, angle);
                proof {
                    let (sine, cosine) = choose|sine: u32, cosine: u32|
                        *frame == #[trigger] crate::wgpu::turned(old(self)->Wgpu_0, sine, cosine);
                    assert(*self == old(self).turned(sine, cosine));
                }
            },
        }
    }

    /// Scales the current transform by the factor, the same in both
    /// directions.
    pub fn scale(&mut self, factor: iced_graphics::core::Pixels)
        ensures
            *final(self) == old(self).scaled(factor),
            final(self)@ == old(self)@.moved(final(self)@.transform, final(self)@.upright),
    {
        match self {
            Frame::TinySkia(frame) => crate::tiny_skia::scale(frame, factor),
            Frame::Wgpu(frame) => crate::wgpu::scale(frame, factor),
        }
    }

    /// Scales the current transform by the factors of the vector, one for
    /// each direction.
    pub fn scale_nonuniform(&mut self, factors: iced_graphics::core::Vector)
        ensures
            *final(self) == old(self).stretched(factors),
            final(self)@ == old(self)@.moved(final(self)@.transform, final(self)@.upright),
    {
        match self {
            Frame::TinySkia(frame) => crate::tiny_skia::scale_nonuniform(frame, factors),
            Frame::Wgpu(frame) => crate::wgpu::scale_nonuniform(frame, factors),
        }
    }

    /// Finishes the frame: hands out what was drawn on it as geometry of the
    /// frame's backend.
    pub fn into_geometry(self) -> (geometry: Geometry)
        ensures
            geometry@ == (GeometryView { backend: self@.backend, primitive: self@.content }),
    {
        match self {
            Frame::TinySkia(frame) => Geometry::TinySkia(crate::tiny_skia::into_primitive(frame)),
            Frame::Wgpu(frame) => Geometry::Wgpu(crate::wgpu::into_primitive(frame)),
        }
    }
}

} // verus!
