//! What holds of the model whatever is drawn: facts that relate several
//! operations, proved once from the definitions of `crate::model`.

use vstd::prelude::*;
use crate::all_of;
use crate::model::{Backend, FrameView, Matrix};
use crate::geometry::Geometry;

verus! {

impl FrameView {
    /// The frame with the transform saved last made current again and no
    /// longer saved, upright or not as that transform is.
    pub open spec fn popped(self, upright: bool) -> FrameView
        recommends
            self.saved.len() > 0,
    {
        FrameView { transform: self.saved.last(), saved: self.saved.drop_last(), upright, ..self }
    }

    /// The frame after its current transform has been replaced by each of
    /// `transforms` in turn, each with the word whether it is upright.
    pub open spec fn moved_through(self, transforms: Seq<(Matrix, bool)>) -> FrameView
        decreases transforms.len(),
    {
        if transforms.len() == 0 {
            self
        } else {
            self.moved_through(transforms.drop_last()).moved(
                transforms.last().0,
                transforms.last().1,
            )
        }
    }
}

/// Changing the current transform, however often, changes nothing else of a
/// frame: neither its backend, its size, what it has saved nor what is drawn
/// on it.
pub proof fn law_transforms_touch_only_the_transform(
    view: FrameView,
    transforms: Seq<(Matrix, bool)>,
)
    ensures
        view.moved_through(transforms) == view.moved(
            view.moved_through(transforms).transform,
            view.moved_through(transforms).upright,
        ),
    decreases transforms.len(),
{
    if transforms.len() > 0 {
        law_transforms_touch_only_the_transform(view, transforms.drop_last());
    }
}

/// Saving the transform, changing it in any way and however often, and
/// restoring it gives back the frame as it was: the same transform and the
/// same transforms saved.
pub proof fn law_restore_undoes_save(view: FrameView, transforms: Seq<(Matrix, bool)>)
    ensures
        view.pushed().moved_through(transforms).popped(view.upright) == view,
{
    law_transforms_touch_only_the_transform(view.pushed(), transforms);
    assert(view.saved.push(view.transform).drop_last() =~= view.saved);
}

/// A frame made for a backend and size has that size, whichever the backend.
pub proof fn law_fresh_frame_has_its_size(backend: Backend, size: iced_graphics::core::Size)
    ensures
        FrameView::fresh(backend, size).size == size,
        FrameView::fresh(backend, size).backend == backend,
        FrameView::fresh(backend, size).saved.len() == 0,
{
}

/// Geometry is accepted by the renderers of the backend that produced it and
/// by no other: of two pieces from different backends, no renderer accepts
/// both.
pub proof fn law_geometry_goes_to_one_backend(first: Geometry, second: Geometry, backend: Backend)
    requires
        first@.backend != second@.backend,
    ensures
        !all_of(seq![first, second], backend),
        all_of(seq![first], first@.backend),
{
    let layers = seq![first, second];
    assert(layers[0] == first);
    assert(layers[1] == second);
    assert(seq![first][0] == first);
}

} // verus!
