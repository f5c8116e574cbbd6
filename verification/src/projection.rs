//! The plain-value logic of the projection of the camera images onto the overlay:
//! the shape of the side by side source image, the viewport of each eye in the
//! output, and when the transforms of the eyes have to be written to the GPU again.

use vstd::prelude::*;
use vstd::std_specs::cmp::PartialEqSpec;

verus! {

/// The source image is not two square camera images side by side.
#[derive(Debug, Clone, Copy, PartialEq, Eq, Structural)]
pub struct NotSquare {
    pub width: u32,
    pub height: u32,
}

/// Width and height of a source image of the given extent, if it holds two square
/// images side by side: its width is twice its height.
pub fn source_extent(extent: [u32; 3]) -> (r: Result<[u32; 2], NotSquare>)
    ensures
        extent[0] == 2 * extent[1] ==> r == Ok::<[u32; 2], NotSquare>([extent[0], extent[1]]),
        extent[0] != 2 * extent[1] ==> r == Err::<[u32; 2], NotSquare>(
            NotSquare { width: extent[0], height: extent[1] },
        ),
{
    let w = extent[0];
    let h = extent[1];
    if (w as u64) != 2 * (h as u64) {
        return Err(NotSquare { width: w, height: h });
    }
    Ok([w, h])
}

/// Region of the output image that one eye is drawn to: a column of the full height.
#[derive(Debug, Clone, Copy, PartialEq, Eq, Structural)]
pub struct EyeViewport {
    pub offset_x: u32,
    pub width: u32,
    pub height: u32,
}

/// The viewport of `eye` (0 for the left, 1 for the right) in an output image of the
/// given width and height: the left and right halves.
pub open spec fn eye_viewport_spec(extent: [u32; 2], eye: int) -> EyeViewport {
    EyeViewport {
        offset_x: if eye == 0 { 0 } else { extent[0] / 2 },
        width: extent[0] / 2,
        height: extent[1],
    }
}

/// The viewport that `eye` (0 for the left, 1 for the right) is drawn to in an output
/// image of the given width and height.
pub fn eye_viewport(extent: [u32; 2], eye: usize) -> (v: EyeViewport)
    requires
        eye < 2,
    ensures
        v == eye_viewport_spec(extent, eye as int),
        v.offset_x == (if eye == 0 { 0 } else { extent[0] / 2 }),
        v.width == extent[0] / 2,
        v.height == extent[1],
{
    let half = extent[0] / 2;
    EyeViewport { offset_x: if eye == 0 { 0 } else { half }, width: half, height: extent[1] }
}

/// The two eyes are drawn side by side: the right viewport starts where the left one
/// ends, both have the full height, and together they lie within the image.
pub proof fn lemma_eye_viewports_side_by_side(extent: [u32; 2])
    ensures
        ({
            let left = eye_viewport_spec(extent, 0);
            let right = eye_viewport_spec(extent, 1);
            &&& left.offset_x == 0
            &&& left.offset_x + left.width == right.offset_x
            &&& right.offset_x + right.width <= extent[0]
            &&& left.width == right.width
            &&& left.height == extent[1] && right.height == extent[1]
        }),
{
}

/// A value to be written to the GPU, with whether it changed since it was last
/// written: it is written only when it did.
#[derive(Debug)]
pub struct ChangeTracked<T> {
    value: T,
    changed: bool,
}

impl<T: PartialEq> ChangeTracked<T> {
    /// The value last set.
    pub closed spec fn saved(&self) -> T {
        self.value
    }

    /// Whether the value has to be written.
    pub closed spec fn changed(&self) -> bool {
        self.changed
    }

    /// A new value, not written yet.
    pub fn new(value: T) -> (r: Self)
        ensures
            r.saved() == value,
            r.changed(),
    {
        ChangeTracked { value, changed: true }
    }

    /// The value last set.
    pub fn value(&self) -> (r: &T)
        ensures
            *r == self.saved(),
    {
        &self.value
    }

    /// Set the value. One equal to the saved value, by `==`, changes nothing; another
    /// is saved and has to be written.
    pub fn set(&mut self, value: T)
        ensures
            (final(self).saved() == old(self).saved() && final(self).changed()
                == old(self).changed()) || (final(self).saved() == value
                && final(self).changed()),
            T::obeys_eq_spec() && old(self).saved().eq_spec(&value) ==> final(self).saved()
                == old(self).saved() && final(self).changed() == old(self).changed(),
            T::obeys_eq_spec() && !old(self).saved().eq_spec(&value) ==> final(self).saved()
                == value && final(self).changed(),
    {
        if self.value == value {
            return;
        }
        self.value = value;
        self.changed = true;
    }

    /// The value to write, if it changed since it was last written.
    pub fn pending(&self) -> (r: Option<&T>)
        ensures
            r == (if self.changed() { Some(&self.saved()) } else { None::<&T> }),
    {
        if !self.changed {
            return None;
        }
        Some(&self.value)
    }

    /// Record that the value has been written.
    pub fn mark_written(&mut self)
        ensures
            final(self).saved() == old(self).saved(),
            !final(self).changed(),
    {
        self.changed = false;
    }
}

} // verus!
