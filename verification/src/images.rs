//! The two accumulation images and their roles.

use vstd::prelude::*;
use crate::dispatch::Dispatch;

verus! {

/// One of the two accumulation images.
#[derive(Clone, Copy, Debug, PartialEq, Eq, Structural)]
pub enum ImageSlot {
    A,
    B,
}

/// The roles of the two images in one bind group.
#[derive(Clone, Copy, Debug, PartialEq, Eq, Structural)]
pub struct ImageBinding {
    pub read: ImageSlot,
    pub write: ImageSlot,
}

impl ImageSlot {
    /// The image that `self` is not.
    pub open spec fn spec_other(self) -> ImageSlot {
        match self {
            ImageSlot::A => ImageSlot::B,
            ImageSlot::B => ImageSlot::A,
        }
    }

    /// Returns the image that `self` is not.
    pub fn other(self) -> (slot: ImageSlot)
        ensures
            slot == self.spec_other(),
    {
        match self {
            ImageSlot::A => ImageSlot::B,
            ImageSlot::B => ImageSlot::A,
        }
    }
}

/// Image pairing 0 reads A and writes B; pairing 1 reads B and writes A.
pub open spec fn spec_image_binding(index: usize) -> ImageBinding {
    if index == 0 {
        ImageBinding { read: ImageSlot::A, write: ImageSlot::B }
    } else {
        ImageBinding { read: ImageSlot::B, write: ImageSlot::A }
    }
}

/// Returns the roles of the two images in bind group `index`.
pub fn image_binding(index: usize) -> (binding: ImageBinding)
    requires
        index < 2,
    ensures
        binding == spec_image_binding(index),
        binding.read != binding.write,
{
    if index == 0 {
        ImageBinding { read: ImageSlot::A, write: ImageSlot::B }
    } else {
        ImageBinding { read: ImageSlot::B, write: ImageSlot::A }
    }
}

/// The image that `dispatch` writes.
pub open spec fn spec_written_by(dispatch: Dispatch) -> ImageSlot {
    spec_image_binding(dispatch.image_set).write
}

/// The image that `dispatch` reads.
pub open spec fn spec_read_by(dispatch: Dispatch) -> ImageSlot {
    spec_image_binding(dispatch.image_set).read
}

/// Returns the image that `dispatch` writes.
pub fn written_by(dispatch: &Dispatch) -> (slot: ImageSlot)
    requires
        dispatch.image_set < 2,
    ensures
        slot == spec_written_by(*dispatch),
{
    image_binding(dispatch.image_set).write
}

/// The image on display after a tick: the one that the tick's dispatch wrote,
/// or the one shown before where the tick dispatched nothing.
pub open spec fn spec_present(shown: ImageSlot, dispatch: Option<Dispatch>) -> ImageSlot {
    match dispatch {
        Some(d) => spec_written_by(d),
        None => shown,
    }
}

/// Chooses the image to display after a tick, given the one shown so far and
/// what the tick dispatched.
pub fn present(shown: ImageSlot, dispatch: &Option<Dispatch>) -> (slot: ImageSlot)
    requires
        dispatch matches Some(d) ==> d.image_set < 2,
    ensures
        slot == spec_present(shown, *dispatch),
{
    match dispatch {
        Some(d) => written_by(d),
        None => shown,
    }
}

/// Flips the displayed image: from A to B and from B to A.
pub fn switch_textures(shown: ImageSlot) -> (slot: ImageSlot)
    ensures
        slot == shown.spec_other(),
{
    shown.other()
}

/// Within one bind group the read image and the write image differ, and the
/// two bind groups swap the roles.
pub proof fn lemma_roles_never_alias(index: usize)
    requires
        index < 2,
    ensures
        spec_image_binding(index).read != spec_image_binding(index).write,
        spec_image_binding((1 - index) as usize).read == spec_image_binding(index).write,
        spec_image_binding((1 - index) as usize).write == spec_image_binding(index).read,
{
}

} // verus!
