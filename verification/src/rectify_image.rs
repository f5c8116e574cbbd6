//! Checks on a saved camera frame before its lens correction is run.

use vstd::prelude::*;

verus! {

/// Size of each camera image in the frames of the Index camera: a frame holds the
/// left and right images side by side.
pub const CAMERA_SIZE: u32 = 960;

/// A saved frame does not have the size of the camera's frames.
#[derive(Debug, Clone, Copy, PartialEq, Eq, Structural)]
pub struct FrameSizeError {
    pub width: u32,
    pub height: u32,
}

/// Width and height of a frame of the camera.
pub fn expected_frame_size() -> (r: (u32, u32))
    ensures
        r.0 == 2 * CAMERA_SIZE && r.1 == CAMERA_SIZE,
{
    (CAMERA_SIZE * 2, CAMERA_SIZE)
}

/// Accept a frame of the given width and height only if it has the size of the
/// camera's frames, the two camera images side by side.
pub fn check_frame_size(width: u32, height: u32) -> (r: Result<(), FrameSizeError>)
    ensures
        r is Ok <==> (width == 2 * CAMERA_SIZE && height == CAMERA_SIZE),
        r is Ok <==> (width == 1920 && height == 960),
        r is Err ==> r == Err::<(), FrameSizeError>(FrameSizeError { width, height }),
{
    let (expected_width, expected_height) = expected_frame_size();
    if width != expected_width || height != expected_height {
        return Err(FrameSizeError { width, height });
    }
    Ok(())
}

} // verus!
