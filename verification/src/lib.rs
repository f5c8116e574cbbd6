//! Integer and byte-level logic of the Index camera passthrough: depth from
//! disparities, the OpenVR string and device protocols, the layout of the
//! projected stereo image and the camera frame checks.

pub mod depth;
pub mod openvr;
pub mod projection;
pub mod rectify_image;
