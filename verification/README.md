# index-camera-passthrough, verified core

`src/` is a Verus library with the parts of the Index camera passthrough that are
decided on integers and bytes, each with its contract:

- `depth`: which disparities of the stereo matcher have a depth, and the size of the
  disparity search range;
- `openvr`: the list of Vulkan extensions that the compositor requires, the search
  for the Hmd among the tracked devices, the names of a new overlay;
- `projection`: the shape of the side by side source image, the viewport of each
  eye, and when the eye transforms are written to the GPU again;
- `rectify_image`: the size of a saved camera frame.

`app/` holds the rest of the program around it: the OpenCV and OpenVR bindings, the
Vulkan pipeline and the floating point geometry. `tests/` runs the library.
