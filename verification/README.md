# percents

The verified core of a small Windows tool that lists top-level windows,
shows whether each stands centered on its monitor, centers it, and resizes
its client area to a common 16:10 resolution.

- `src/geometry.rs`: rectangles, centers, the position that centers a window
  and the placement that resizes its client area; with the laws that
  centering centers, that a centered window stays put, and that resizing
  keeps the frame and the center.
- `src/resolution.rs`: the offered resolutions and `is_known_resolution`.
- `src/text.rs`: the texts of the list (decimal numbers, size keys,
  captions), with the law that two size keys are equal only for equal sizes.
- `src/window.rs`: which windows are listed.
- `app/`: the Win32 calls and the egui window around the library.
