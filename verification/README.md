# gst_screencapturekit

The logic of a GStreamer source element that captures the screen through
Apple's ScreenCaptureKit, verified with Verus.

- `src/` is the verified library: four-character pixel format codes
  (`fourcc`), the mapping of pixel formats to GStreamer video formats
  (`format`), the test pattern drawn into a test frame (`pattern`), the
  source element's state and decisions (`source`), its buffer metas (`meta`)
  and its self-description (`element`).
- `app/` is the plugin glue: the GStreamer element and meta registrations,
  the ScreenCaptureKit stream and the Core Video / Core Image calls. It
  builds only on macOS.
- `tests/` runs the library on concrete values.
