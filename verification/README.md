# krane_cam

Camera service for the MT8183 (Kukui "Krane") Chromebook: frames captured
from the ISP through the Media Request API are demosaiced from GRBG Bayer to
YUYV and written to a v4l2loopback device; without a camera, a color-bars
test pattern is written instead.

The library in `src/` is verified with Verus:

| module     | contents |
|------------|----------|
| `frame`    | `BayerFrame`, `YuyvFrame`, the BT.601 2x2 demosaic, brightness boost |
| `pattern`  | `ColorBars` test pattern |
| `ioctl`    | `_IOC` request-code encoding and the V4L2 / media constants |
| `v4l2`     | plain-value V4L2 request-buffers and timecode structures |
| `capture`  | capture-session decisions: setup, streaming, buffer rotation, waits |
| `loopback` | loopback output format and the checks on frames written to it |
| `camera`   | supported sensor, resolutions, pipeline configuration commands |
| `media`    | reading device and sensor names out of `v4l2-ctl` / `media-ctl` output |
| `text`     | line splitting, search and trimming on characters |

`app/` holds the program: argument parsing, the ioctl / mmap / select calls,
the v4l2loopback device, running the external commands, and the frame loop.
