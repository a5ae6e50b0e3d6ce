# smithay

The logic of the backends of a Wayland compositor, verified with Verus: damage tracking and
rendering, sessions, device discovery, and the nested backends on Wayland and winit.

- `src/utils/` holds points, sizes, rectangles and transforms over whole pixels.
- `src/backend/renderer/` decides what is redrawn and how: damage of outputs and surfaces,
  software rendering with pixman, and rendering with compute shaders on Vulkan.
- `src/backend/vulkan/` chooses versions, extensions, queues, formats and memory.
- `src/backend/session/` drives sessions on terminals, logind and libseat.
- `src/backend/udev.rs`, `src/backend/wayland/` and `src/backend/winit/` turn events of the
  system into those of a compositor.
- `app/` performs what the library decides: the calls into the kernel, pixman and Vulkan, the
  event sources of sessions and cards, and everything with floating point numbers. Libraries
  that a program links itself (libseat, libudev, libdbus, gbm, winit) are behind traits there.
- `tests/` runs the library on concrete values.

What depends on the byte order of the machine takes it as an argument (`utils::byte_order`).

Where outside work and decisions alternate, the library holds a state machine: it says what is
to be done next, and takes what came of it. Functions marked `external_body` and items declared
with `assume_specification` are the only ones whose contracts are not proved; each names the
outside function that it stands for.
