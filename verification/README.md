# ignis

A Vulkan orchestration layer on top of `ash`, with its logic verified by Verus.

- `src/` is the library. It decides what is created, allocated, recorded and written, and its
  contracts say what: queue selection and submissions, block and slab allocators, staging and
  frame memory, pipelines, shader binding tables, acceleration structures, descriptors and the
  bindless heap, frame graphs, diagnostics, the software-rendered debug window, the live link ring
  and the knowledge base of validation errors. Vulkan handles and flags are plain numbers there.
- `app/` makes the driver calls, runs the threads and reads the files that the library asks for,
  and hands back what came of them.
- `tests/` runs the library on concrete values.

What the library promises across functions stands next to them as `law_*` proof functions.
