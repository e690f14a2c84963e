# aki-image-view-gtk

A GTK 3 image viewer. The program opens an image given on the command line,
dropped onto its window or chosen in a file dialog, shows it fitted to the
window or at a chosen zoom, and renders large images on a background thread.

## Layout

- `src/` — the viewer's core as a Verus-verified library
  (`aki_image_view_gtk`):
  - `geometry` — integer points, sizes and rectangles and their text forms;
  - `text` — decimal formatting of integers;
  - `zoom` — zoom levels as exact fractions, the fixed zoom steps, zooming in
    and out, and the percentage text of a level;
  - `image_view` — the image view's state: fit level, drawn size, pixel
    budget, and the decisions taken on widget allocations, zoom commands and
    rendering;
  - `draw` — what part of the rendered image a draw event paints;
  - `render_queue` — the render thread's loop as a state machine;
  - `chooser` — the file chooser's memory, its preview steps, `file:` URIs
    for the start-up image and the URI that a reload opens again;
  - `cmdline` — the interface to the `flood-tide` command-line lexer;
  - `conf` — the command-line options and their parse, the configuration
    file's path and the window profile.
- `tests/` — tests of the library on concrete values.
- `app/` — the program: reading the process's arguments and environment,
  GTK widgets and signals, image decoding, files and threads, all calling
  into the library.

The UI description files (`Mwin.glade`, `Fcdia.glade`) are read at run time
from `/usr/share/aki-image-view-gtk/ui/`.
