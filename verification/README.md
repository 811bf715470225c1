# appimage_launcher

A launcher for AppImages: it lists the AppImages of a directory, filters
them by name as the user types, shows a thumbnail for the selected one and
starts it.

- `src/` is the verified library: settings and their defaults (`config`),
  the parts of a path the launcher reads (`paths`), which directory entries
  are AppImages (`scan`), the thumbnail script calls (`thumbnails`), and the
  window's decisions as a state machine from event to actions (`launcher`).
- `app/` is the window (fltk), the configuration file (serde_json), the
  directory reads and the processes it starts; the thumbnail tool runs when
  the program is invoked under the name `thumbnailer`.
- `tests/` runs the library on concrete values.
