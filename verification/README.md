# trellis

`trls` builds container images in stages with podman (a builder image and a
rootfs image, each a chain of containerfiles), runs them, updates a bootc
system from them, cleans up the images it made and writes bootable disk
images.

## Layout

- `src/` is the library, verified with Verus. It holds the decisions:
  the configuration (command line over file over defaults, and its
  validation), stage names and containerfile discovery with its cache, the
  podman command lines of every build and run, which images a cleanup
  removes, disk image sizing, and the step-by-step procedures of image
  cleanup, configuration injection into a disk image and the quick update.
  Each public function states what it returns in its contract; the
  `law_*` proof functions state the properties that hold across calls.
- `app/` is the `trls` program around the library: argument parsing,
  reading the configuration file, running podman and other programs,
  walking the source directory, and carrying out the commands that the
  library's procedures decide on.
- `tests/` exercises the library on concrete values.
