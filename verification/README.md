# krunvm

Create and run microVMs from OCI images with libkrun.

- `src/` is the verified library: the stored configuration and its defaults
  (`config`), the networking backends and their rules (`network`), the plan
  for starting a VM and the text handed to it (`start`), the host checks
  (`host`) and the text rules they share (`text`).
- `app/` is the `krunvm` program: argument parsing, the configuration file,
  buildah and the calls into libkrun.
- `tests/` runs the library on concrete values.
