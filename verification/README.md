# nvrc

Mounting and use of composable VM image addons in a confidential guest, verified
with Verus.

- `src/` is the library. `cmdline` and `verity` read the addons that the kernel
  command line declares; `device` finds the block device and the partitions of an
  addon; `addon` is the procedure that finds, verifies and mounts each of them;
  `gpu` and `toolkit` say where the components of the GPU addon are and how they
  are exposed. `text` and `decimal` hold the string and number notation that these
  rest on. `host` is the vocabulary in which a procedure asks for what it cannot
  do itself, and is answered. `laws` states what holds of all of it.
- `app/` performs what the procedures ask for.
- `tests/` runs the library.
