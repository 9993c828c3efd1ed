# litedroid

LiteDroid controls Android emulation on Linux: a command-line tool, a
daemon that supervises the Android Emulator, a control panel, and a small
KVM virtual-machine monitor with virtio devices.

## Layout

- `src/` — the library, verified with Verus. Every public function states
  its result in `ensures` over spec functions and views; laws that relate
  several functions are public proof functions named `lemma_*`.
  - wire formats: `wire`, `adb` (ADB messages and session replies), `ipc`
    (length-prefixed frames)
  - guest side: `memory` (guest RAM), `vmm` (kernel loading, boot
    parameters, page tables, GDT, register plans, the run loop's step),
    `vring` (virtio-blk queue processing), `devices`, `storage`, `network`,
    `audio`, `graphics` (framebuffer), `input` (event queue and key maps)
  - host side: `kvm`, `cpuid`, `regs` (KVM calls behind trusted wrappers),
    `diagnostics` (host checks from probed values), `config`, `daemon`
    (request classification and emulator state), `frontend` (CLI and
    panel decisions)
  - text: `text`, `scan` (number rendering and parsing)
- `tests/` — tests run against the compiled library with the real outside
  crates linked.
- `app/` — the executable: argument parsing, files, sockets, processes,
  logging, and the serialisable copies of library types. It calls the
  library for every decision.

Calls into outside crates (`kvm-ioctls`, `kvm-bindings`, `bytes`,
`crossbeam-channel`, `uuid`, `dirs`) are made from `src/` through small
`#[verifier::external_body]` wrappers whose doc comments say what their
contracts claim.
