# Nextcore APLS

Verified decisions of the Nextcore APLS bridge: boot mode, product policy, guest
launch plans, the message envelope of the service cells, the graphics service
cell with its inline and granted transports, and the host runner with the
evaluation of worker reports. Everything fails closed: no configuration, envelope
or probe authorizes macOS boot.

- `src/` is the library. Every function states what it does in its contract, and
  Verus proves it. Functions named `law_*` state what holds across functions.
- `tests/` runs the library.
- `app/` is the host around it: files, processes, the Virtualization framework,
  serialization, and the GPU device of the `nextcore_gpu` crate.

| Module | Content |
| --- | --- |
| `vf_abi` | the 64-byte message envelope |
| `vf_policy` | product policy and root grants |
| `guest`, `mode` | launch plans, backends, boot mode |
| `sgpu`, `sgpu_session` | capability records, frames, the request session |
| `sgpu_grant` | granted messages and their routes |
| `runner` | which requests are run, and the exact command |
| `orchestration` | the course of a run, step by step |
| `report`, `capture` | what a worker's output proves |
| `json`, `digest` | `serde_json` and `sha2` behind contracts |
| `codec`, `text` | little-endian integers, digits and comparison |
