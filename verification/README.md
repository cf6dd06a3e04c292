# bedrock

The logic of a deterministic hypervisor, verified with Verus. A guest runs so
that the same inputs give the same execution, instruction by instruction; a
running VM can be forked, and the forks share memory copy-on-write.

- `src/vmx`: the hypervisor core. Emulated devices, exit handlers, copy-on-write
  forks, write-watchpoints and data breakpoints, exit records, the event format.
- `src/host`: what the kernel module decides. Commands and mappings of a VM's
  file, the instruction counter, descriptor parsing, registration.
- `src/vm`: the userspace view. Configuration, the event stream, the I/O channel.
- `src/lab`: experiments. Recording and replaying inputs, bash targets.
- `src/boot`: boot tables for the guest kernel.
- `src/bytes.rs`, `src/text.rs`: byte and text encoding that the others share.
- `app`: register moves, kernel helpers, digests and files around the library.

Contracts are stated over plain values: a handler's contract gives the whole VM
state after the exit as a function of the state before it. What holds across
several functions is stated and proved as public proof functions beside them;
the ones on copy-on-write and watchpoints are in `src/vmx/vm/laws.rs`.

Three functions of the standard library are trusted:
`core::arch::x86_64::__cpuid_count`, of which only what it was asked is claimed,
`String::from_utf8_lossy`, and `BTreeMap::get_mut`.
