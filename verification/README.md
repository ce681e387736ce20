# microvmm

A small virtual machine monitor for Linux guests on x86-64 KVM. It boots an ELF kernel with an
initramfs, a serial console and a virtio-mmio block device that the guest can discover and
configure.

- `src/` is the verified library. `bytes` has little-endian integers; `gdt`, `paging` and
  `registers` the state that a processor enters 64-bit mode with; `bootparams` the zero page and
  the memory map; `cmdline` the kernel command line; `memory` guest memory; `boot` the boot image
  as a whole; `virtio` the block device's registers; `exits` what follows from a vCPU exit.
- `app/` is the program around it: arguments, files, the terminal, and the calls to KVM.
- `tests/` runs the library, guest memory and the command line builder included.

What the library believes of other crates without proof stands in `memory.rs` and `cmdline.rs`,
in the functions marked `external_body`.
