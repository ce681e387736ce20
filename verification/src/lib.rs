//! The decisions of a small x86-64 virtual machine monitor: descriptors, page tables, boot
//! parameters, the kernel command line, guest memory, a virtio-mmio block device and the
//! handling of vCPU exits.

pub mod boot;
pub mod bootparams;
pub mod bytes;
pub mod cmdline;
pub mod exits;
pub mod gdt;
pub mod memory;
pub mod paging;
pub mod registers;
pub mod virtio;
