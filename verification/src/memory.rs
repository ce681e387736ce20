//! Guest memory: one flat range of bytes that starts at guest address zero.

use crate::bytes::le8;
use crate::bytes::overwrite;
use crate::cmdline::boot_args;
use crate::cmdline::init_args;
use crate::cmdline::KernelCmdline;
use linux_loader::cmdline::Cmdline;
use linux_loader::configurator::linux::LinuxBootConfigurator;
use linux_loader::configurator::BootConfigurator;
use linux_loader::configurator::BootParams;
use vm_memory::Bytes;
use vm_memory::GuestAddress;
use vm_memory::GuestMemoryMmap;
use vstd::prelude::*;

verus! {

/// `vm_memory::GuestRegionCollection`: a collection of mapped memory regions.
#[verifier::external_type_specification]
#[verifier::external_body]
#[verifier::reject_recursive_types(R)]
pub struct ExGuestRegionCollection<R>(vm_memory::GuestRegionCollection<R>);

/// `vm_memory::GuestRegionMmap`: one mapped memory region.
#[verifier::external_type_specification]
#[verifier::external_body]
#[verifier::reject_recursive_types(B)]
pub struct ExGuestRegionMmap<B>(vm_memory::GuestRegionMmap<B>);

/// `vm_memory::GuestMemoryError`: why a guest memory access failed.
#[verifier::external_type_specification]
#[verifier::external_body]
pub struct ExGuestMemoryError(vm_memory::GuestMemoryError);

/// `vm_memory::mmap::FromRangesError`: why guest memory could not be mapped.
#[verifier::external_type_specification]
#[verifier::external_body]
pub struct ExFromRangesError(vm_memory::mmap::FromRangesError);

/// `linux_loader::loader::Error`: why the loader failed.
#[verifier::external_type_specification]
#[verifier::external_body]
pub struct ExLoaderError(linux_loader::loader::Error);

/// `linux_loader::configurator::Error`: why the boot parameters could not be written.
#[verifier::external_type_specification]
#[verifier::external_body]
pub struct ExConfiguratorError(linux_loader::configurator::Error);

/// What a guest memory holds: the bytes of its region, where it has one region alone, which starts
/// at guest address zero, is readable and writable, and shares no storage with another guest
/// address; no bytes, where it is anything else.
pub uninterp spec fn flat_ram(mem: GuestMemoryMmap<()>) -> Seq<u8>;

/// Calls `GuestMemoryMmap::from_ranges` for a single range from guest address zero on. Where that
/// succeeds, the memory is a flat one of `size` bytes, and `size` is not zero. Whether it
/// succeeds on any other size is the host's affair, and what the new bytes are is left unsaid.
#[verifier::external_body]
fn map_ram(size: usize) -> (r: Result<GuestMemoryMmap<()>, vm_memory::mmap::FromRangesError>)
    ensures
        r matches Ok(mem) ==> size > 0 && flat_ram(mem).len() == size,
{
    GuestMemoryMmap::<()>::from_ranges(&[(GuestAddress(0), size)])
}

/// Calls `vm_memory::Bytes::write_slice` on a flat memory that nothing else is writing to; that
/// function takes a shared reference, this one an exclusive one, since what the memory holds
/// changes. The bytes are written from `addr` on, as far as the memory goes, and the call succeeds if all of
/// them (possibly none) had room.
#[verifier::external_body]
fn store_slice(mem: &mut GuestMemoryMmap<()>, buf: &[u8], addr: u64) -> (r: Result<
    (),
    vm_memory::GuestMemoryError,
>)
    requires
        flat_ram(*old(mem)).len() > 0,
    ensures
        flat_ram(*final(mem)) == overwrite(flat_ram(*old(mem)), addr as int, buf@),
        r is Ok <==> buf@.len() == 0 || addr + buf@.len() <= flat_ram(*old(mem)).len(),
{
    mem.write_slice(buf, GuestAddress(addr))
}

/// Calls `vm_memory::Bytes::write_obj` with a `u64` on a flat memory that nothing else is writing
/// to. The value's eight bytes, in the order of the (x86-64, so little-endian) host, are written
/// from `addr` on, as far as the memory goes, and the call succeeds if all of them had room.
#[verifier::external_body]
fn store_u64(mem: &mut GuestMemoryMmap<()>, val: u64, addr: u64) -> (r: Result<
    (),
    vm_memory::GuestMemoryError,
>)
    requires
        flat_ram(*old(mem)).len() > 0,
    ensures
        flat_ram(*final(mem)) == overwrite(flat_ram(*old(mem)), addr as int, le8(val)),
        r is Ok <==> addr + 8 <= flat_ram(*old(mem)).len(),
{
    mem.write_obj(val, GuestAddress(addr))
}

/// Calls `linux_loader::loader::load_cmdline` with a command line without init arguments, on a flat
/// memory that nothing else is writing to. It succeeds where the boot arguments hold no zero byte
/// and they and the terminator have room from `addr` on; then they are written there. Otherwise
/// the memory stays as it was.
#[verifier::external_body]
fn store_cmdline(mem: &mut GuestMemoryMmap<()>, addr: u64, cmdline: &Cmdline) -> (r: Result<
    (),
    linux_loader::loader::Error,
>)
    requires
        flat_ram(*old(mem)).len() > 0,
        init_args(*cmdline).len() == 0,
    ensures
        r is Ok <==> !boot_args(*cmdline).contains(0) && addr + boot_args(*cmdline).len() + 1
            <= flat_ram(*old(mem)).len(),
        flat_ram(*final(mem)) == if r is Ok {
            overwrite(flat_ram(*old(mem)), addr as int, boot_args(*cmdline).push(0))
        } else {
            flat_ram(*old(mem))
        },
{
    linux_loader::loader::load_cmdline(&*mem, GuestAddress(addr), cmdline)
}

/// Calls `LinuxBootConfigurator::write_bootparams` with the given header bytes, on a flat memory
/// that nothing else is writing to. It succeeds where the memory goes on past the header's end;
/// then the bytes are written from `addr` on. Otherwise the memory stays as it was.
#[verifier::external_body]
fn store_boot_header(mem: &mut GuestMemoryMmap<()>, header: Vec<u8>, addr: u64) -> (r: Result<
    (),
    linux_loader::configurator::Error,
>)
    requires
        flat_ram(*old(mem)).len() > 0,
    ensures
        r is Ok <==> addr + header@.len() < flat_ram(*old(mem)).len(),
        flat_ram(*final(mem)) == if r is Ok {
            overwrite(flat_ram(*old(mem)), addr as int, header@)
        } else {
            flat_ram(*old(mem))
        },
{
    let params = BootParams {
        header,
        header_start: GuestAddress(addr),
        sections: None,
        sections_start: None,
        modules: None,
        modules_start: None,
    };
    LinuxBootConfigurator::write_bootparams::<GuestMemoryMmap<()>>(&params, &*mem)
}

/// Why guest memory could not be set up.
#[derive(Debug)]
pub enum MemoryError {
    /// The memory could not be mapped.
    Mapping(vm_memory::mmap::FromRangesError),
    /// An access went past the end of the memory.
    Access(vm_memory::GuestMemoryError),
    /// The command line does not fit the memory.
    Cmdline(linux_loader::loader::Error),
    /// The boot parameters do not fit the memory.
    BootParams(linux_loader::configurator::Error),
}

/// The memory of the guest.
#[derive(Debug)]
pub struct GuestRam {
    mem: GuestMemoryMmap<()>,
    size: usize,
}

impl View for GuestRam {
    type V = Seq<u8>;

    closed spec fn view(&self) -> Seq<u8> {
        flat_ram(self.mem)
    }
}

impl GuestRam {
    /// The memory is flat, not empty, and as long as was asked for.
    pub closed spec fn wf(&self) -> bool {
        &&& 0 < self.size
        &&& flat_ram(self.mem).len() == self.size
    }

    /// A well-formed memory is not empty and its length is a machine integer.
    pub proof fn wf_len(&self)
        requires
            self.wf(),
        ensures
            0 < self@.len() <= usize::MAX,
    {
    }

    /// Whether asking the host to map `size` bytes, from guest address zero on, may come to
    /// `mapped`.
    pub closed spec fn mapping_came_to(
        size: usize,
        mapped: Result<GuestMemoryMmap<()>, vm_memory::mmap::FromRangesError>,
    ) -> bool {
        call_ensures(map_ram, (size,), mapped)
    }

    /// Maps `size` bytes of guest memory, or says why the host did not.
    pub fn new(size: usize) -> (r: Result<GuestRam, MemoryError>)
        ensures
            r matches Ok(ram) ==> ram.wf() && ram@.len() == size,
            size == 0 ==> r is Err,
            exists|mapped: Result<GuestMemoryMmap<()>, vm_memory::mmap::FromRangesError>|
                #[trigger] GuestRam::mapping_came_to(size, mapped) && (mapped matches Ok(mem) ==> r
                    is Ok && r->Ok_0@ == flat_ram(mem)) && (mapped matches Err(e) ==> r == Err::<
                    GuestRam,
                    _,
                >(MemoryError::Mapping(e))),
    {
        let mapped = map_ram(size);
        assert(GuestRam::mapping_came_to(size, mapped));
        GuestRam::from_mapping(size, mapped)
    }

    /// What mapping `size` bytes has come to.
    fn from_mapping(
        size: usize,
        mapped: Result<GuestMemoryMmap<()>, vm_memory::mmap::FromRangesError>,
    ) -> (r: Result<GuestRam, MemoryError>)
        requires
            mapped matches Ok(mem) ==> size > 0 && flat_ram(mem).len() == size,
        ensures
            mapped matches Ok(mem) ==> r is Ok && r->Ok_0.wf() && r->Ok_0@ == flat_ram(mem),
            mapped matches Err(e) ==> r == Err::<GuestRam, _>(MemoryError::Mapping(e)),
    {
        match mapped {
            Ok(mem) => Ok(GuestRam { mem, size }),
            Err(e) => Err(MemoryError::Mapping(e)),
        }
    }

    /// The length of the memory.
    pub fn size(&self) -> (n: usize)
        requires
            self.wf(),
        ensures
            n == self@.len(),
    {
        self.size
    }

    /// The mapping behind the memory, to hand to the hypervisor and the kernel loader. What they
    /// write through it later is theirs: nothing here says what the memory holds then.
    pub fn memory(&self) -> (mem: &GuestMemoryMmap<()>)
        ensures
            flat_ram(*mem) == self@,
    {
        &self.mem
    }

    /// Writes `buf` from guest address `addr` on.
    pub fn write_slice(&mut self, buf: &[u8], addr: u64) -> (r: Result<(), MemoryError>)
        requires
            old(self).wf(),
        ensures
            final(self).wf(),
            final(self)@ == overwrite(old(self)@, addr as int, buf@),
            r is Ok <==> buf@.len() == 0 || addr + buf@.len() <= old(self)@.len(),
            r matches Err(e) ==> e is Access,
    {
        match store_slice(&mut self.mem, buf, addr) {
            Ok(()) => Ok(()),
            Err(e) => Err(MemoryError::Access(e)),
        }
    }

    /// Writes the eight bytes of `val`, least significant first, from guest address `addr` on.
    pub fn write_u64(&mut self, val: u64, addr: u64) -> (r: Result<(), MemoryError>)
        requires
            old(self).wf(),
        ensures
            final(self).wf(),
            final(self)@ == overwrite(old(self)@, addr as int, le8(val)),
            r is Ok <==> addr + 8 <= old(self)@.len(),
            r matches Err(e) ==> e is Access,
    {
        match store_u64(&mut self.mem, val, addr) {
            Ok(()) => Ok(()),
            Err(e) => Err(MemoryError::Access(e)),
        }
    }

    /// Writes the command line and its terminator from guest address `addr` on, or nothing if they
    /// do not fit.
    pub fn write_cmdline(&mut self, cmdline: &KernelCmdline, addr: u64) -> (r: Result<
        (),
        MemoryError,
    >)
        requires
            old(self).wf(),
            cmdline.wf(),
        ensures
            final(self).wf(),
            r is Ok <==> addr + cmdline@.len() + 1 <= old(self)@.len(),
            final(self)@ == if r is Ok {
                overwrite(old(self)@, addr as int, cmdline@.push(0))
            } else {
                old(self)@
            },
            r matches Err(e) ==> e is Cmdline,
    {
        proof {
            cmdline.wf_text();
        }
        match store_cmdline(&mut self.mem, addr, cmdline.inner()) {
            Ok(()) => Ok(()),
            Err(e) => Err(MemoryError::Cmdline(e)),
        }
    }

    /// Writes boot parameters, laid out in `header`, from guest address `addr` on, or nothing if
    /// the memory does not go on past them.
    pub fn write_boot_header(&mut self, header: Vec<u8>, addr: u64) -> (r: Result<(), MemoryError>)
        requires
            old(self).wf(),
        ensures
            final(self).wf(),
            r is Ok <==> addr + header@.len() < old(self)@.len(),
            final(self)@ == if r is Ok {
                overwrite(old(self)@, addr as int, header@)
            } else {
                old(self)@
            },
            r matches Err(e) ==> e is BootParams,
    {
        match store_boot_header(&mut self.mem, header, addr) {
            Ok(()) => Ok(()),
            Err(e) => Err(MemoryError::BootParams(e)),
        }
    }
}

/// Memory that was mapped is as long as was asked for; of no length there is none.
pub proof fn mapped_memory_has_the_size_asked_for(
    size: usize,
    r: Result<GuestRam, MemoryError>,
    ram: GuestRam,
    n: usize,
)
    requires
        call_ensures(GuestRam::new, (size,), r),
        call_ensures(GuestRam::size, (&ram,), n),
        r == Ok::<GuestRam, MemoryError>(ram),
    ensures
        n == size,
        ram@.len() == size,
        size > 0,
{
}

/// A slice is written where it was meant to go, as far as the memory goes, and nowhere else; the
/// write fails exactly where a byte of it had no room.
pub proof fn slices_go_where_they_belong(
    ram: &mut GuestRam,
    buf: &[u8],
    addr: u64,
    r: Result<(), MemoryError>,
    k: int,
)
    requires
        call_ensures(GuestRam::write_slice, (ram, buf, addr), r),
        0 <= k < old(ram)@.len(),
    ensures
        final(ram)@.len() == old(ram)@.len(),
        addr <= k < addr + buf@.len() ==> final(ram)@[k] == buf@[k - addr],
        !(addr <= k < addr + buf@.len()) ==> final(ram)@[k] == old(ram)@[k],
        r is Err <==> buf@.len() > 0 && addr + buf@.len() > old(ram)@.len(),
        r matches Err(e) ==> e is Access,
{
}

/// A word that has room is written as its eight digits in base 256, least significant first, and
/// nothing else changes; the write fails exactly where it has none, after as many of the digits as
/// memory can hold.
pub proof fn words_go_where_they_belong(
    ram: &mut GuestRam,
    val: u64,
    addr: u64,
    r: Result<(), MemoryError>,
    k: int,
)
    requires
        call_ensures(GuestRam::write_u64, (ram, val, addr), r),
    ensures
        final(ram)@.len() == old(ram)@.len(),
        r is Ok <==> addr + 8 <= old(ram)@.len(),
        r matches Err(e) ==> e is Access,
        r is Ok ==> crate::bytes::u64_at(final(ram)@, addr as int) == val,
        0 <= k < old(ram)@.len() && !(addr <= k < addr + 8) ==> final(ram)@[k] == old(ram)@[k],
        addr <= k < old(ram)@.len() && k < addr + 8 ==> final(ram)@[k] == le8(val)[k - addr],
{
    if r is Ok {
        crate::bytes::u64_read_back(old(ram)@, addr as int, val);
    }
}

/// A command line is written whole, with a zero byte after it, or not at all where it has no room.
pub proof fn command_lines_go_where_they_belong(
    ram: &mut GuestRam,
    cmdline: &KernelCmdline,
    addr: u64,
    r: Result<(), MemoryError>,
    k: int,
)
    requires
        call_ensures(GuestRam::write_cmdline, (ram, cmdline, addr), r),
        0 <= k < old(ram)@.len(),
    ensures
        final(ram)@.len() == old(ram)@.len(),
        r is Ok <==> addr + cmdline@.len() < old(ram)@.len(),
        r matches Err(e) ==> e is Cmdline,
        r is Ok && addr <= k < addr + cmdline@.len() ==> final(ram)@[k] == cmdline@[k - addr],
        r is Ok && k == addr + cmdline@.len() ==> final(ram)@[k] == 0,
        r is Err || k < addr || k > addr + cmdline@.len() ==> final(ram)@[k] == old(ram)@[k],
{
}

/// Boot parameters are written whole, or not at all where the memory does not go on past them.
pub proof fn headers_go_where_they_belong(
    ram: &mut GuestRam,
    header: Vec<u8>,
    addr: u64,
    r: Result<(), MemoryError>,
    k: int,
)
    requires
        call_ensures(GuestRam::write_boot_header, (ram, header, addr), r),
        0 <= k < old(ram)@.len(),
    ensures
        final(ram)@.len() == old(ram)@.len(),
        r is Ok <==> addr + header@.len() < old(ram)@.len(),
        r matches Err(e) ==> e is BootParams,
        r is Ok && addr <= k < addr + header@.len() ==> final(ram)@[k] == header@[k - addr],
        r is Err || !(addr <= k < addr + header@.len()) ==> final(ram)@[k] == old(ram)@[k],
{
}

} // verus!
