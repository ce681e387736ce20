//! The kernel command line: the user's arguments, then the block device's place.

use linux_loader::cmdline::Cmdline;
use linux_loader::cmdline::Error;
use vstd::prelude::*;

verus! {

/// Guest address of the block device's registers.
pub const VIRTIO_BLK_BASE: u64 = 0xd000_0000;
/// Bytes of guest address space that the block device's registers take up.
pub const VIRTIO_BLK_LEN: u64 = 0x1000;
/// The interrupt line of the block device.
pub const VIRTIO_BLK_IRQ: u32 = 5;

/// Bytes set aside for the command line and its terminator.
pub const CMDLINE_CAPACITY: usize = 0x1_0000;

/// `linux_loader::cmdline::Cmdline`: a command line under construction.
#[verifier::external_type_specification]
#[verifier::external_body]
pub struct ExCmdline(linux_loader::cmdline::Cmdline);

/// `linux_loader::cmdline::Error`: why a command line was refused.
#[verifier::external_type_specification]
#[verifier::external_body]
pub struct ExCmdlineError(linux_loader::cmdline::Error);

/// The bytes of the boot arguments that a command line holds.
pub uninterp spec fn boot_args(cmdline: Cmdline) -> Seq<u8>;

/// The bytes of the init arguments that a command line holds.
pub uninterp spec fn init_args(cmdline: Cmdline) -> Seq<u8>;

/// The capacity that a command line was made with; the terminator counts.
pub uninterp spec fn capacity(cmdline: Cmdline) -> nat;

/// The characters that `str::trim` takes off: those with the Unicode property `White_Space`.
pub open spec fn is_white_space(c: char) -> bool {
    let u = c as u32;
    ||| 0x9 <= u <= 0xd
    ||| u == 0x20
    ||| u == 0x85
    ||| u == 0xa0
    ||| u == 0x1680
    ||| 0x2000 <= u <= 0x200a
    ||| u == 0x2028
    ||| u == 0x2029
    ||| u == 0x202f
    ||| u == 0x205f
    ||| u == 0x3000
}

/// `s` without the white space that it starts with.
pub open spec fn trim_start(s: Seq<char>) -> Seq<char>
    decreases s.len(),
{
    if s.len() > 0 && is_white_space(s[0]) {
        trim_start(s.drop_first())
    } else {
        s
    }
}

/// `s` without the white space that it ends with.
pub open spec fn trim_end(s: Seq<char>) -> Seq<char>
    decreases s.len(),
{
    if s.len() > 0 && is_white_space(s.last()) {
        trim_end(s.drop_last())
    } else {
        s
    }
}

/// Every character is a printable ASCII character or a space.
pub open spec fn is_printable(s: Seq<char>) -> bool {
    forall|i: int| 0 <= i < s.len() ==> ' ' <= #[trigger] s[i] <= '~'
}

/// The bytes of printable text.
pub open spec fn ascii_bytes(s: Seq<char>) -> Seq<u8> {
    Seq::new(s.len(), |i: int| s[i] as u8)
}

/// Why a text could not be put on a command line.
#[derive(Debug, PartialEq, Eq)]
pub enum InsertError {
    /// It has a character that is not printable ASCII.
    InvalidAscii,
    /// The command line has no room for it.
    TooLarge,
    /// Any other reason.
    Other(Error),
}

/// Calls `Cmdline::new`. It succeeds unless the capacity is zero, and makes an empty command line.
#[verifier::external_body]
fn empty_cmdline(size: usize) -> (r: Result<Cmdline, Error>)
    ensures
        r is Ok <==> size > 0,
        r matches Ok(c) ==> boot_args(c).len() == 0 && init_args(c).len() == 0 && capacity(c)
            == size,
{
    Cmdline::new(size)
}

/// Calls `Cmdline::insert_str` on a command line without init arguments. The text is trimmed; it is
/// refused where a character of it is not printable ASCII, and otherwise where it would, with the
/// arguments so far, a space between and the terminator, exceed the capacity. What is not refused
/// is appended, after a space if it is not the first.
#[verifier::external_body]
fn insert_text(cmdline: &mut Cmdline, text: &str) -> (r: Result<(), InsertError>)
    requires
        init_args(*old(cmdline)).len() == 0,
    ensures
        init_args(*final(cmdline)) == init_args(*old(cmdline)),
        capacity(*final(cmdline)) == capacity(*old(cmdline)),
        ({
            let s = trim_end(trim_start(text@));
            let so_far = boot_args(*old(cmdline));
            let joined = if so_far.len() == 0 {
                ascii_bytes(s)
            } else {
                so_far.push(0x20) + ascii_bytes(s)
            };
            if !is_printable(s) {
                r == Err::<(), _>(InsertError::InvalidAscii) && boot_args(*final(cmdline))
                    == so_far
            } else if joined.len() + 1 > capacity(*old(cmdline)) {
                r == Err::<(), _>(InsertError::TooLarge) && boot_args(*final(cmdline)) == so_far
            } else {
                r is Ok && boot_args(*final(cmdline)) == joined
            }
        }),
{
    match cmdline.insert_str(text) {
        Ok(()) => Ok(()),
        Err(Error::InvalidAscii) => Err(InsertError::InvalidAscii),
        Err(Error::TooLarge) => Err(InsertError::TooLarge),
        Err(e) => Err(InsertError::Other(e)),
    }
}

/// Calls `Cmdline::as_cstring` on a command line without init arguments. Unless a zero byte stands
/// in them, it gives the boot arguments; the terminator that a C string carries is left off here.
#[verifier::external_body]
fn text_bytes(cmdline: &Cmdline) -> (r: Result<Vec<u8>, Error>)
    requires
        init_args(*cmdline).len() == 0,
    ensures
        r is Ok <==> !boot_args(*cmdline).contains(0),
        r matches Ok(b) ==> b@ == boot_args(*cmdline),
{
    match cmdline.as_cstring() {
        Ok(s) => Ok(s.into_bytes()),
        Err(e) => Err(e),
    }
}

/// The digit with value `d` in base ten or sixteen.
pub open spec fn digit_char(d: int) -> char {
    if d < 10 {
        (0x30 + d) as char
    } else {
        (0x57 + d) as char
    }
}

/// The digits of `v` in the given base, most significant first.
pub open spec fn digits(v: nat, base: nat) -> Seq<char>
    recommends
        base >= 2,
    decreases v,
{
    if base < 2 || v < base {
        seq![digit_char(v as int)]
    } else {
        proof {
            assert(v / base < v) by (nonlinear_arith)
                requires
                    2 <= base <= v,
            ;
        }
        digits(v / base, base).push(digit_char((v % base) as int))
    }
}

/// The parameter that tells the kernel where the block device is.
pub open spec fn device_parameter() -> Seq<char> {
    " virtio_mmio.device=4K@0x"@ + digits(VIRTIO_BLK_BASE as nat, 16) + ":"@ + digits(
        VIRTIO_BLK_IRQ as nat,
        10,
    )
}

fn digit_str(d: u64) -> (s: &'static str)
    requires
        d < 16,
    ensures
        s@ == seq![digit_char(d as int)],
{
    proof {
        reveal_strlit("0");
        reveal_strlit("1");
        reveal_strlit("2");
        reveal_strlit("3");
        reveal_strlit("4");
        reveal_strlit("5");
        reveal_strlit("6");
        reveal_strlit("7");
        reveal_strlit("8");
        reveal_strlit("9");
        reveal_strlit("a");
        reveal_strlit("b");
        reveal_strlit("c");
        reveal_strlit("d");
        reveal_strlit("e");
        reveal_strlit("f");
    }
    let s: &'static str = match d {
        0 => "0",
        1 => "1",
        2 => "2",
        3 => "3",
        4 => "4",
        5 => "5",
        6 => "6",
        7 => "7",
        8 => "8",
        9 => "9",
        10 => "a",
        11 => "b",
        12 => "c",
        13 => "d",
        14 => "e",
        _ => "f",
    };
    assert(s@ =~= seq![digit_char(d as int)]);
    s
}

fn push_digits(out: &mut String, v: u64, base: u64)
    requires
        2 <= base <= 16,
    ensures
        final(out)@ == old(out)@ + digits(v as nat, base as nat),
    decreases v,
{
    if v >= base {
        assert(v / base < v) by (nonlinear_arith)
            requires
                2 <= base <= v,
        ;
        push_digits(out, v / base, base);
        out.append(digit_str(v % base));
        assert(out@ =~= old(out)@ + digits(v as nat, base as nat));
    } else {
        out.append(digit_str(v));
    }
}

/// The user's arguments, followed by the parameter that tells the kernel where the block device is.
pub fn full_cmdline(args: &str) -> (full: String)
    ensures
        full@ == args@ + device_parameter(),
{
    let mut full: String = args.to_owned();
    full.append(" virtio_mmio.device=4K@0x");
    push_digits(&mut full, VIRTIO_BLK_BASE, 16);
    full.append(":");
    push_digits(&mut full, VIRTIO_BLK_IRQ as u64, 10);
    assert(full@ =~= args@ + device_parameter());
    full
}

/// Why there is no command line.
#[derive(Debug, PartialEq, Eq)]
pub enum CmdlineError {
    /// The buffer could not be set up.
    Buffer(Error),
    /// The text was refused.
    Insert(InsertError),
    /// The text is no C string.
    CString(Error),
}

/// What the command line for the given arguments holds, unless they are refused.
pub open spec fn kernel_text(args: Seq<char>) -> Seq<char> {
    trim_end(trim_start(args + device_parameter()))
}

/// A finished kernel command line.
#[derive(Debug)]
pub struct KernelCmdline {
    inner: Cmdline,
}

impl View for KernelCmdline {
    type V = Seq<u8>;

    /// The bytes of the command line, without the terminator.
    closed spec fn view(&self) -> Seq<u8> {
        boot_args(self.inner)
    }
}

impl KernelCmdline {
    /// The command line is printable text, and fits the space set aside for it.
    pub closed spec fn wf(&self) -> bool {
        &&& init_args(self.inner).len() == 0
        &&& boot_args(self.inner).len() < CMDLINE_CAPACITY
        &&& forall|i: int|
            0 <= i < boot_args(self.inner).len() ==> 0x20 <= #[trigger] boot_args(self.inner)[i]
                <= 0x7e
    }

    /// What a well-formed command line is made of.
    pub proof fn wf_text(&self)
        requires
            self.wf(),
        ensures
            self@.len() < CMDLINE_CAPACITY,
            forall|i: int| 0 <= i < self@.len() ==> 0x20 <= #[trigger] self@[i] <= 0x7e,
    {
    }

    /// Builds the command line for the user's arguments.
    pub fn new(args: &str) -> (r: Result<KernelCmdline, CmdlineError>)
        ensures
            ({
                let text = kernel_text(args@);
                if !is_printable(text) {
                    r == Err::<KernelCmdline, _>(CmdlineError::Insert(InsertError::InvalidAscii))
                } else if text.len() >= CMDLINE_CAPACITY {
                    r == Err::<KernelCmdline, _>(CmdlineError::Insert(InsertError::TooLarge))
                } else {
                    r is Ok && r->Ok_0.wf() && r->Ok_0@ == ascii_bytes(text)
                }
            }),
    {
        let mut inner = match empty_cmdline(CMDLINE_CAPACITY) {
            Ok(c) => c,
            Err(e) => {
                return Err(CmdlineError::Buffer(e));
            },
        };
        let full = full_cmdline(args);
        match insert_text(&mut inner, full.as_str()) {
            Ok(()) => Ok(KernelCmdline { inner }),
            Err(e) => Err(CmdlineError::Insert(e)),
        }
    }

    /// The length of the command line, without the terminator.
    pub fn len(&self) -> (r: Result<usize, CmdlineError>)
        requires
            self.wf(),
        ensures
            r == Ok::<_, CmdlineError>(self@.len() as usize),
            self@.len() <= usize::MAX,
    {
        match text_bytes(&self.inner) {
            Ok(b) => Ok(b.len()),
            Err(e) => Err(CmdlineError::CString(e)),
        }
    }

    /// The builder behind the command line, to hand to the loader.
    pub(crate) fn inner(&self) -> (c: &Cmdline)
        ensures
            boot_args(*c) == self@,
            self.wf() ==> init_args(*c).len() == 0,
    {
        &self.inner
    }
}

/// The device parameter, letter for letter.
pub proof fn device_parameter_text()
    ensures
        device_parameter() == " virtio_mmio.device=4K@0xd0000000:5"@,
{
    reveal_strlit(" virtio_mmio.device=4K@0x");
    reveal_strlit(":");
    reveal_strlit(" virtio_mmio.device=4K@0xd0000000:5");
    reveal_with_fuel(digits, 8);
    assert(digits(0xd000_0000, 16) =~= seq!['d', '0', '0', '0', '0', '0', '0', '0']);
    assert(digits(5, 10) =~= seq!['5']);
    assert(device_parameter() =~= " virtio_mmio.device=4K@0xd0000000:5"@);
}

proof fn trim_start_of_concat(a: Seq<char>, b: Seq<char>)
    ensures
        trim_start(a + b) == if trim_start(a).len() == 0 {
            trim_start(b)
        } else {
            trim_start(a) + b
        },
    decreases a.len(),
{
    if a.len() == 0 {
        assert(a + b =~= b);
    } else if is_white_space(a[0]) {
        assert((a + b).drop_first() =~= a.drop_first() + b);
        trim_start_of_concat(a.drop_first(), b);
    }
}

/// Whatever the user's arguments are, the command line is they, without white space before them,
/// followed by the device parameter; the space before the parameter goes too where there are none.
pub proof fn kernel_text_ends_with_device(args: Seq<char>)
    ensures
        kernel_text(args) == if trim_start(args).len() == 0 {
            device_parameter().drop_first()
        } else {
            trim_start(args) + device_parameter()
        },
{
    device_parameter_text();
    reveal_strlit(" virtio_mmio.device=4K@0xd0000000:5");
    let dev = device_parameter();
    assert(is_white_space(dev[0]));
    assert(dev[1] == 'v');
    assert(dev.last() == '5');
    trim_start_of_concat(args, dev);
    assert(trim_start(dev) == dev.drop_first()) by {
        assert(dev.drop_first()[0] == 'v');
        assert(trim_start(dev.drop_first()) == dev.drop_first());
    }
}

/// A command line is refused exactly where the arguments, without the white space before them, hold
/// a character that is not printable, or are too long.
pub proof fn refused_exactly(args: Seq<char>)
    ensures
        is_printable(kernel_text(args)) <==> is_printable(trim_start(args)),
        trim_start(args).len() > 0 ==> kernel_text(args).len() == trim_start(args).len() + 35,
        trim_start(args).len() == 0 ==> kernel_text(args).len() == 34,
{
    kernel_text_ends_with_device(args);
    device_parameter_text();
    reveal_strlit(" virtio_mmio.device=4K@0xd0000000:5");
    let dev = device_parameter();
    let a = trim_start(args);
    let t = kernel_text(args);
    assert(is_printable(dev));
    if is_printable(a) {
        assert forall|i: int| 0 <= i < t.len() implies ' ' <= #[trigger] t[i] <= '~' by {
            if a.len() == 0 {
                assert(t[i] == dev[i + 1]);
            } else if i < a.len() {
                assert(t[i] == a[i]);
            } else {
                assert(t[i] == dev[i - a.len()]);
            }
        }
    }
    if is_printable(t) {
        assert forall|i: int| 0 <= i < a.len() implies ' ' <= #[trigger] a[i] <= '~' by {
            assert(t[i] == a[i]);
        }
    }
}

/// The user's arguments come first, letter for letter, and the block device's place, its size and its
/// interrupt line after them.
pub proof fn arguments_then_device(args: &str, full: String)
    requires
        call_ensures(full_cmdline, (args,), full),
    ensures
        full@ == args@ + " virtio_mmio.device=4K@0xd0000000:5"@,
{
    device_parameter_text();
}

/// The arguments are `rest`, with white space before it.
pub open spec fn starts_blank(args: Seq<char>, rest: Seq<char>) -> bool {
    &&& args.len() >= rest.len()
    &&& args.skip(args.len() - rest.len()) == rest
    &&& forall|i: int| 0 <= i < args.len() - rest.len() ==> is_white_space(#[trigger] args[i])
    &&& rest.len() > 0 ==> !is_white_space(rest[0])
}

/// What the kernel is to read where the arguments, without the white space before them, are `rest`.
pub open spec fn text_to_read(rest: Seq<char>) -> Seq<char> {
    if rest.len() == 0 {
        "virtio_mmio.device=4K@0xd0000000:5"@
    } else {
        rest + " virtio_mmio.device=4K@0xd0000000:5"@
    }
}

/// The command line for the arguments holds what the kernel is to read.
pub proof fn kernel_text_is_text_to_read(args: Seq<char>, rest: Seq<char>)
    requires
        starts_blank(args, rest),
    ensures
        kernel_text(args) == text_to_read(rest),
        is_printable(kernel_text(args)) <==> is_printable(rest),
        text_to_read(rest).len() >= 34,
{
    let blank = args.take(args.len() - rest.len());
    assert(args =~= blank + rest);
    assert forall|i: int| 0 <= i < blank.len() implies is_white_space(#[trigger] blank[i]) by {
        assert(blank[i] == args[i]);
    }
    blanks_are_trimmed(blank);
    trim_start_of_concat(blank, rest);
    kernel_text_ends_with_device(args);
    refused_exactly(args);
    device_parameter_text();
    reveal_strlit(" virtio_mmio.device=4K@0xd0000000:5");
    reveal_strlit("virtio_mmio.device=4K@0xd0000000:5");
    assert(" virtio_mmio.device=4K@0xd0000000:5"@.drop_first()
        =~= "virtio_mmio.device=4K@0xd0000000:5"@);
}

proof fn blanks_are_trimmed(blank: Seq<char>)
    requires
        forall|i: int| 0 <= i < blank.len() ==> is_white_space(#[trigger] blank[i]),
    ensures
        trim_start(blank).len() == 0,
    decreases blank.len(),
{
    if blank.len() > 0 {
        assert(is_white_space(blank[0]));
        let less = blank.drop_first();
        assert forall|i: int| 0 <= i < less.len() implies is_white_space(#[trigger] less[i]) by {
            assert(less[i] == blank[i + 1]);
        }
        blanks_are_trimmed(less);
    }
}

/// A command line is made for every arguments that are printable ASCII, past the white space before
/// them, and leave it under 64 KiB with its terminator; it is what the kernel is to read, byte for
/// byte, and its length counts every byte. Other arguments are refused, for the character first.
pub proof fn command_line_is_what_the_kernel_reads(
    args: &str,
    rest: Seq<char>,
    r: Result<KernelCmdline, CmdlineError>,
    n: Result<usize, CmdlineError>,
)
    requires
        call_ensures(KernelCmdline::new, (args,), r),
        r matches Ok(cmdline) ==> call_ensures(KernelCmdline::len, (&cmdline,), n),
        starts_blank(args@, rest),
    ensures
        ({
            let text = text_to_read(rest);
            let printable = forall|i: int|
                0 <= i < rest.len() ==> 0x20 <= (#[trigger] rest[i]) as int <= 0x7e;
            &&& !printable ==> r == Err::<KernelCmdline, _>(
                CmdlineError::Insert(InsertError::InvalidAscii),
            )
            &&& printable && text.len() > 0xffff ==> r == Err::<KernelCmdline, _>(
                CmdlineError::Insert(InsertError::TooLarge),
            )
            &&& printable && text.len() <= 0xffff ==> {
                &&& r is Ok
                &&& r->Ok_0@.len() == text.len()
                &&& forall|i: int|
                    0 <= i < text.len() ==> #[trigger] r->Ok_0@[i] == text[i] as int
                &&& n is Ok && n->Ok_0 == text.len()
            }
        }),
{
    kernel_text_is_text_to_read(args@, rest);
    let text = text_to_read(rest);
    if is_printable(text) {
        assert forall|i: int| 0 <= i < text.len() implies (#[trigger] text[i]) as u8
            == text[i] as int by {
            assert(' ' <= text[i] <= '~');
        }
    }
}

} // verus!
