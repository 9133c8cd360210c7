pub mod paging;
pub mod pmm;

use crate::memory::paging::{
    PageHierarchy, TableFrame, ADDRESS_MASK, ENTRY_HUGE, ENTRY_PRESENT, ENTRY_WRITABLE,
};
use vstd::prelude::*;
use x86::bits64::paging::{PAddr, PDEntry, PDFlags, PDPTEntry, PDPTFlags, PML4Entry, PML4Flags, VAddr};

verus! {

/// Physical frame of the top-level table built at boot.
pub const PML4_FRAME: u64 = 0x100000;

/// Physical frame of the upper-level table built at boot.
pub const PDPT_FRAME: u64 = 0x101000;

/// Physical frame of the middle-level table built at boot.
pub const PD_FRAME: u64 = 0x102000;

/// Size of a page mapped by a middle-level huge entry: 2 MiB.
pub const LARGE_PAGE_SIZE: u64 = 0x200000;

/// Top-level slot that points back at the top-level table.
pub const RECURSIVE_SLOT: usize = 511;

/// Sign extension from bit 47 as this kernel applies it: addresses up to
/// 0x0000_7FFF_FFFF_FFFF are kept, larger ones get their top 16 bits set.
pub open spec fn spec_sign_extend_48(addr: u64) -> u64 {
    if addr > 0x0000_7FFF_FFFF_FFFF {
        addr | 0xFFFF_0000_0000_0000
    } else {
        addr
    }
}

/// A 64-bit address whose bits 47 to 63 are all equal.
pub open spec fn is_canonical(addr: u64) -> bool {
    addr >> 47u64 == 0 || addr >> 47u64 == 0x1FFFF
}

/// Makes an address canonical by copying bit 47 into bits 48-63.
pub fn sign_extend_48(addr: u64) -> (r: u64)
    ensures
        r == spec_sign_extend_48(addr),
        addr < 0x1_0000_0000_0000 ==> is_canonical(r) && r & 0xFFFF_FFFF_FFFF == addr,
{
    proof {
        assert(addr < 0x1_0000_0000_0000 ==> is_canonical(spec_sign_extend_48(addr))
            && spec_sign_extend_48(addr) & 0xFFFF_FFFF_FFFF == addr) by (bit_vector);
        assert(addr <= 0x0000_7FFF_FFFF_FFFF ==> addr & 0x0000_FFFF_FFFF_FFFF == addr)
            by (bit_vector);
    }
    if addr > 0x0000_7FFF_FFFF_FFFF {
        addr | 0xFFFF_0000_0000_0000
    } else {
        addr & 0x0000_FFFF_FFFF_FFFF
    }
}

/// Rounds `addr` up to the next multiple of `align`, a power of two.
pub fn align_up(addr: u64, align: u64) -> (r: u64)
    requires
        align != 0,
        align & ((align - 1) as u64) == 0,
        addr + align - 1 <= u64::MAX,
    ensures
        r & ((align - 1) as u64) == 0,
        addr <= r,
        r - addr < align,
{
    let align_mask = align - 1;
    proof {
        let m = align_mask;
        assert(addr & m != 0 ==> (addr | m) < u64::MAX && ((addr | m) + 1) as u64 & m == 0
            && addr < (addr | m) + 1 && ((addr | m) + 1) as u64 - addr < align) by (bit_vector)
            requires
                align != 0,
                m == align - 1,
                align & m == 0,
                addr + align - 1 <= u64::MAX,
        ;
    }
    if addr & align_mask == 0 {
        addr
    } else {
        (addr | align_mask) + 1
    }
}

/// A virtual address.
#[derive(Clone, Copy, PartialEq, Eq, Structural, Debug)]
pub struct VirtAddress(usize);

impl VirtAddress {
    pub fn new(addr: usize) -> (r: Self)
        ensures
            r.spec_value() == addr,
    {
        VirtAddress(addr)
    }

    pub closed spec fn spec_value(self) -> usize {
        self.0
    }

    pub fn as_usize(self) -> (r: usize)
        ensures
            r == self.spec_value(),
    {
        self.0
    }

    pub fn as_u64(self) -> (r: u64)
        ensures
            r == self.spec_value() as u64,
    {
        self.0 as u64
    }
}

/// What the earlier boot stage hands over: where the bootloader's information
/// block is, the bootstrap descriptor table, and the kernel's physical and
/// virtual bounds.
#[derive(Clone, Copy, Debug, PartialEq, Eq, Structural)]
pub struct BootInfo {
    /// Address of the bootloader's information block.
    pub mb2: u64,
    /// Physical address of the bootstrap segment descriptor table.
    pub gdt: u64,
    /// Kernel physical start.
    pub kp_start: u64,
    /// Kernel physical end.
    pub kp_end: u64,
    /// Kernel virtual start.
    pub kv_start: u64,
    /// Kernel virtual end.
    pub kv_end: u64,
}

/// Points the information-block field at `addr`, where the block has been
/// copied; nothing else changes.
pub fn relocate_mb2_at_addr(info: &mut BootInfo, addr: u64)
    ensures
        *final(info) == (BootInfo { mb2: addr, ..*old(info) }),
{
    info.mb2 = addr;
}

/// Relies on x86::bits64::paging::pml4_index: bits 39-47 of the address.
#[verifier::external_body]
fn pml4_index(va: u64) -> (r: usize)
    ensures
        r == (va >> 39u64) & 0x1FF,
{
    x86::bits64::paging::pml4_index(VAddr(va))
}

/// Relies on x86::bits64::paging::pdpt_index: bits 30-38 of the address.
#[verifier::external_body]
fn pdpt_index(va: u64) -> (r: usize)
    ensures
        r == (va >> 30u64) & 0x1FF,
{
    x86::bits64::paging::pdpt_index(VAddr(va))
}

/// Relies on x86::bits64::paging::PML4Entry::new: the table address ORed with
/// the flag bits (it panics on an address outside the address bits).
#[verifier::external_body]
fn pml4_entry(table: u64, flags: u64) -> (r: u64)
    requires
        table & ADDRESS_MASK == table,
        flags & !0x7u64 == 0,
    ensures
        r == table | flags,
{
    PML4Entry::new(PAddr(table), PML4Flags::from_bits_truncate(flags)).0
}

/// Relies on x86::bits64::paging::PDPTEntry::new: the table address ORed with
/// the flag bits (it panics on an address outside the address bits).
#[verifier::external_body]
fn pdpt_entry(table: u64, flags: u64) -> (r: u64)
    requires
        table & ADDRESS_MASK == table,
        flags & !0x87u64 == 0,
    ensures
        r == table | flags,
{
    PDPTEntry::new(PAddr(table), PDPTFlags::from_bits_truncate(flags)).0
}

/// Relies on x86::bits64::paging::PDEntry::new: the frame address ORed with
/// the flag bits (it panics on an address outside the address bits).
#[verifier::external_body]
fn pd_entry(frame: u64, flags: u64) -> (r: u64)
    requires
        frame & ADDRESS_MASK == frame,
        flags & !0x87u64 == 0,
    ensures
        r == frame | flags,
{
    PDEntry::new(PAddr(frame), PDFlags::from_bits_truncate(flags)).0
}

/// A table of 512 empty entries.
pub open spec fn empty_table() -> Seq<u64> {
    Seq::new(512, |i: int| 0u64)
}

/// The top-level table built at boot: the slot of the kernel's virtual start
/// points to the upper-level table, and the last slot back to itself.
pub open spec fn boot_pml4(kv_start: u64) -> Seq<u64> {
    empty_table().update(
        ((kv_start >> 39u64) & 0x1FF) as int,
        PDPT_FRAME | (ENTRY_PRESENT | ENTRY_WRITABLE),
    ).update(RECURSIVE_SLOT as int, PML4_FRAME | ENTRY_PRESENT)
}

/// The upper-level table built at boot: the 1 GiB slot of the kernel's virtual
/// start points to the middle-level table.
pub open spec fn boot_pdpt(kv_start: u64) -> Seq<u64> {
    empty_table().update(
        ((kv_start >> 30u64) & 0x1FF) as int,
        PD_FRAME | (ENTRY_PRESENT | ENTRY_WRITABLE),
    )
}

/// The middle-level table built at boot: two present, writable huge pages
/// mapping the first two 2 MiB units of physical memory.
pub open spec fn boot_pd() -> Seq<u64> {
    empty_table().update(0, 0 | (ENTRY_PRESENT | ENTRY_WRITABLE | ENTRY_HUGE)).update(
        1,
        LARGE_PAGE_SIZE | (ENTRY_PRESENT | ENTRY_WRITABLE | ENTRY_HUGE),
    )
}

/// Builds the boot page-table hierarchy for a kernel whose virtual window
/// starts at `kv_start`, in the three fixed frames, rooted at the top-level
/// one.
pub fn build_boot_tables(kv_start: u64) -> (r: PageHierarchy)
    ensures
        r.root == PML4_FRAME,
        r.frames_view() == seq![
            (PML4_FRAME, boot_pml4(kv_start)),
            (PDPT_FRAME, boot_pdpt(kv_start)),
            (PD_FRAME, boot_pd()),
        ],
{
    proof {
        assert(PDPT_FRAME & ADDRESS_MASK == PDPT_FRAME) by (bit_vector);
        assert(PML4_FRAME & ADDRESS_MASK == PML4_FRAME) by (bit_vector);
        assert(PD_FRAME & ADDRESS_MASK == PD_FRAME) by (bit_vector);
        assert(0u64 & ADDRESS_MASK == 0u64) by (bit_vector);
        assert(LARGE_PAGE_SIZE & ADDRESS_MASK == LARGE_PAGE_SIZE) by (bit_vector);
        assert((ENTRY_PRESENT | ENTRY_WRITABLE) & !0x7u64 == 0) by (bit_vector);
        assert(ENTRY_PRESENT & !0x7u64 == 0) by (bit_vector);
        assert((ENTRY_PRESENT | ENTRY_WRITABLE) & !0x87u64 == 0) by (bit_vector);
        assert((ENTRY_PRESENT | ENTRY_WRITABLE | ENTRY_HUGE) & !0x87u64 == 0) by (bit_vector);
        assert(((kv_start >> 39u64) & 0x1FF) < 512) by (bit_vector);
        assert(((kv_start >> 30u64) & 0x1FF) < 512) by (bit_vector);
    }
    let mut pml4 = [0u64; 512];
    assert(pml4@ =~= empty_table());
    let i4 = pml4_index(kv_start);
    pml4[i4] = pml4_entry(PDPT_FRAME, ENTRY_PRESENT | ENTRY_WRITABLE);
    pml4[RECURSIVE_SLOT] = pml4_entry(PML4_FRAME, ENTRY_PRESENT);
    assert(pml4@ =~= boot_pml4(kv_start));

    let mut pdpt = [0u64; 512];
    assert(pdpt@ =~= empty_table());
    let i3 = pdpt_index(kv_start);
    pdpt[i3] = pdpt_entry(PD_FRAME, ENTRY_PRESENT | ENTRY_WRITABLE);
    assert(pdpt@ =~= boot_pdpt(kv_start));

    let mut pd = [0u64; 512];
    assert(pd@ =~= empty_table());
    let mut i: usize = 0;
    while i < 2
        invariant
            i <= 2,
            pd@ == (if i == 0 {
                empty_table()
            } else if i == 1 {
                empty_table().update(0, 0 | (ENTRY_PRESENT | ENTRY_WRITABLE | ENTRY_HUGE))
            } else {
                boot_pd()
            }),
        decreases 2 - i,
    {
        proof {
            assert(0u64 & ADDRESS_MASK == 0u64) by (bit_vector);
            assert(LARGE_PAGE_SIZE & ADDRESS_MASK == LARGE_PAGE_SIZE) by (bit_vector);
            assert((ENTRY_PRESENT | ENTRY_WRITABLE | ENTRY_HUGE) & !0x87u64 == 0) by (bit_vector);
        }
        let ghost prev = pd@;
        let frame: u64 = (i as u64) * LARGE_PAGE_SIZE;
        let e = pd_entry(frame, ENTRY_PRESENT | ENTRY_WRITABLE | ENTRY_HUGE);
        pd[i] = e;
        assert(pd@ == prev.update(i as int, e));
        i = i + 1;
        proof {
            if i == 1 {
                assert(pd@ =~= empty_table().update(0, 0 | (ENTRY_PRESENT | ENTRY_WRITABLE | ENTRY_HUGE)));
            } else {
                assert(pd@ =~= boot_pd());
            }
        }
    }

    let mut frames: Vec<TableFrame> = Vec::new();
    frames.push(TableFrame { phys: PML4_FRAME, entries: pml4 });
    frames.push(TableFrame { phys: PDPT_FRAME, entries: pdpt });
    frames.push(TableFrame { phys: PD_FRAME, entries: pd });
    let r = PageHierarchy { root: PML4_FRAME, frames };
    proof {
        assert(r.frames_view() =~= seq![
            (PML4_FRAME, boot_pml4(kv_start)),
            (PDPT_FRAME, boot_pdpt(kv_start)),
            (PD_FRAME, boot_pd()),
        ]);
    }
    r
}

/// Boot-time memory set-up: the information block is taken to have been
/// copied to the end of the kernel's virtual window, so its field is pointed
/// there; then the boot page-table hierarchy for the kernel's virtual window
/// is built and returned.
pub fn init_memory(info: &mut BootInfo) -> (r: PageHierarchy)
    ensures
        *final(info) == (BootInfo { mb2: old(info).kv_end, ..*old(info) }),
        r.root == PML4_FRAME,
        r.frames_view() == seq![
            (PML4_FRAME, boot_pml4(old(info).kv_start)),
            (PDPT_FRAME, boot_pdpt(old(info).kv_start)),
            (PD_FRAME, boot_pd()),
        ],
{
    let kv_end = info.kv_end;
    relocate_mb2_at_addr(info, kv_end);
    build_boot_tables(info.kv_start)
}

} // verus!
