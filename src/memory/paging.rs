use crate::memory::{sign_extend_48, spec_sign_extend_48};
use vstd::prelude::*;

verus! {

/// Entries per table at every level.
pub const TABLE_ENTRIES: usize = 512;

/// Present bit of an entry.
pub const ENTRY_PRESENT: u64 = 0x1;

/// Writable bit of an entry.
pub const ENTRY_WRITABLE: u64 = 0x2;

/// User-accessible bit of an entry.
pub const ENTRY_USER: u64 = 0x4;

/// Huge-page bit: the entry maps memory directly and ends the walk.
pub const ENTRY_HUGE: u64 = 0x80;

/// The physical-address bits of an entry: 4 KiB aligned, below 2^52.
pub const ADDRESS_MASK: u64 = 0x000F_FFFF_FFFF_F000;

pub open spec fn entry_present(e: u64) -> bool {
    e & ENTRY_PRESENT != 0
}

pub open spec fn entry_huge(e: u64) -> bool {
    e & ENTRY_HUGE != 0
}

pub open spec fn entry_addr(e: u64) -> u64 {
    e & ADDRESS_MASK
}

/// One page table and the physical frame that holds it.
#[derive(Clone, Copy)]
pub struct TableFrame {
    pub phys: u64,
    pub entries: [u64; 512],
}

/// Page tables by the frames that hold them, and the frame of the top-level
/// table.
#[derive(Clone)]
pub struct PageHierarchy {
    pub root: u64,
    pub frames: Vec<TableFrame>,
}

/// The frames as (physical address, entries) pairs.
pub open spec fn frames_view(frames: Seq<TableFrame>) -> Seq<(u64, Seq<u64>)> {
    frames.map_values(|f: TableFrame| (f.phys, f.entries@))
}

impl PageHierarchy {
    pub open spec fn frames_view(&self) -> Seq<(u64, Seq<u64>)> {
        frames_view(self.frames@)
    }
}

/// The entries of the first frame at physical address `pa`.
pub open spec fn table_at(fv: Seq<(u64, Seq<u64>)>, pa: u64) -> Option<Seq<u64>>
    decreases fv.len(),
{
    if fv.len() == 0 {
        None
    } else if fv[0].0 == pa {
        Some(fv[0].1)
    } else {
        table_at(fv.drop_first(), pa)
    }
}

/// What the walker reports of one entry.
#[derive(Clone, Copy, Debug, PartialEq, Eq, Structural)]
pub enum WalkRecord {
    /// A present top-level entry and the address of its upper-level table.
    Pml4 { index: usize, paddr: u64 },
    /// A present upper-level entry that maps a huge page.
    PdptHuge { index: usize, paddr: u64 },
    /// A present upper-level entry and the address of its middle-level table.
    Pdpt { index: usize, paddr: u64 },
    /// A present middle-level entry that maps a huge page, with the virtual
    /// address its path of indices spells.
    PdHuge { index: usize, paddr: u64, vaddr: u64 },
    /// A present middle-level entry and the address of its page table.
    Pd { index: usize, paddr: u64 },
    /// An entry of a page table, present or not.
    Pt { index: usize, paddr: u64 },
}

/// The virtual address whose top-level, upper-level and middle-level indices
/// are the given ones, before sign extension.
pub open spec fn path_vaddr(i4: u64, i3: u64, i2: u64) -> u64 {
    (i4 << 39u64) | (i3 << 30u64) | (i2 << 21u64)
}

pub open spec fn pt_records(t: Seq<u64>, n: int) -> Seq<WalkRecord>
    decreases n,
{
    if n <= 0 {
        Seq::empty()
    } else {
        pt_records(t, n - 1).push(WalkRecord::Pt { index: (n - 1) as usize, paddr: entry_addr(t[n - 1]) })
    }
}

pub open spec fn pd_slot(fv: Seq<(u64, Seq<u64>)>, t: Seq<u64>, i4: int, i3: int, i2: int) -> Seq<WalkRecord> {
    let e = t[i2];
    if !entry_present(e) {
        Seq::empty()
    } else if entry_huge(e) {
        seq![WalkRecord::PdHuge {
            index: i2 as usize,
            paddr: entry_addr(e),
            vaddr: spec_sign_extend_48(path_vaddr(i4 as u64, i3 as u64, i2 as u64)),
        }]
    } else {
        seq![WalkRecord::Pd { index: i2 as usize, paddr: entry_addr(e) }] + match table_at(fv, entry_addr(e)) {
            Some(pt) => pt_records(pt, 512),
            None => Seq::empty(),
        }
    }
}

pub open spec fn pd_records(fv: Seq<(u64, Seq<u64>)>, t: Seq<u64>, i4: int, i3: int, n: int) -> Seq<WalkRecord>
    decreases n,
{
    if n <= 0 {
        Seq::empty()
    } else {
        pd_records(fv, t, i4, i3, n - 1) + pd_slot(fv, t, i4, i3, n - 1)
    }
}

pub open spec fn pdpt_slot(fv: Seq<(u64, Seq<u64>)>, t: Seq<u64>, i4: int, i3: int) -> Seq<WalkRecord> {
    let e = t[i3];
    if !entry_present(e) {
        Seq::empty()
    } else if entry_huge(e) {
        seq![WalkRecord::PdptHuge { index: i3 as usize, paddr: entry_addr(e) }]
    } else {
        seq![WalkRecord::Pdpt { index: i3 as usize, paddr: entry_addr(e) }] + match table_at(fv, entry_addr(e)) {
            Some(pd) => pd_records(fv, pd, i4, i3, 512),
            None => Seq::empty(),
        }
    }
}

pub open spec fn pdpt_records(fv: Seq<(u64, Seq<u64>)>, t: Seq<u64>, i4: int, n: int) -> Seq<WalkRecord>
    decreases n,
{
    if n <= 0 {
        Seq::empty()
    } else {
        pdpt_records(fv, t, i4, n - 1) + pdpt_slot(fv, t, i4, n - 1)
    }
}

pub open spec fn pml4_slot(fv: Seq<(u64, Seq<u64>)>, t: Seq<u64>, i4: int) -> Seq<WalkRecord> {
    let e = t[i4];
    if !entry_present(e) {
        Seq::empty()
    } else {
        seq![WalkRecord::Pml4 { index: i4 as usize, paddr: entry_addr(e) }] + match table_at(fv, entry_addr(e)) {
            Some(pdpt) => pdpt_records(fv, pdpt, i4, 512),
            None => Seq::empty(),
        }
    }
}

pub open spec fn pml4_records(fv: Seq<(u64, Seq<u64>)>, t: Seq<u64>, n: int) -> Seq<WalkRecord>
    decreases n,
{
    if n <= 0 {
        Seq::empty()
    } else {
        pml4_records(fv, t, n - 1) + pml4_slot(fv, t, n - 1)
    }
}

/// Everything the walker reports of a hierarchy, in walk order: depth first,
/// entries in index order.
pub open spec fn walk_records(root: u64, fv: Seq<(u64, Seq<u64>)>) -> Seq<WalkRecord> {
    match table_at(fv, root) {
        Some(t) => pml4_records(fv, t, 512),
        None => Seq::empty(),
    }
}

/// The position of the first frame at `pa`.
fn find_table(frames: &Vec<TableFrame>, pa: u64) -> (r: Option<usize>)
    ensures
        match r {
            Some(i) => i < frames@.len() && table_at(frames_view(frames@), pa) == Some(
                frames@[i as int].entries@,
            ),
            None => table_at(frames_view(frames@), pa).is_none(),
        },
{
    let ghost fv = frames_view(frames@);
    assert(fv.subrange(0, fv.len() as int) =~= fv);
    let mut i: usize = 0;
    while i < frames.len()
        invariant
            i <= frames@.len(),
            fv == frames_view(frames@),
            table_at(fv, pa) == table_at(fv.subrange(i as int, fv.len() as int), pa),
        decreases frames@.len() - i,
    {
        let ghost rest = fv.subrange(i as int, fv.len() as int);
        assert(rest.drop_first() =~= fv.subrange(i + 1, fv.len() as int));
        if frames[i].phys == pa {
            return Some(i);
        }
        i = i + 1;
    }
    None
}

fn walk_pt(t: &[u64; 512], out: &mut Vec<WalkRecord>)
    ensures
        final(out)@ == old(out)@ + pt_records(t@, 512),
{
    let ghost before = out@;
    let mut i: usize = 0;
    while i < TABLE_ENTRIES
        invariant
            i <= 512,
            out@ == before + pt_records(t@, i as int),
        decreases 512 - i,
    {
        out.push(WalkRecord::Pt { index: i, paddr: t[i] & ADDRESS_MASK });
        i = i + 1;
        assert(out@ =~= before + pt_records(t@, i as int));
    }
}

fn walk_pd(h: &PageHierarchy, t: &[u64; 512], i4: usize, i3: usize, out: &mut Vec<WalkRecord>)
    requires
        i4 < 512,
        i3 < 512,
    ensures
        final(out)@ == old(out)@ + pd_records(h.frames_view(), t@, i4 as int, i3 as int, 512),
{
    let ghost before = out@;
    let ghost fv = h.frames_view();
    let mut i: usize = 0;
    while i < TABLE_ENTRIES
        invariant
            i <= 512,
            i4 < 512,
            i3 < 512,
            fv == h.frames_view(),
            out@ == before + pd_records(fv, t@, i4 as int, i3 as int, i as int),
        decreases 512 - i,
    {
        let ghost mid = out@;
        let e = t[i];
        if e & ENTRY_PRESENT != 0 {
            if e & ENTRY_HUGE != 0 {
                let va = sign_extend_48(((i4 as u64) << 39u64) | ((i3 as u64) << 30u64) | ((i as u64) << 21u64));
                out.push(WalkRecord::PdHuge { index: i, paddr: e & ADDRESS_MASK, vaddr: va });
            } else {
                out.push(WalkRecord::Pd { index: i, paddr: e & ADDRESS_MASK });
                match find_table(&h.frames, e & ADDRESS_MASK) {
                    Some(k) => {
                        walk_pt(&h.frames[k].entries, out);
                    },
                    None => {},
                }
            }
        }
        assert(out@ =~= mid + pd_slot(fv, t@, i4 as int, i3 as int, i as int));
        i = i + 1;
        assert(out@ =~= before + pd_records(fv, t@, i4 as int, i3 as int, i as int));
    }
}

fn walk_pdpt(h: &PageHierarchy, t: &[u64; 512], i4: usize, out: &mut Vec<WalkRecord>)
    requires
        i4 < 512,
    ensures
        final(out)@ == old(out)@ + pdpt_records(h.frames_view(), t@, i4 as int, 512),
{
    let ghost before = out@;
    let ghost fv = h.frames_view();
    let mut i: usize = 0;
    while i < TABLE_ENTRIES
        invariant
            i <= 512,
            i4 < 512,
            fv == h.frames_view(),
            out@ == before + pdpt_records(fv, t@, i4 as int, i as int),
        decreases 512 - i,
    {
        let ghost mid = out@;
        let e = t[i];
        if e & ENTRY_PRESENT != 0 {
            if e & ENTRY_HUGE != 0 {
                out.push(WalkRecord::PdptHuge { index: i, paddr: e & ADDRESS_MASK });
            } else {
                out.push(WalkRecord::Pdpt { index: i, paddr: e & ADDRESS_MASK });
                match find_table(&h.frames, e & ADDRESS_MASK) {
                    Some(k) => {
                        walk_pd(h, &h.frames[k].entries, i4, i, out);
                    },
                    None => {},
                }
            }
        }
        assert(out@ =~= mid + pdpt_slot(fv, t@, i4 as int, i as int));
        i = i + 1;
        assert(out@ =~= before + pdpt_records(fv, t@, i4 as int, i as int));
    }
}

fn walk_pml4(h: &PageHierarchy, t: &[u64; 512], out: &mut Vec<WalkRecord>)
    ensures
        final(out)@ == old(out)@ + pml4_records(h.frames_view(), t@, 512),
{
    let ghost before = out@;
    let ghost fv = h.frames_view();
    let mut i: usize = 0;
    while i < TABLE_ENTRIES
        invariant
            i <= 512,
            fv == h.frames_view(),
            out@ == before + pml4_records(fv, t@, i as int),
        decreases 512 - i,
    {
        let ghost mid = out@;
        let e = t[i];
        if e & ENTRY_PRESENT != 0 {
            out.push(WalkRecord::Pml4 { index: i, paddr: e & ADDRESS_MASK });
            match find_table(&h.frames, e & ADDRESS_MASK) {
                Some(k) => {
                    walk_pdpt(h, &h.frames[k].entries, i, out);
                },
                None => {},
            }
        }
        assert(out@ =~= mid + pml4_slot(fv, t@, i as int));
        i = i + 1;
        assert(out@ =~= before + pml4_records(fv, t@, i as int));
    }
}

/// Walks every present entry of the hierarchy from its root, descending into
/// the tables it finds among the frames, and reports each entry it visits.
/// The hierarchy is only read.
pub fn walk(h: &PageHierarchy) -> (r: Vec<WalkRecord>)
    ensures
        r@ == walk_records(h.root, h.frames_view()),
{
    let mut out: Vec<WalkRecord> = Vec::new();
    match find_table(&h.frames, h.root) {
        Some(k) => {
            walk_pml4(h, &h.frames[k].entries, &mut out);
        },
        None => {},
    }
    proof {
        assert(out@ =~= walk_records(h.root, h.frames_view()));
    }
    out
}

/// Diagnostic view of the active address space.
pub struct MemoryManager {}

impl MemoryManager {
    /// Walks the active hierarchy and hands back what the walk reports.
    pub fn new(h: &PageHierarchy) -> (r: (MemoryManager, Vec<WalkRecord>))
        ensures
            r.1@ == walk_records(h.root, h.frames_view()),
    {
        let records = walk(h);
        (MemoryManager {}, records)
    }
}

/// The walk reads the hierarchy only: two walks of hierarchies with the same
/// root and the same frame contents report the same records.
pub proof fn lemma_walk_repeatable(h1: PageHierarchy, h2: PageHierarchy)
    requires
        h1.root == h2.root,
        h1.frames_view() == h2.frames_view(),
    ensures
        walk_records(h1.root, h1.frames_view()) == walk_records(h2.root, h2.frames_view()),
{
}

} // verus!
