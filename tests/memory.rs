use kernel_boot::memory::paging::{walk, MemoryManager, PageHierarchy, TableFrame, WalkRecord};
use kernel_boot::memory::pmm::PMM;
use kernel_boot::memory::{
    align_up, build_boot_tables, init_memory, relocate_mb2_at_addr, sign_extend_48, BootInfo,
    VirtAddress, PD_FRAME, PDPT_FRAME, PML4_FRAME,
};

fn boot_info() -> BootInfo {
    BootInfo {
        mb2: 0x0009_0000,
        gdt: 0x0020_1000,
        kp_start: 0x0020_7000,
        kp_end: 0x0030_0000,
        kv_start: 0xFFFF_8000_0000_0000,
        kv_end: 0xFFFF_8000_0030_0000,
    }
}

#[test]
fn sign_extension_edges() {
    assert_eq!(sign_extend_48(0x0000_7FFF_FFFF_FFFF), 0x0000_7FFF_FFFF_FFFF);
    assert_eq!(sign_extend_48(0x0000_8000_0000_0000), 0xFFFF_8000_0000_0000);
    assert_eq!(sign_extend_48(0), 0);
    assert_eq!(sign_extend_48(0x0000_FFFF_FFFF_FFFF), 0xFFFF_FFFF_FFFF_FFFF);
    assert_eq!(sign_extend_48(0xFFFF_8000_0000_0000), 0xFFFF_8000_0000_0000);
}

#[test]
fn align_up_values() {
    assert_eq!(align_up(0, 4096), 0);
    assert_eq!(align_up(1, 4096), 4096);
    assert_eq!(align_up(4096, 4096), 4096);
    assert_eq!(align_up(4097, 4096), 8192);
    assert_eq!(align_up(0x20_0001, 0x20_0000), 0x40_0000);
    assert_eq!(align_up(7, 1), 7);
}

#[test]
fn relocation_moves_only_the_block_pointer() {
    let mut info = boot_info();
    relocate_mb2_at_addr(&mut info, 0xFFFF_8000_0040_0000);
    let mut expected = boot_info();
    expected.mb2 = 0xFFFF_8000_0040_0000;
    assert_eq!(info, expected);
}

#[test]
fn boot_tables_for_higher_half() {
    let mut info = boot_info();
    let h = init_memory(&mut info);
    assert_eq!(info.mb2, 0xFFFF_8000_0030_0000);
    assert_eq!(info.kv_start, 0xFFFF_8000_0000_0000);
    assert_eq!(h.root, PML4_FRAME);
    assert_eq!(h.frames.len(), 3);
    let pml4 = &h.frames[0];
    assert_eq!(pml4.phys, 0x10_0000);
    for i in 0..512 {
        let want = match i {
            256 => 0x10_1003,
            511 => 0x10_0001,
            _ => 0,
        };
        assert_eq!(pml4.entries[i], want, "pml4 {}", i);
    }
    let pdpt = &h.frames[1];
    assert_eq!(pdpt.phys, PDPT_FRAME);
    for i in 0..512 {
        assert_eq!(pdpt.entries[i], if i == 0 { 0x10_2003 } else { 0 }, "pdpt {}", i);
    }
    let pd = &h.frames[2];
    assert_eq!(pd.phys, PD_FRAME);
    assert_eq!(pd.entries[0], 0x83);
    assert_eq!(pd.entries[1], 0x20_0083);
    for i in 2..512 {
        assert_eq!(pd.entries[i], 0);
    }
}

#[test]
fn boot_tables_use_the_address_indices() {
    // top-level index 0x1AB, upper-level index 0x155
    let kv = 0xFFFF_D5D5_4000_0000u64;
    let h = build_boot_tables(kv);
    assert_eq!(h.frames[0].entries[0x1AB], PDPT_FRAME | 3);
    assert_eq!(h.frames[0].entries[511], PML4_FRAME | 1);
    assert_eq!(h.frames[1].entries[0x155], PD_FRAME | 3);
    assert_eq!(h.frames[1].entries[0], 0);
}

#[test]
fn walk_of_boot_tables() {
    let mut info = boot_info();
    let h = init_memory(&mut info);
    let r = walk(&h);
    assert_eq!(r.len(), 1546);
    assert_eq!(r[0], WalkRecord::Pml4 { index: 256, paddr: 0x10_1000 });
    assert_eq!(r[1], WalkRecord::Pdpt { index: 0, paddr: 0x10_2000 });
    assert_eq!(
        r[2],
        WalkRecord::PdHuge { index: 0, paddr: 0, vaddr: 0xFFFF_8000_0000_0000 }
    );
    assert_eq!(
        r[3],
        WalkRecord::PdHuge { index: 1, paddr: 0x20_0000, vaddr: 0xFFFF_8000_0020_0000 }
    );
    assert_eq!(r[4], WalkRecord::Pml4 { index: 511, paddr: 0x10_0000 });
    assert_eq!(r[5], WalkRecord::Pdpt { index: 256, paddr: 0x10_1000 });
    assert_eq!(r[6], WalkRecord::Pd { index: 0, paddr: 0x10_2000 });
    assert_eq!(r[7], WalkRecord::Pt { index: 0, paddr: 0 });
    assert_eq!(r[8], WalkRecord::Pt { index: 1, paddr: 0x20_0000 });
    assert_eq!(r[518], WalkRecord::Pt { index: 511, paddr: 0 });
    assert_eq!(r[519], WalkRecord::Pdpt { index: 511, paddr: 0x10_0000 });
    assert_eq!(r[520], WalkRecord::Pd { index: 256, paddr: 0x10_1000 });
    assert_eq!(r[521], WalkRecord::Pt { index: 0, paddr: 0x10_2000 });
    assert_eq!(r[1033], WalkRecord::Pd { index: 511, paddr: 0x10_0000 });
    assert_eq!(r[1034 + 256], WalkRecord::Pt { index: 256, paddr: 0x10_1000 });
    assert_eq!(r[1545], WalkRecord::Pt { index: 511, paddr: 0x10_0000 });
}

#[test]
fn walk_twice_gives_same_records_and_leaves_tables() {
    let h = build_boot_tables(0xFFFF_8000_0000_0000);
    let before = h.clone();
    let a = walk(&h);
    let b = walk(&h);
    assert_eq!(a, b);
    assert_eq!(h.root, before.root);
    for (x, y) in h.frames.iter().zip(before.frames.iter()) {
        assert_eq!(x.phys, y.phys);
        assert_eq!(x.entries, y.entries);
    }
    let (_mm, c) = MemoryManager::new(&h);
    assert_eq!(a, c);
}

#[test]
fn walk_reports_upper_level_huge_page_and_skips_absent_tables() {
    let mut top = [0u64; 512];
    top[0] = 0x5000 | 1;
    top[1] = 0x9000 | 1; // no frame holds this table
    top[2] = 0x6000; // not present
    let mut upper = [0u64; 512];
    upper[3] = 0x4000_0000 | 0x83;
    let h = PageHierarchy {
        root: 0x1000,
        frames: vec![
            TableFrame { phys: 0x1000, entries: top },
            TableFrame { phys: 0x5000, entries: upper },
        ],
    };
    let r = walk(&h);
    assert_eq!(
        r,
        vec![
            WalkRecord::Pml4 { index: 0, paddr: 0x5000 },
            WalkRecord::PdptHuge { index: 3, paddr: 0x4000_0000 },
            WalkRecord::Pml4 { index: 1, paddr: 0x9000 },
        ]
    );
    let empty = PageHierarchy { root: 0x7000, frames: vec![] };
    assert!(walk(&empty).is_empty());
}

#[test]
fn virt_address_conversions() {
    let v = VirtAddress::new(0xB8000);
    assert_eq!(v.as_usize(), 0xB8000);
    assert_eq!(v.as_u64(), 0xB8000u64);
}

#[test]
fn frame_allocator_starts_empty() {
    let _p = PMM::new(0x20_0000..0x40_0000);
}
