use kernel_boot::interrupts::{
    IDTEntry, IDTEntryOptions, IntHandler, IntHandlerDvrgWithErrCode, IntHandlerWithErrCode,
    InterruptDescriptorTable, InterruptGateType, PageFaultInfo, IDT_LIMIT,
};

#[test]
fn fresh_table_has_no_present_vector() {
    let idt = InterruptDescriptorTable::new();
    for v in 0..=255u8 {
        let g = idt.gate(v);
        assert!(!g.options.get_present(), "vector {}", v);
        assert_eq!(g.address, 0);
        assert_eq!(g.selector, 0);
    }
    assert!(!idt.keyboard.options().get_present());
    assert!(!idt.double_fault.options().get_present());
}

#[test]
fn missing_entry_is_all_zero_but_interrupt_kind() {
    let e: IDTEntry<IntHandler> = IDTEntry::missing();
    assert_eq!(e.to_bytes(), vec![0, 0, 0, 0, 0, 0x0E, 0, 0, 0, 0, 0, 0, 0, 0, 0, 0]);
    assert!(matches!(e.options().get_gate_type(), InterruptGateType::Interrupt));
}

#[test]
fn handler_address_and_selector_round_trip() {
    let addrs = [0u64, 1, 0xFFFF, 0x1_0000, 0xDEAD_BEEF, 0x1122_3344_5566_7788, u64::MAX];
    for &a in addrs.iter() {
        let mut e: IDTEntry<IntHandler> = IDTEntry::missing();
        e.set_handler_address(a, 0x08);
        let g = e.gate();
        assert_eq!(g.address, a);
        assert_eq!(g.selector, 0x08);
        assert!(g.options.get_present());
        assert!(matches!(g.options.get_gate_type(), InterruptGateType::Interrupt));
    }
}

#[test]
fn set_handler_uses_current_code_segment() {
    let cs = x86::segmentation::cs().bits();
    let mut idt = InterruptDescriptorTable::new();
    idt.keyboard.set_handler(IntHandler(0xFFFF_8000_0012_3456));
    idt.page_fault.set_handler(IntHandlerWithErrCode(0xFFFF_8000_0000_1000));
    idt.double_fault.set_handler(IntHandlerDvrgWithErrCode(0x0000_7FFF_0000_2000));
    let k = idt.gate(33);
    assert_eq!(k.address, 0xFFFF_8000_0012_3456);
    assert_eq!(k.selector, cs);
    assert!(k.options.get_present());
    assert_eq!(idt.gate(14).address, 0xFFFF_8000_0000_1000);
    assert_eq!(idt.gate(14).selector, cs);
    assert_eq!(idt.gate(8).address, 0x0000_7FFF_0000_2000);
    for v in 0..=255u8 {
        if v != 33 && v != 14 && v != 8 {
            assert!(!idt.gate(v).options.get_present(), "vector {}", v);
        }
    }
}

#[test]
fn entry_image_layout() {
    let mut e: IDTEntry<IntHandler> = IDTEntry::missing();
    e.set_handler_address(0x1122_3344_5566_7788, 0x0008);
    assert_eq!(
        e.to_bytes(),
        vec![0x88, 0x77, 0x08, 0x00, 0x00, 0x8E, 0x66, 0x55, 0x44, 0x33, 0x22, 0x11, 0, 0, 0, 0]
    );
}

#[test]
fn table_image_places_each_vector() {
    let mut idt = InterruptDescriptorTable::new();
    idt.keyboard.set_handler(IntHandler(0xABCD));
    let bytes = idt.to_bytes();
    assert_eq!(bytes.len(), 4096);
    assert_eq!(bytes.len(), IDT_LIMIT as usize + 1);
    assert_eq!(bytes[33 * 16], 0xCD);
    assert_eq!(bytes[33 * 16 + 1], 0xAB);
    assert_eq!(bytes[33 * 16 + 5], 0x8E);
    assert_eq!(bytes[32 * 16 + 5], 0x0E);
    assert_eq!(bytes[34 * 16 + 5], 0x0E);
}

#[test]
fn options_round_trip_all_values() {
    for gt in [InterruptGateType::Interrupt, InterruptGateType::Trap] {
        for present in [false, true] {
            for dpl in 0..=3u8 {
                for ist in 0..=7u8 {
                    let mut o = IDTEntryOptions::new(gt, present);
                    o.set_dpl(dpl);
                    o.set_ist_offset(ist);
                    assert_eq!(o.get_gate_type(), gt);
                    assert_eq!(o.get_present(), present);
                    assert_eq!(o.get_dpl(), dpl);
                    assert_eq!(o.get_ist_offset(), ist);
                }
            }
        }
    }
}

#[test]
fn options_setters_are_additive_or_replacing() {
    let mut o = IDTEntryOptions::new(InterruptGateType::Trap, true);
    assert_eq!(o.attr_raw(), 0x8F);
    o.set_ist_offset(0b001);
    o.set_ist_offset(0b110);
    assert_eq!(o.get_ist_offset(), 0b111);
    o.set_ist_offset(0xF8);
    assert_eq!(o.get_ist_offset(), 0b111);
    o.set_dpl(1);
    o.set_dpl(2);
    assert_eq!(o.get_dpl(), 3);
    o.set_gate_type(InterruptGateType::Interrupt);
    assert_eq!(o.get_gate_type(), InterruptGateType::Interrupt);
    assert_eq!(o.attr_raw(), 0x8E | 0x60);
    o.set_present(false);
    assert!(!o.get_present());
    assert_eq!(o.attr_raw(), 0x6E);
}

#[test]
fn page_fault_present_only() {
    let i = PageFaultInfo::from_err_code(0b1);
    assert_eq!(
        i,
        PageFaultInfo {
            present: true,
            write: false,
            user: false,
            reserved_write: false,
            instr_fetch: false,
            protection: false,
            shadow_stack: false,
            software_guard_ext: false,
        }
    );
}

#[test]
fn page_fault_write_and_fetch() {
    let i = PageFaultInfo::from_err_code((1 << 4) | (1 << 1));
    assert_eq!(
        i,
        PageFaultInfo {
            present: false,
            write: true,
            user: false,
            reserved_write: false,
            instr_fetch: true,
            protection: false,
            shadow_stack: false,
            software_guard_ext: false,
        }
    );
}

#[test]
fn page_fault_sgx_bit() {
    let i = PageFaultInfo::from_err_code(1 << 15);
    assert!(i.software_guard_ext);
    assert!(!i.present && !i.write && !i.user && !i.reserved_write);
    assert!(!i.instr_fetch && !i.protection && !i.shadow_stack);
    let all = PageFaultInfo::from_err_code(0x807F);
    assert!(all.present && all.write && all.user && all.reserved_write);
    assert!(all.instr_fetch && all.protection && all.shadow_stack && all.software_guard_ext);
    let none = PageFaultInfo::from_err_code(!0x807Fu64);
    assert!(!none.present && !none.write && !none.software_guard_ext);
}
