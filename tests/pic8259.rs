use kernel_boot::interrupts::{IntHandler, InterruptDescriptorTable};
use kernel_boot::pic8259::{
    clear_pic_iqr_line, irq_dispatched, irq_line_port, pic1_end_of_intr, pic2_end_of_intr,
    remap_pic, set_pic1_mask, set_pic2_mask, set_pic_irq_line, PortWrite, PIC1_CMD, PIC1_DATA,
    PIC2_CMD, PIC2_DATA,
};

#[test]
fn remap_writes_in_order() {
    let w = remap_pic();
    let ports: Vec<u16> = w.iter().map(|p| p.port).collect();
    let values: Vec<u8> = w.iter().map(|p| p.value).collect();
    assert_eq!(
        ports,
        vec![
            PIC1_CMD, PIC2_CMD, PIC1_DATA, PIC2_DATA, PIC1_DATA, PIC2_DATA, PIC1_DATA, PIC2_DATA,
            PIC1_DATA, PIC2_DATA
        ]
    );
    assert_eq!(values, vec![0x11, 0x11, 0x20, 0x28, 0x04, 0x02, 0x01, 0x01, 0xFF, 0xFF]);
    assert_eq!((PIC1_CMD, PIC2_CMD, PIC1_DATA, PIC2_DATA), (0x20, 0xA0, 0x21, 0xA1));
}

#[test]
fn masks_and_acknowledgments() {
    assert_eq!(set_pic1_mask(0b1111_1101), PortWrite { port: 0x21, value: 0b1111_1101 });
    assert_eq!(set_pic2_mask(0xFF), PortWrite { port: 0xA1, value: 0xFF });
    assert_eq!(pic1_end_of_intr(), PortWrite { port: 0x20, value: 0x20 });
    assert_eq!(pic2_end_of_intr(), PortWrite { port: 0xA0, value: 0x20 });
}

#[test]
fn single_line_mask_changes() {
    assert_eq!(irq_line_port(1), 0x21);
    assert_eq!(irq_line_port(12), 0xA1);
    assert_eq!(set_pic_irq_line(1, 0b0000_0000), PortWrite { port: 0x21, value: 0b0000_0010 });
    assert_eq!(set_pic_irq_line(12, 0b0000_0001), PortWrite { port: 0xA1, value: 0b0001_0001 });
    assert_eq!(clear_pic_iqr_line(1, 0xFF), PortWrite { port: 0x21, value: 0b1111_1101 });
    assert_eq!(clear_pic_iqr_line(15, 0xFF), PortWrite { port: 0xA1, value: 0b0111_1111 });
}

#[test]
fn only_keyboard_line_dispatches() {
    let mut idt = InterruptDescriptorTable::new();
    idt.keyboard.set_handler(IntHandler(0x1000));
    let m1 = set_pic1_mask(0b1111_1101).value;
    let m2 = set_pic2_mask(0b1111_1111).value;
    for line in 0..16u8 {
        assert_eq!(irq_dispatched(&idt, m1, m2, line), line == 1, "line {}", line);
    }
    // unmasked lines without a descriptor do not dispatch either
    for line in 0..16u8 {
        assert_eq!(irq_dispatched(&idt, 0, 0, line), line == 1, "line {}", line);
    }
    // masked keyboard line does not dispatch
    assert!(!irq_dispatched(&idt, 0xFF, 0xFF, 1));
}
