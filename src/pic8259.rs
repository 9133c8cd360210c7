use crate::interrupts::InterruptDescriptorTable;
use vstd::prelude::*;

verus! {

/// Command port of the first controller.
pub const PIC1_CMD: u16 = 0x20;

/// Command port of the second controller.
pub const PIC2_CMD: u16 = 0xA0;

/// Data port of the first controller.
pub const PIC1_DATA: u16 = 0x21;

/// Data port of the second controller.
pub const PIC2_DATA: u16 = 0xA1;

/// Vector raised for line 0 after remapping; lines 8-15 follow from 0x28.
pub const PIC1_OFFSET: u8 = 0x20;

/// Vector raised for line 8 after remapping.
pub const PIC2_OFFSET: u8 = 0x28;

/// Acknowledgment byte written to a command port when an interrupt is
/// serviced.
pub const END_OF_INTERRUPT: u8 = 0x20;

/// Line of the keyboard on the first controller.
pub const KEYBOARD_LINE: u8 = 1;

/// Vector of the keyboard's line after remapping.
pub const KEYBOARD_VECTOR: u8 = 0x21;

/// One byte written to one I/O port.
#[derive(Clone, Copy, Debug, PartialEq, Eq, Structural)]
pub struct PortWrite {
    pub port: u16,
    pub value: u8,
}

/// Initialisation: init-mode command to both controllers, their vector
/// offsets, the cascade identities, 8086 mode, then every line masked.
pub open spec fn remap_sequence() -> Seq<PortWrite> {
    seq![
        PortWrite { port: PIC1_CMD, value: 0x11 },
        PortWrite { port: PIC2_CMD, value: 0x11 },
        PortWrite { port: PIC1_DATA, value: PIC1_OFFSET },
        PortWrite { port: PIC2_DATA, value: PIC2_OFFSET },
        PortWrite { port: PIC1_DATA, value: 0x04 },
        PortWrite { port: PIC2_DATA, value: 0x02 },
        PortWrite { port: PIC1_DATA, value: 0x01 },
        PortWrite { port: PIC2_DATA, value: 0x01 },
        PortWrite { port: PIC1_DATA, value: 0xFF },
        PortWrite { port: PIC2_DATA, value: 0xFF },
    ]
}

/// The writes that remap both controllers onto vectors 0x20-0x2F and mask
/// every line, in the order they must be made.
pub fn remap_pic() -> (r: Vec<PortWrite>)
    ensures
        r@ == remap_sequence(),
{
    let mut r: Vec<PortWrite> = Vec::new();
    r.push(PortWrite { port: PIC1_CMD, value: 0x11 });
    r.push(PortWrite { port: PIC2_CMD, value: 0x11 });
    r.push(PortWrite { port: PIC1_DATA, value: PIC1_OFFSET });
    r.push(PortWrite { port: PIC2_DATA, value: PIC2_OFFSET });
    r.push(PortWrite { port: PIC1_DATA, value: 0b0000_0100 });
    r.push(PortWrite { port: PIC2_DATA, value: 0b0000_0010 });
    r.push(PortWrite { port: PIC1_DATA, value: 0x01 });
    r.push(PortWrite { port: PIC2_DATA, value: 0x01 });
    r.push(PortWrite { port: PIC1_DATA, value: 0b1111_1111 });
    r.push(PortWrite { port: PIC2_DATA, value: 0b1111_1111 });
    assert(r@ =~= remap_sequence());
    r
}

/// The data port that holds the mask bit of legacy line `irq_line`.
pub open spec fn spec_line_port(irq_line: u8) -> u16 {
    if irq_line < 8 {
        PIC1_DATA
    } else {
        PIC2_DATA
    }
}

/// The mask bit of legacy line `irq_line` within its controller's mask.
pub open spec fn line_bit(irq_line: u8) -> u8 {
    if irq_line < 8 {
        1u8 << irq_line
    } else {
        1u8 << ((irq_line - 8) as u8)
    }
}

/// The data port to read the current mask from before changing line
/// `irq_line`.
pub fn irq_line_port(irq_line: u8) -> (r: u16)
    requires
        irq_line < 16,
    ensures
        r == spec_line_port(irq_line),
{
    if irq_line < 8 {
        PIC1_DATA
    } else {
        PIC2_DATA
    }
}

/// Masks line `irq_line`, given the mask its controller holds now.
pub fn set_pic_irq_line(irq_line: u8, current_mask: u8) -> (r: PortWrite)
    requires
        irq_line < 16,
    ensures
        r == (PortWrite { port: spec_line_port(irq_line), value: current_mask | line_bit(irq_line) }),
{
    let mut value = irq_line;
    let port = if value < 8 {
        PIC1_DATA
    } else {
        value = value - 8;
        PIC2_DATA
    };
    PortWrite { port, value: current_mask | (1u8 << value) }
}

/// Unmasks line `irq_line`, given the mask its controller holds now.
pub fn clear_pic_iqr_line(irq_line: u8, current_mask: u8) -> (r: PortWrite)
    requires
        irq_line < 16,
    ensures
        r == (PortWrite {
            port: spec_line_port(irq_line),
            value: current_mask & !line_bit(irq_line),
        }),
{
    let mut value = irq_line;
    let port = if value < 8 {
        PIC1_DATA
    } else {
        value = value - 8;
        PIC2_DATA
    };
    PortWrite { port, value: current_mask & !(1u8 << value) }
}

/// Sets the whole mask of the first controller.
pub fn set_pic1_mask(mask: u8) -> (r: PortWrite)
    ensures
        r == (PortWrite { port: PIC1_DATA, value: mask }),
{
    PortWrite { port: PIC1_DATA, value: mask }
}

/// Sets the whole mask of the second controller.
pub fn set_pic2_mask(mask: u8) -> (r: PortWrite)
    ensures
        r == (PortWrite { port: PIC2_DATA, value: mask }),
{
    PortWrite { port: PIC2_DATA, value: mask }
}

/// Acknowledges an interrupt of the first controller.
pub fn pic1_end_of_intr() -> (r: PortWrite)
    ensures
        r == (PortWrite { port: PIC1_CMD, value: END_OF_INTERRUPT }),
{
    PortWrite { port: PIC1_CMD, value: END_OF_INTERRUPT }
}

/// Acknowledges an interrupt of the second controller.
pub fn pic2_end_of_intr() -> (r: PortWrite)
    ensures
        r == (PortWrite { port: PIC2_CMD, value: END_OF_INTERRUPT }),
{
    PortWrite { port: PIC2_CMD, value: END_OF_INTERRUPT }
}

/// Whether an assertion of legacy line `line` reaches the CPU under the two
/// controllers' masks: its own mask bit is clear and, for a line of the
/// second controller, so is the cascade line 2 of the first.
pub open spec fn line_delivered(mask1: u8, mask2: u8, line: u8) -> bool {
    if line < 8 {
        mask1 & line_bit(line) == 0
    } else {
        mask2 & line_bit(line) == 0 && mask1 & 0x04 == 0
    }
}

/// The vector the remapped controllers raise for legacy line `line`.
pub open spec fn line_vector(line: u8) -> u8 {
    (PIC1_OFFSET + line) as u8
}

/// Whether asserting legacy line `line` runs a handler: the line is
/// delivered and the descriptor of its vector is present.
pub open spec fn line_dispatches(idt: InterruptDescriptorTable, mask1: u8, mask2: u8, line: u8) -> bool {
    line_delivered(mask1, mask2, line) && idt.gate_at(line_vector(line)).options.spec_present()
}

/// Whether asserting legacy line `irq_line` would run a handler of `idt`
/// while the controllers hold masks `mask1` and `mask2`.
pub fn irq_dispatched(idt: &InterruptDescriptorTable, mask1: u8, mask2: u8, irq_line: u8) -> (r: bool)
    requires
        irq_line < 16,
    ensures
        r == line_dispatches(*idt, mask1, mask2, irq_line),
{
    let delivered = if irq_line < 8 {
        mask1 & (1u8 << irq_line) == 0
    } else {
        mask2 & (1u8 << (irq_line - 8)) == 0 && mask1 & 0x04 == 0
    };
    delivered && idt.gate(PIC1_OFFSET + irq_line).options.get_present()
}

/// With only the keyboard's descriptor present and every other legacy line masked,
/// asserting any other line runs no handler, while the keyboard's line runs
/// its handler when its own mask bit is clear.
pub proof fn lemma_only_keyboard_dispatches(
    idt: InterruptDescriptorTable,
    mask1: u8,
    mask2: u8,
    line: u8,
)
    requires
        forall|v: u8| v != KEYBOARD_VECTOR ==> !(#[trigger] idt.gate_at(v)).options.spec_present(),
        mask1 | 0b0000_0010 == 0xFF,
        mask2 == 0xFF,
        line < 16,
    ensures
        line != KEYBOARD_LINE ==> !line_dispatches(idt, mask1, mask2, line),
        line == KEYBOARD_LINE && mask1 & 0b0000_0010 == 0 && idt.gate_at(KEYBOARD_VECTOR).options.spec_present() ==> line_dispatches(idt, mask1, mask2, line),
{
    if line < 8 {
        let b = line_bit(line);
        assert(line < 8 && line != 1 && mask1 | 2 == 0xFF ==> mask1 & (1u8 << line) != 0)
            by (bit_vector);
        assert(line == 1 && mask1 & 2 == 0 ==> mask1 & (1u8 << line) == 0) by (bit_vector);
    } else {
        assert(line >= 8 && line < 16 ==> 0xFFu8 & (1u8 << ((line - 8) as u8)) != 0)
            by (bit_vector);
    }
}

} // verus!
