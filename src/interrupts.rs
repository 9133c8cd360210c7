use core::marker::PhantomData;
use vstd::prelude::*;

verus! {

pub const GATE_TYPE_INTERRUPT: u8 = 0xE;
pub const GATE_TYPE_TRAP: u8 = 0xF;

/// The two kinds of entry the interrupt descriptor table can hold.
#[derive(PartialEq, Eq, Structural, Clone, Copy, Debug)]
pub enum InterruptGateType {
    Interrupt,
    Trap,
}

/// The low nibble of the type/attribute byte that encodes a descriptor kind.
pub open spec fn gate_nibble(gt: InterruptGateType) -> u8 {
    match gt {
        InterruptGateType::Interrupt => GATE_TYPE_INTERRUPT,
        InterruptGateType::Trap => GATE_TYPE_TRAP,
    }
}

/// The options word of a descriptor: interrupt-stack-table index, present flag,
/// privilege level and descriptor kind, packed as the CPU expects.
#[derive(Clone, Copy, PartialEq, Eq, Structural, Debug)]
pub struct IDTEntryOptions {
    ist: u8,
    type_attr: u8,
}

impl IDTEntryOptions {
    /// The raw interrupt-stack-table byte.
    pub closed spec fn ist_byte(self) -> u8 {
        self.ist
    }

    /// The raw type/attribute byte.
    pub closed spec fn attr_byte(self) -> u8 {
        self.type_attr
    }

    /// Options built from the two raw bytes.
    pub closed spec fn from_bytes(ist: u8, attr: u8) -> Self {
        IDTEntryOptions { ist, type_attr: attr }
    }

    pub open spec fn spec_new(gt: InterruptGateType, present: bool) -> Self {
        Self::from_bytes(0, (if present { 0x80u8 } else { 0u8 }) | gate_nibble(gt))
    }

    pub open spec fn with_ist_offset(self, offset: u8) -> Self {
        Self::from_bytes(self.ist_byte() | (offset & 0b0000_0111), self.attr_byte())
    }

    pub open spec fn with_present(self, present: bool) -> Self {
        Self::from_bytes(
            self.ist_byte(),
            if present {
                self.attr_byte() | 0b1000_0000
            } else {
                self.attr_byte() & !0b1000_0000u8
            },
        )
    }

    pub open spec fn with_dpl(self, dpl: u8) -> Self {
        Self::from_bytes(self.ist_byte(), self.attr_byte() | ((dpl << 5u8) & 0b0110_0000))
    }

    pub open spec fn with_gate_type(self, gt: InterruptGateType) -> Self {
        Self::from_bytes(self.ist_byte(), (self.attr_byte() & 0b1111_0000) | gate_nibble(gt))
    }

    pub open spec fn spec_ist_offset(self) -> u8 {
        self.ist_byte() & 0b0000_0111
    }

    pub open spec fn spec_present(self) -> bool {
        self.attr_byte() & 0b1000_0000 != 0
    }

    pub open spec fn spec_dpl(self) -> u8 {
        (self.attr_byte() & 0b0110_0000) >> 5u8
    }

    /// The kind nibble holds one of the two known kinds.
    pub open spec fn wf(self) -> bool {
        self.attr_byte() & 0b0000_1111 == GATE_TYPE_INTERRUPT
            || self.attr_byte() & 0b0000_1111 == GATE_TYPE_TRAP
    }

    pub open spec fn spec_gate_type(self) -> InterruptGateType {
        if self.attr_byte() & 0b0000_1111 == GATE_TYPE_TRAP {
            InterruptGateType::Trap
        } else {
            InterruptGateType::Interrupt
        }
    }

    pub proof fn lemma_from_bytes(ist: u8, attr: u8)
        ensures
            #[trigger] Self::from_bytes(ist, attr).ist_byte() == ist,
            Self::from_bytes(ist, attr).attr_byte() == attr,
    {
    }

    /// Options of the given kind and presence, with stack-table index and
    /// privilege level zero.
    pub fn new(gt: InterruptGateType, present: bool) -> (r: Self)
        ensures
            r == Self::spec_new(gt, present),
            r.wf(),
            r.spec_gate_type() == gt,
            r.spec_present() == present,
            r.spec_dpl() == 0,
            r.spec_ist_offset() == 0,
    {
        let mut opt = IDTEntryOptions { ist: 0, type_attr: 0 };
        opt.set_gate_type(gt);
        opt.set_present(present);
        proof {
            let a = opt.type_attr;
            let n = gate_nibble(gt);
            if present {
                assert(a == 0x80u8 | n && a & 0x0F == n && a & 0x80 != 0 && (a & 0x60) >> 5 == 0)
                    by (bit_vector)
                    requires
                        n == 0xE || n == 0xF,
                        a == ((0u8 & 0xF0u8) | n) | 0x80u8,
                ;
            } else {
                assert(a == 0u8 | n && a & 0x0F == n && a & 0x80 == 0 && (a & 0x60) >> 5 == 0)
                    by (bit_vector)
                    requires
                        n == 0xE || n == 0xF,
                        a == ((0u8 & 0xF0u8) | n) & !0x80u8,
                ;
            }
            assert(0u8 & 0b0000_0111 == 0) by (bit_vector);
        }
        opt
    }

    /// ORs the low three bits of `offset` into the stack-table index; bits
    /// set earlier are kept.
    pub fn set_ist_offset(&mut self, offset: u8)
        ensures
            *final(self) == old(self).with_ist_offset(offset),
            old(self).wf() ==> final(self).wf(),
    {
        self.ist = self.ist | (offset & 0b0000_0111);
    }

    /// The raw interrupt-stack-table byte.
    pub fn ist_raw(&self) -> (r: u8)
        ensures
            r == self.ist_byte(),
    {
        self.ist
    }

    /// The raw type/attribute byte.
    pub fn attr_raw(&self) -> (r: u8)
        ensures
            r == self.attr_byte(),
    {
        self.type_attr
    }

    pub fn get_ist_offset(&self) -> (r: u8)
        ensures
            r == self.spec_ist_offset(),
    {
        self.ist & 0b0000_0111
    }

    pub fn set_present(&mut self, present: bool)
        ensures
            *final(self) == old(self).with_present(present),
            old(self).wf() ==> final(self).wf(),
    {
        let ghost a = self.type_attr;
        assert((a | 0x80) & 0x0F == a & 0x0F && (a & !0x80u8) & 0x0F == a & 0x0F) by (bit_vector);
        if present {
            self.type_attr = self.type_attr | 0b1000_0000;
        } else {
            self.type_attr = self.type_attr & !0b1000_0000u8;
        }
    }

    pub fn get_present(&self) -> (r: bool)
        ensures
            r == self.spec_present(),
    {
        (self.type_attr & 0b1000_0000) > 0
    }

    /// ORs the low two bits of `dpl` into the privilege-level field (bits 5
    /// and 6); bits set earlier are kept.
    pub fn set_dpl(&mut self, dpl: u8)
        ensures
            *final(self) == old(self).with_dpl(dpl),
            old(self).wf() ==> final(self).wf(),
    {
        let ghost a = self.type_attr;
        assert((a | ((dpl << 5u8) & 0x60)) & 0x0F == a & 0x0F) by (bit_vector);
        self.type_attr = self.type_attr | ((dpl << 5u8) & 0b0110_0000);
    }

    pub fn get_dpl(&self) -> (r: u8)
        ensures
            r == self.spec_dpl(),
    {
        (self.type_attr & 0b0110_0000) >> 5u8
    }

    /// Replaces the kind nibble; the high nibble is kept.
    pub fn set_gate_type(&mut self, gt: InterruptGateType)
        ensures
            *final(self) == old(self).with_gate_type(gt),
            final(self).wf(),
            final(self).spec_gate_type() == gt,
    {
        let ghost a = self.type_attr;
        let ghost n = gate_nibble(gt);
        assert(((a & 0xF0) | n) & 0x0F == n) by (bit_vector)
            requires
                n == 0xE || n == 0xF,
        ;
        self.type_attr = self.type_attr & 0b1111_0000;
        match gt {
            InterruptGateType::Interrupt => {
                self.type_attr = self.type_attr | GATE_TYPE_INTERRUPT;
            },
            InterruptGateType::Trap => {
                self.type_attr = self.type_attr | GATE_TYPE_TRAP;
            },
        }
    }

    /// Decodes the descriptor kind; the nibble must be one of the two known kinds.
    pub fn get_gate_type(&self) -> (r: InterruptGateType)
        requires
            self.wf(),
        ensures
            r == self.spec_gate_type(),
    {
        let gate_type = self.type_attr & 0b0000_1111;
        if gate_type == GATE_TYPE_TRAP {
            InterruptGateType::Trap
        } else {
            InterruptGateType::Interrupt
        }
    }
}

/// A hardware-captured snapshot at trap entry.
#[derive(Clone, Copy, Debug)]
pub struct InterruptStackFrame {
    pub rip: u64,
    pub cs: u64,
    pub flags: u64,
    pub rsp: u64,
    pub ss: u64,
}

/// A handler that takes the stack frame only, given by its entry address.
#[derive(Clone, Copy, Debug)]
pub struct IntHandler(pub u64);

/// A handler that takes the stack frame and a 64-bit error code, given by its
/// entry address.
#[derive(Clone, Copy, Debug)]
pub struct IntHandlerWithErrCode(pub u64);

/// A handler that takes the stack frame and an error code and never returns,
/// given by its entry address.
#[derive(Clone, Copy, Debug)]
pub struct IntHandlerDvrgWithErrCode(pub u64);

/// The decoded content of one descriptor: handler address, code-segment selector,
/// options and the reserved word.
#[derive(Clone, Copy, Debug, PartialEq, Eq, Structural)]
pub struct Gate {
    pub address: u64,
    pub selector: u16,
    pub options: IDTEntryOptions,
    pub reserved: u32,
}

impl Gate {
    /// The 16-byte image of the descriptor.
    pub fn to_bytes(&self) -> (r: Vec<u8>)
        ensures
            r@ == gate_bytes(*self),
    {
        let mut out: Vec<u8> = Vec::new();
        push_le(&mut out, self.address & 0xFFFF, 2);
        push_le(&mut out, self.selector as u64, 2);
        out.push(self.options.ist_raw());
        out.push(self.options.attr_raw());
        push_le(&mut out, (self.address >> 16u64) & 0xFFFF, 2);
        push_le(&mut out, self.address >> 32u64, 4);
        push_le(&mut out, self.reserved as u64, 4);
        proof {
            assert(out@ =~= gate_bytes(*self));
        }
        out
    }

    /// The descriptor of a slot with no handler.
    pub open spec fn spec_missing() -> Gate {
        Gate {
            address: 0,
            selector: 0,
            options: IDTEntryOptions::spec_new(InterruptGateType::Interrupt, false),
            reserved: 0,
        }
    }
}

/// The handler address reassembled from the three offset fields.
pub open spec fn join_offsets(low: u16, mid: u16, high: u32) -> u64 {
    (low as u64) | ((mid as u64) << 16u64) | ((high as u64) << 32u64)
}

/// One interrupt descriptor in the packed form the CPU reads; `F` is the handler shape the
/// slot accepts.
#[derive(Debug)]
pub struct IDTEntry<F> {
    offset_1: u16,
    selector: u16,
    options: IDTEntryOptions,
    offset_2: u16,
    offset_3: u32,
    zero: u32,
    phantom: PhantomData<F>,
}

/// Relies on x86::segmentation::cs: reads the code-segment register. Nothing
/// is promised of the value.
#[verifier::external_body]
fn current_code_selector() -> (r: u16) {
    x86::segmentation::cs().bits()
}

impl<F> Clone for IDTEntry<F> {
    fn clone(&self) -> (r: Self)
        ensures
            r == *self,
    {
        *self
    }
}

impl<F> Copy for IDTEntry<F> {

}

impl<F> View for IDTEntry<F> {
    type V = Gate;

    closed spec fn view(&self) -> Gate {
        Gate {
            address: join_offsets(self.offset_1, self.offset_2, self.offset_3),
            selector: self.selector,
            options: self.options,
            reserved: self.zero,
        }
    }
}

impl<F> IDTEntry<F> {
    /// An all-zero, not-present descriptor.
    pub fn missing() -> (r: Self)
        ensures
            r@ == Gate::spec_missing(),
    {
        let options = IDTEntryOptions::new(InterruptGateType::Interrupt, false);
        proof {
            assert(join_offsets(0, 0, 0) == 0) by (bit_vector);
        }
        IDTEntry {
            offset_1: 0,
            selector: 0,
            options,
            offset_2: 0,
            offset_3: 0,
            zero: 0,
            phantom: PhantomData,
        }
    }

    /// Splits `address` over the three offset fields, stores `selector` and
    /// marks the descriptor present; the other options and the reserved word are
    /// kept.
    pub fn set_handler_address(&mut self, address: u64, selector: u16)
        ensures
            final(self)@ == (Gate {
                address,
                selector,
                options: old(self)@.options.with_present(true),
                reserved: old(self)@.reserved,
            }),
    {
        #[verifier::truncate]
        let low = address as u16;
        #[verifier::truncate]
        let mid = (address >> 16u64) as u16;
        #[verifier::truncate]
        let high = (address >> 32u64) as u32;
        self.offset_1 = low;
        self.offset_2 = mid;
        self.offset_3 = high;
        self.selector = selector;
        self.options.set_present(true);
        proof {
            lemma_split_join(address);
        }
    }

    /// The decoded descriptor.
    pub fn gate(&self) -> (r: Gate)
        ensures
            r == self@,
    {
        let address = (self.offset_1 as u64) | ((self.offset_2 as u64) << 16u64)
            | ((self.offset_3 as u64) << 32u64);
        Gate { address, selector: self.selector, options: self.options, reserved: self.zero }
    }

    pub fn options(&self) -> (r: IDTEntryOptions)
        ensures
            r == self@.options,
    {
        self.options
    }

    /// The little-endian 16-byte image of the descriptor: offset bits 0-15,
    /// selector, the two option bytes, offset bits 16-31, offset bits 32-63,
    /// then the reserved word.
    pub fn to_bytes(&self) -> (r: Vec<u8>)
        ensures
            r@ == gate_bytes(self@),
    {
        self.gate().to_bytes()
    }
}

/// Splitting an address into 16, 16 and 32 bits and joining them gives it
/// back.
proof fn lemma_split_join(a: u64)
    ensures
        join_offsets(a as u16, (a >> 16u64) as u16, (a >> 32u64) as u32) == a,
{
    assert(((a as u16) as u64) | ((((a >> 16u64) as u16) as u64) << 16u64)
        | ((((a >> 32u64) as u32) as u64) << 32u64) == a) by (bit_vector);
}

impl IDTEntry<IntHandler> {
    /// Installs a handler that takes no error code, with the current code
    /// segment as selector.
    pub fn set_handler(&mut self, handler: IntHandler)
        ensures
            final(self)@.address == handler.0,
            final(self)@.options == old(self)@.options.with_present(true),
            final(self)@.reserved == old(self)@.reserved,
    {
        let selector = current_code_selector();
        self.set_handler_address(handler.0, selector);
    }
}

impl IDTEntry<IntHandlerWithErrCode> {
    /// Installs a handler that takes an error code, with the current code
    /// segment as selector.
    pub fn set_handler(&mut self, handler: IntHandlerWithErrCode)
        ensures
            final(self)@.address == handler.0,
            final(self)@.options == old(self)@.options.with_present(true),
            final(self)@.reserved == old(self)@.reserved,
    {
        let selector = current_code_selector();
        self.set_handler_address(handler.0, selector);
    }
}

impl IDTEntry<IntHandlerDvrgWithErrCode> {
    /// Installs a handler that takes an error code and never returns, with
    /// the current code segment as selector.
    pub fn set_handler(&mut self, handler: IntHandlerDvrgWithErrCode)
        ensures
            final(self)@.address == handler.0,
            final(self)@.options == old(self)@.options.with_present(true),
            final(self)@.reserved == old(self)@.reserved,
    {
        let selector = current_code_selector();
        self.set_handler_address(handler.0, selector);
    }
}

/// Installing a handler address with a selector and reading the descriptor back
/// gives that address and that selector, and a present descriptor.
pub proof fn lemma_handler_round_trip<F>(e: IDTEntry<F>, e2: IDTEntry<F>, address: u64, selector: u16)
    requires
        e2@ == (Gate {
            address,
            selector,
            options: e@.options.with_present(true),
            reserved: e@.reserved,
        }),
        e@.options.wf(),
    ensures
        e2@.address == address,
        e2@.selector == selector,
        e2@.options.spec_present(),
        e2@.options.spec_gate_type() == e@.options.spec_gate_type(),
{
    lemma_options_kind_presence(e@.options, e@.options.spec_gate_type(), true);
    let o = e@.options;
    IDTEntryOptions::lemma_from_bytes(o.ist_byte(), o.attr_byte() | 0x80);
    let a = o.attr_byte();
    assert((a | 0x80) & 0x0F == a & 0x0F) by (bit_vector);
}

/// Appends the `n` low bytes of `v`, least significant first.
fn push_le(out: &mut Vec<u8>, v: u64, n: usize)
    requires
        n <= 8,
    ensures
        final(out)@ == old(out)@ + le_bytes(v, n as nat),
{
    let mut i: usize = 0;
    while i < n
        invariant
            i <= n <= 8,
            out@ == old(out)@ + le_bytes(v, i as nat),
        decreases n - i,
    {
        #[verifier::truncate]
        let b = (v >> ((8 * i) as u64)) as u8;
        out.push(b);
        i = i + 1;
        assert(le_bytes(v, i as nat) =~= le_bytes(v, (i - 1) as nat).push(b));
    }
}

/// The `n` low bytes of `v`, least significant first.
pub open spec fn le_bytes(v: u64, n: nat) -> Seq<u8>
    decreases n,
{
    if n == 0 {
        Seq::empty()
    } else {
        le_bytes(v, (n - 1) as nat).push((v >> (8 * (n - 1)) as u64) as u8)
    }
}

proof fn lemma_le_bytes_len(v: u64, n: nat)
    ensures
        le_bytes(v, n).len() == n,
    decreases n,
{
    if n > 0 {
        lemma_le_bytes_len(v, (n - 1) as nat);
    }
}

proof fn lemma_gate_bytes_len(g: Gate)
    ensures
        gate_bytes(g).len() == 16,
{
    lemma_le_bytes_len(g.address & 0xFFFF, 2);
    lemma_le_bytes_len(g.selector as u64, 2);
    lemma_le_bytes_len((g.address >> 16u64) & 0xFFFF, 2);
    lemma_le_bytes_len(g.address >> 32u64, 4);
    lemma_le_bytes_len(g.reserved as u64, 4);
}

/// The 16-byte image of a descriptor.
pub open spec fn gate_bytes(g: Gate) -> Seq<u8> {
    le_bytes(g.address & 0xFFFF, 2) + le_bytes(g.selector as u64, 2) + seq![
        g.options.ist_byte(),
        g.options.attr_byte(),
    ] + le_bytes((g.address >> 16u64) & 0xFFFF, 2) + le_bytes(g.address >> 32u64, 4) + le_bytes(
        g.reserved as u64,
        4,
    )
}

/// The 256 descriptors of the CPU's dispatch table: vectors 0-31 are the
/// architectural exceptions, 32-47 the remapped legacy interrupt lines,
/// 48-255 general purpose.
pub struct InterruptDescriptorTable {
    pub divide_by_zero: IDTEntry<IntHandler>,
    pub debug: IDTEntry<IntHandler>,
    pub non_maskable_interrupt: IDTEntry<IntHandler>,
    pub breakpoint: IDTEntry<IntHandler>,
    pub overflow: IDTEntry<IntHandler>,
    pub bound_range_exceeded: IDTEntry<IntHandler>,
    pub invalid_opcode: IDTEntry<IntHandler>,
    pub device_not_available: IDTEntry<IntHandler>,
    pub double_fault: IDTEntry<IntHandlerDvrgWithErrCode>,
    reserved_exceptions_9: IDTEntry<IntHandler>,
    pub invalid_tss: IDTEntry<IntHandlerWithErrCode>,
    pub segment_not_present: IDTEntry<IntHandlerWithErrCode>,
    pub stack_segment_fault: IDTEntry<IntHandlerWithErrCode>,
    pub general_protection_fault: IDTEntry<IntHandlerWithErrCode>,
    pub page_fault: IDTEntry<IntHandlerWithErrCode>,
    reserved_exceptions_15: IDTEntry<IntHandler>,
    pub x87_floating_point: IDTEntry<IntHandler>,
    pub alignment_check: IDTEntry<IntHandlerWithErrCode>,
    pub machine_check: IDTEntry<IntHandler>,
    pub simd_floating_point: IDTEntry<IntHandler>,
    pub virtualization: IDTEntry<IntHandler>,
    reserved_exceptions_21_29: [IDTEntry<IntHandler>; 9],
    pub security_exception: IDTEntry<IntHandlerWithErrCode>,
    reserved_exceptions_31: IDTEntry<IntHandler>,
    pub programmable_timer: IDTEntry<IntHandler>,
    pub keyboard: IDTEntry<IntHandler>,
    pub reserved_irq2_cascade: IDTEntry<IntHandler>,
    pub serial2: IDTEntry<IntHandler>,
    pub serial1: IDTEntry<IntHandler>,
    pub parallel2: IDTEntry<IntHandler>,
    pub floppy: IDTEntry<IntHandler>,
    pub parallel1_spurious: IDTEntry<IntHandler>,
    pub cmos_rtc: IDTEntry<IntHandler>,
    pub peripherals_1: IDTEntry<IntHandler>,
    pub peripherals_2: IDTEntry<IntHandler>,
    pub peripherals_3: IDTEntry<IntHandler>,
    pub ps2_mouse: IDTEntry<IntHandler>,
    pub fpu: IDTEntry<IntHandler>,
    pub primary_ata: IDTEntry<IntHandler>,
    pub secondary_ata: IDTEntry<IntHandler>,
    interrupts: [IDTEntry<IntHandler>; 208],
}

/// Size in bytes of one descriptor.
pub const IDT_ENTRY_SIZE: u16 = 16;

/// The limit loaded with the table: size of all 256 descriptors, minus one.
pub const IDT_LIMIT: u16 = IDT_ENTRY_SIZE * 256 - 1;

impl InterruptDescriptorTable {
    /// The descriptor at `vector`.
    pub closed spec fn gate_at(self, vector: u8) -> Gate {
        match vector {
            0 => self.divide_by_zero@,
            1 => self.debug@,
            2 => self.non_maskable_interrupt@,
            3 => self.breakpoint@,
            4 => self.overflow@,
            5 => self.bound_range_exceeded@,
            6 => self.invalid_opcode@,
            7 => self.device_not_available@,
            8 => self.double_fault@,
            9 => self.reserved_exceptions_9@,
            10 => self.invalid_tss@,
            11 => self.segment_not_present@,
            12 => self.stack_segment_fault@,
            13 => self.general_protection_fault@,
            14 => self.page_fault@,
            15 => self.reserved_exceptions_15@,
            16 => self.x87_floating_point@,
            17 => self.alignment_check@,
            18 => self.machine_check@,
            19 => self.simd_floating_point@,
            20 => self.virtualization@,
            v if 21 <= v && v <= 29 => self.reserved_exceptions_21_29[(vector - 21) as int]@,
            30 => self.security_exception@,
            31 => self.reserved_exceptions_31@,
            32 => self.programmable_timer@,
            33 => self.keyboard@,
            34 => self.reserved_irq2_cascade@,
            35 => self.serial2@,
            36 => self.serial1@,
            37 => self.parallel2@,
            38 => self.floppy@,
            39 => self.parallel1_spurious@,
            40 => self.cmos_rtc@,
            41 => self.peripherals_1@,
            42 => self.peripherals_2@,
            43 => self.peripherals_3@,
            44 => self.ps2_mouse@,
            45 => self.fpu@,
            46 => self.primary_ata@,
            47 => self.secondary_ata@,
            _ => self.interrupts[(vector - 48) as int]@,
        }
    }

    /// A table with every slot missing.
    pub fn new() -> (r: Self)
        ensures
            forall|v: u8| #[trigger] r.gate_at(v) == Gate::spec_missing(),
            forall|v: u8| !(#[trigger] r.gate_at(v)).options.spec_present(),
    {
        let r = InterruptDescriptorTable {
            divide_by_zero: IDTEntry::missing(),
            debug: IDTEntry::missing(),
            non_maskable_interrupt: IDTEntry::missing(),
            breakpoint: IDTEntry::missing(),
            overflow: IDTEntry::missing(),
            bound_range_exceeded: IDTEntry::missing(),
            invalid_opcode: IDTEntry::missing(),
            device_not_available: IDTEntry::missing(),
            double_fault: IDTEntry::missing(),
            reserved_exceptions_9: IDTEntry::missing(),
            invalid_tss: IDTEntry::missing(),
            segment_not_present: IDTEntry::missing(),
            stack_segment_fault: IDTEntry::missing(),
            general_protection_fault: IDTEntry::missing(),
            page_fault: IDTEntry::missing(),
            reserved_exceptions_15: IDTEntry::missing(),
            x87_floating_point: IDTEntry::missing(),
            alignment_check: IDTEntry::missing(),
            machine_check: IDTEntry::missing(),
            simd_floating_point: IDTEntry::missing(),
            virtualization: IDTEntry::missing(),
            reserved_exceptions_21_29: [IDTEntry::missing(); 9],
            security_exception: IDTEntry::missing(),
            reserved_exceptions_31: IDTEntry::missing(),
            programmable_timer: IDTEntry::missing(),
            keyboard: IDTEntry::missing(),
            reserved_irq2_cascade: IDTEntry::missing(),
            serial2: IDTEntry::missing(),
            serial1: IDTEntry::missing(),
            parallel2: IDTEntry::missing(),
            floppy: IDTEntry::missing(),
            parallel1_spurious: IDTEntry::missing(),
            cmos_rtc: IDTEntry::missing(),
            peripherals_1: IDTEntry::missing(),
            peripherals_2: IDTEntry::missing(),
            peripherals_3: IDTEntry::missing(),
            ps2_mouse: IDTEntry::missing(),
            fpu: IDTEntry::missing(),
            primary_ata: IDTEntry::missing(),
            secondary_ata: IDTEntry::missing(),
            interrupts: [IDTEntry::missing(); 208],
        };
        proof {
            let m = IDTEntryOptions::spec_new(InterruptGateType::Interrupt, false);
            IDTEntryOptions::lemma_from_bytes(0, 0u8 | GATE_TYPE_INTERRUPT);
            assert((0u8 | 0xEu8) & 0x80 == 0) by (bit_vector);
            assert(!m.spec_present());
        }
        r
    }

    /// The descriptor at `vector`.
    pub fn gate(&self, vector: u8) -> (r: Gate)
        ensures
            r == self.gate_at(vector),
    {
        match vector {
            0 => self.divide_by_zero.gate(),
            1 => self.debug.gate(),
            2 => self.non_maskable_interrupt.gate(),
            3 => self.breakpoint.gate(),
            4 => self.overflow.gate(),
            5 => self.bound_range_exceeded.gate(),
            6 => self.invalid_opcode.gate(),
            7 => self.device_not_available.gate(),
            8 => self.double_fault.gate(),
            9 => self.reserved_exceptions_9.gate(),
            10 => self.invalid_tss.gate(),
            11 => self.segment_not_present.gate(),
            12 => self.stack_segment_fault.gate(),
            13 => self.general_protection_fault.gate(),
            14 => self.page_fault.gate(),
            15 => self.reserved_exceptions_15.gate(),
            16 => self.x87_floating_point.gate(),
            17 => self.alignment_check.gate(),
            18 => self.machine_check.gate(),
            19 => self.simd_floating_point.gate(),
            20 => self.virtualization.gate(),
            v if 21 <= v && v <= 29 => self.reserved_exceptions_21_29[(vector - 21) as usize].gate(),
            30 => self.security_exception.gate(),
            31 => self.reserved_exceptions_31.gate(),
            32 => self.programmable_timer.gate(),
            33 => self.keyboard.gate(),
            34 => self.reserved_irq2_cascade.gate(),
            35 => self.serial2.gate(),
            36 => self.serial1.gate(),
            37 => self.parallel2.gate(),
            38 => self.floppy.gate(),
            39 => self.parallel1_spurious.gate(),
            40 => self.cmos_rtc.gate(),
            41 => self.peripherals_1.gate(),
            42 => self.peripherals_2.gate(),
            43 => self.peripherals_3.gate(),
            44 => self.ps2_mouse.gate(),
            45 => self.fpu.gate(),
            46 => self.primary_ata.gate(),
            47 => self.secondary_ata.gate(),
            _ => self.interrupts[(vector - 48) as usize].gate(),
        }
    }

    /// The little-endian image of the whole table, 16 bytes per vector in
    /// vector order, as the CPU reads it.
    pub fn to_bytes(&self) -> (r: Vec<u8>)
        ensures
            r@.len() == 4096,
            forall|v: u8| #[trigger] r@.subrange(16 * v, 16 * v + 16) == gate_bytes(self.gate_at(v)),
    {
        let mut out: Vec<u8> = Vec::new();
        let mut v: usize = 0;
        while v < 256
            invariant
                v <= 256,
                out@.len() == 16 * v,
                forall|w: u8| w < v ==> #[trigger] out@.subrange(16 * w, 16 * w + 16) == gate_bytes(self.gate_at(w)),
            decreases 256 - v,
        {
            let g = self.gate(v as u8);
            let bytes = g.to_bytes();
            proof {
                lemma_gate_bytes_len(g);
            }
            let ghost before = out@;
            let mut i: usize = 0;
            while i < 16
                invariant
                    i <= 16,
                    bytes@.len() == 16,
                    out@ == before + bytes@.subrange(0, i as int),
                decreases 16 - i,
            {
                out.push(bytes[i]);
                i = i + 1;
                assert(bytes@.subrange(0, i as int) =~= bytes@.subrange(0, (i - 1) as int).push(bytes@[i - 1]));
            }
            assert forall|w: u8| w < v + 1 implies #[trigger] out@.subrange(16 * w, 16 * w + 16) == gate_bytes(self.gate_at(w)) by {
                if w < v {
                    assert(out@.subrange(16 * w, 16 * w + 16) =~= before.subrange(16 * w, 16 * w + 16));
                } else {
                    assert(out@.subrange(16 * w, 16 * w + 16) =~= bytes@);
                }
            }
            v = v + 1;
        }
        out
    }
}

/// The fault flags that the CPU pushes with a page fault, one per bit.
#[derive(Clone, Copy, Debug, PartialEq, Eq, Structural)]
pub struct PageFaultInfo {
    pub present: bool,
    pub write: bool,
    pub user: bool,
    pub reserved_write: bool,
    pub instr_fetch: bool,
    pub protection: bool,
    pub shadow_stack: bool,
    pub software_guard_ext: bool,
}

impl PageFaultInfo {
    /// Tests bits 0, 1, 2, 3, 4, 5, 6 and 15 of the error code.
    pub fn from_err_code(code: u64) -> (r: Self)
        ensures
            r.present == (code & 0x1 != 0),
            r.write == (code & 0x2 != 0),
            r.user == (code & 0x4 != 0),
            r.reserved_write == (code & 0x8 != 0),
            r.instr_fetch == (code & 0x10 != 0),
            r.protection == (code & 0x20 != 0),
            r.shadow_stack == (code & 0x40 != 0),
            r.software_guard_ext == (code & 0x8000 != 0),
    {
        PageFaultInfo {
            present: code & 0x1 > 0,
            write: code & 0x2 > 0,
            user: code & 0x4 > 0,
            reserved_write: code & 0x8 > 0,
            instr_fetch: code & 0x10 > 0,
            protection: code & 0x20 > 0,
            shadow_stack: code & 0x40 > 0,
            software_guard_ext: code & 0x8000 > 0,
        }
    }
}

/// Setting the kind, presence, privilege level and stack-table index of fresh
/// options and reading them back gives the values that were set.
pub proof fn lemma_options_round_trip(gt: InterruptGateType, present: bool, dpl: u8, ist: u8)
    requires
        dpl <= 3,
        ist <= 7,
    ensures
        ({
            let o = IDTEntryOptions::spec_new(gt, present).with_dpl(dpl).with_ist_offset(ist);
            &&& o.wf()
            &&& o.spec_gate_type() == gt
            &&& o.spec_present() == present
            &&& o.spec_dpl() == dpl
            &&& o.spec_ist_offset() == ist
        }),
{
    let n = gate_nibble(gt);
    let p: u8 = if present { 0x80u8 } else { 0u8 };
    IDTEntryOptions::lemma_from_bytes(0, p | n);
    IDTEntryOptions::lemma_from_bytes(0, (p | n) | ((dpl << 5u8) & 0x60));
    IDTEntryOptions::lemma_from_bytes(0u8 | (ist & 7), (p | n) | ((dpl << 5u8) & 0x60));
    let a = (p | n) | ((dpl << 5u8) & 0x60);
    assert(a & 0x0F == n && (a & 0x80 != 0) == (p == 0x80) && (a & 0x60) >> 5u8 == dpl
        && (0u8 | (ist & 7)) & 7 == ist) by (bit_vector)
        requires
            n == 0xE || n == 0xF,
            p == 0x80 || p == 0,
            dpl <= 3,
            ist <= 7,
            a == (p | n) | ((dpl << 5u8) & 0x60),
    ;
}

/// Setting the kind or the presence of well-formed options and reading it
/// back gives the value that was set, whatever the options held before.
pub proof fn lemma_options_kind_presence(o: IDTEntryOptions, gt: InterruptGateType, present: bool)
    requires
        o.wf(),
    ensures
        o.with_gate_type(gt).wf(),
        o.with_gate_type(gt).spec_gate_type() == gt,
        o.with_present(present).wf(),
        o.with_present(present).spec_present() == present,
{
    let a = o.attr_byte();
    let n = gate_nibble(gt);
    IDTEntryOptions::lemma_from_bytes(o.ist_byte(), (a & 0xF0) | n);
    IDTEntryOptions::lemma_from_bytes(o.ist_byte(), a | 0x80);
    IDTEntryOptions::lemma_from_bytes(o.ist_byte(), a & !0x80u8);
    assert(((a & 0xF0) | n) & 0x0F == n && (a | 0x80) & 0x0F == a & 0x0F
        && (a & !0x80u8) & 0x0F == a & 0x0F && (a | 0x80) & 0x80 != 0
        && (a & !0x80u8) & 0x80 == 0) by (bit_vector)
        requires
            n == 0xE || n == 0xF,
    ;
}

} // verus!
