use vstd::prelude::*;
use vstd::string::StringSliceAdditionalSpecFns;

verus! {

/// Virtual address of the text-mode screen in the higher half.
pub const VGA_VADDR: u64 = 0xFFFF_8000_000B_8000;

/// Columns of the text screen.
pub const SCREEN_WIDTH: usize = 80;

/// Rows of the text screen.
pub const SCREEN_HEIGHT: usize = 25;

/// Cells of the text screen.
pub const SCREEN_CELLS: usize = 2000;

/// Glyph shown for a byte that is neither printable ASCII nor a newline: a
/// full block.
pub const BLOCK_GLYPH: u8 = 219;

/// The sixteen text-mode colours.
#[derive(Clone, Copy, Debug, PartialEq, Eq, Structural)]
pub enum VGAColor {
    Black,
    Blue,
    Green,
    Cyan,
    Red,
    Magenta,
    Brown,
    LightGray,
    DarkGray,
    LightBlue,
    LightGreen,
    LightCyan,
    LightRed,
    LightMagenta,
    Yellow,
    White,
}

/// The 4-bit hardware number of a colour.
pub open spec fn color_number(c: VGAColor) -> u8 {
    match c {
        VGAColor::Black => 0x0,
        VGAColor::Blue => 0x1,
        VGAColor::Green => 0x2,
        VGAColor::Cyan => 0x3,
        VGAColor::Red => 0x4,
        VGAColor::Magenta => 0x5,
        VGAColor::Brown => 0x6,
        VGAColor::LightGray => 0x7,
        VGAColor::DarkGray => 0x8,
        VGAColor::LightBlue => 0x9,
        VGAColor::LightGreen => 0xa,
        VGAColor::LightCyan => 0xb,
        VGAColor::LightRed => 0xc,
        VGAColor::LightMagenta => 0xd,
        VGAColor::Yellow => 0xe,
        VGAColor::White => 0xf,
    }
}

impl VGAColor {
    /// The 4-bit hardware number of the colour.
    pub fn number(self) -> (r: u8)
        ensures
            r == color_number(self),
    {
        match self {
            VGAColor::Black => 0x0,
            VGAColor::Blue => 0x1,
            VGAColor::Green => 0x2,
            VGAColor::Cyan => 0x3,
            VGAColor::Red => 0x4,
            VGAColor::Magenta => 0x5,
            VGAColor::Brown => 0x6,
            VGAColor::LightGray => 0x7,
            VGAColor::DarkGray => 0x8,
            VGAColor::LightBlue => 0x9,
            VGAColor::LightGreen => 0xa,
            VGAColor::LightCyan => 0xb,
            VGAColor::LightRed => 0xc,
            VGAColor::LightMagenta => 0xd,
            VGAColor::Yellow => 0xe,
            VGAColor::White => 0xf,
        }
    }
}

/// A colour attribute byte: background in the high nibble, foreground in the
/// low one.
#[derive(Clone, Copy, Debug, PartialEq, Eq, Structural)]
pub struct VGAColorCode(u8);

impl VGAColorCode {
    pub closed spec fn spec_value(self) -> u8 {
        self.0
    }

    pub fn new(fg: VGAColor, bg: VGAColor) -> (r: Self)
        ensures
            r.spec_value() == (color_number(bg) << 4u8) | color_number(fg),
    {
        VGAColorCode((bg.number() << 4u8) | fg.number())
    }

    /// The colour attribute held in byte `v`.
    pub fn from_value(v: u8) -> (r: Self)
        ensures
            r.spec_value() == v,
    {
        VGAColorCode(v)
    }

    /// The attribute byte.
    pub fn value(&self) -> (r: u8)
        ensures
            r == self.spec_value(),
    {
        self.0
    }
}

/// One screen cell: a glyph and its colour.
#[derive(Clone, Copy, Debug, PartialEq, Eq, Structural)]
pub struct VGAChar {
    pub ascii: u8,
    pub color: VGAColorCode,
}

/// The contents of the text screen, row by row.
#[derive(Clone, Copy)]
pub struct VGABuffer {
    pub chars: [VGAChar; 2000],
}

/// The glyph a byte is shown as: printable ASCII and newline stand for
/// themselves, anything else becomes a block.
pub open spec fn glyph(b: u8) -> u8 {
    if (0x20 <= b && b <= 0x7E) || b == 0x0A {
        b
    } else {
        BLOCK_GLYPH
    }
}

/// The screen moved up one row, the last row blanked in `color`.
pub open spec fn scrolled(cells: Seq<VGAChar>, color: VGAColorCode) -> Seq<VGAChar> {
    cells.subrange(80, 2000) + Seq::new(80, |i: int| VGAChar { ascii: 0x20, color })
}

/// The cursor offset and screen after writing glyph `b`, or `None` where the
/// write would fall outside the screen or the offset would overflow.
pub open spec fn write_step(offset: usize, cells: Seq<VGAChar>, color: VGAColorCode, b: u8) -> Option<(usize, Seq<VGAChar>)> {
    if b == 0x0A {
        let next = offset - offset % 80 + 80;
        if next > usize::MAX {
            None
        } else if next == 2000 {
            Some((1920usize, scrolled(cells, color)))
        } else {
            Some((next as usize, cells))
        }
    } else if offset < 2000 {
        Some(((offset + 1) as usize, cells.update(offset as int, VGAChar { ascii: b, color })))
    } else {
        None
    }
}

/// The cursor offset and screen after printing `bytes`, or `None` where some
/// write would fall outside the screen.
pub open spec fn print_steps(offset: usize, cells: Seq<VGAChar>, color: VGAColorCode, bytes: Seq<u8>) -> Option<(usize, Seq<VGAChar>)>
    decreases bytes.len(),
{
    if bytes.len() == 0 {
        Some((offset, cells))
    } else {
        match write_step(offset, cells, color, glyph(bytes[0])) {
            Some((o, c)) => print_steps(o, c, color, bytes.drop_first()),
            None => None,
        }
    }
}

/// A cursor on the text screen with the colour it writes in.
pub struct VGAWriter {
    offset: usize,
    color: VGAColorCode,
}

impl VGAWriter {
    pub closed spec fn spec_offset(&self) -> usize {
        self.offset
    }

    pub closed spec fn spec_color(&self) -> VGAColorCode {
        self.color
    }

    /// A white-on-black cursor at column `x` of row `y`.
    pub fn new(x: usize, y: usize) -> (r: Self)
        requires
            x + y * 80 <= usize::MAX,
        ensures
            r.spec_offset() == x + y * 80,
            r.spec_color().spec_value() == (color_number(VGAColor::Black) << 4u8) | color_number(
                VGAColor::White,
            ),
    {
        VGAWriter { offset: x + y * SCREEN_WIDTH, color: VGAColorCode::new(VGAColor::White, VGAColor::Black) }
    }

    /// The cell the next glyph goes to.
    pub fn offset(&self) -> (r: usize)
        ensures
            r == self.spec_offset(),
    {
        self.offset
    }

    fn newline(&mut self, screen: &mut VGABuffer)
        requires
            write_step(old(self).offset, old(screen).chars@, old(self).color, 0x0A).is_some(),
        ensures
            final(self).color == old(self).color,
            write_step(old(self).offset, old(screen).chars@, old(self).color, 0x0A) == Some(
                (final(self).offset, final(screen).chars@),
            ),
    {
        self.offset = self.offset - self.offset % SCREEN_WIDTH;
        self.offset = self.offset + SCREEN_WIDTH;
        if self.offset == SCREEN_WIDTH * SCREEN_HEIGHT {
            self.offset = self.offset - SCREEN_WIDTH;
            let ghost old_cells = screen.chars@;
            let mut i: usize = 0;
            while i < 1920
                invariant
                    i <= 1920,
                    forall|j: int| 0 <= j < i ==> screen.chars@[j] == old_cells[j + 80],
                    forall|j: int| i <= j < 2000 ==> screen.chars@[j] == old_cells[j],
                decreases 1920 - i,
            {
                screen.chars[i] = screen.chars[i + SCREEN_WIDTH];
                i = i + 1;
            }
            let space = VGAChar { ascii: 0x20, color: self.color };
            while i < 2000
                invariant
                    1920 <= i <= 2000,
                    forall|j: int| 0 <= j < 1920 ==> screen.chars@[j] == old_cells[j + 80],
                    forall|j: int| 1920 <= j < i ==> screen.chars@[j] == space,
                decreases 2000 - i,
            {
                screen.chars[i] = space;
                i = i + 1;
            }
            assert(screen.chars@ =~= scrolled(old_cells, self.color));
        }
    }

    fn write_byte(&mut self, screen: &mut VGABuffer, b: u8)
        requires
            write_step(old(self).offset, old(screen).chars@, old(self).color, b).is_some(),
        ensures
            final(self).color == old(self).color,
            write_step(old(self).offset, old(screen).chars@, old(self).color, b) == Some(
                (final(self).offset, final(screen).chars@),
            ),
    {
        if b == 0x0A {
            self.newline(screen);
        } else {
            screen.chars[self.offset] = VGAChar { ascii: b, color: self.color };
            self.offset = self.offset + 1;
        }
    }

    /// Writes the bytes of `s` from the cursor on: printable ASCII as is, a
    /// newline moves to the start of the next row (scrolling the screen up
    /// one row when it leaves the last one), any other byte as a block. No
    /// write may fall past the last cell.
    pub fn print(&mut self, screen: &mut VGABuffer, s: &str)
        requires
            print_steps(old(self).spec_offset(), old(screen).chars@, old(self).spec_color(), s.spec_bytes()).is_some(),
        ensures
            final(self).spec_color() == old(self).spec_color(),
            print_steps(old(self).spec_offset(), old(screen).chars@, old(self).spec_color(), s.spec_bytes())
                == Some((final(self).spec_offset(), final(screen).chars@)),
    {
        let bytes = s.as_bytes();
        let ghost all = bytes@;
        let ghost start = (self.offset, screen.chars@);
        let mut i: usize = 0;
        assert(all.subrange(0, all.len() as int) =~= all);
        while i < bytes.len()
            invariant
                i <= all.len(),
                bytes@ == all,
                all == s.spec_bytes(),
                self.color == old(self).color,
                print_steps(start.0, start.1, self.color, all) == print_steps(
                    self.offset,
                    screen.chars@,
                    self.color,
                    all.subrange(i as int, all.len() as int),
                ),
                print_steps(start.0, start.1, self.color, all).is_some(),
            decreases all.len() - i,
        {
            let b = bytes[i];
            let g = if (0x20 <= b && b <= 0x7E) || b == 0x0A {
                b
            } else {
                BLOCK_GLYPH
            };
            let ghost rest = all.subrange(i as int, all.len() as int);
            assert(rest[0] == b);
            assert(rest.drop_first() =~= all.subrange(i + 1, all.len() as int));
            self.write_byte(screen, g);
            i = i + 1;
        }
        assert(all.subrange(i as int, all.len() as int) =~= Seq::<u8>::empty());
    }

    /// Whether printing `s` from the cursor keeps every write on the screen,
    /// which `print` asks of its caller.
    pub fn fits(&self, screen: &VGABuffer, s: &str) -> (r: bool)
        ensures
            r == print_steps(self.spec_offset(), screen.chars@, self.spec_color(), s.spec_bytes()).is_some(),
    {
        let bytes = s.as_bytes();
        let ghost all = bytes@;
        let mut scratch = *screen;
        let mut cursor = VGAWriter { offset: self.offset, color: self.color };
        let mut i: usize = 0;
        assert(all.subrange(0, all.len() as int) =~= all);
        while i < bytes.len()
            invariant
                i <= all.len(),
                bytes@ == all,
                all == s.spec_bytes(),
                cursor.color == self.color,
                print_steps(self.offset, screen.chars@, self.color, all) == print_steps(
                    cursor.offset,
                    scratch.chars@,
                    cursor.color,
                    all.subrange(i as int, all.len() as int),
                ),
            decreases all.len() - i,
        {
            let b = bytes[i];
            let g = if (0x20 <= b && b <= 0x7E) || b == 0x0A {
                b
            } else {
                BLOCK_GLYPH
            };
            let ghost rest = all.subrange(i as int, all.len() as int);
            assert(rest[0] == b);
            assert(rest.drop_first() =~= all.subrange(i + 1, all.len() as int));
            let ok = if g == 0x0A {
                cursor.offset - cursor.offset % SCREEN_WIDTH <= usize::MAX - SCREEN_WIDTH
            } else {
                cursor.offset < SCREEN_CELLS
            };
            if !ok {
                return false;
            }
            cursor.write_byte(&mut scratch, g);
            i = i + 1;
        }
        assert(all.subrange(i as int, all.len() as int) =~= Seq::<u8>::empty());
        true
    }

    /// `print` of `s` followed by a newline.
    pub fn println(&mut self, screen: &mut VGABuffer, s: &str)
        requires
            print_steps(old(self).spec_offset(), old(screen).chars@, old(self).spec_color(), s.spec_bytes().push(0x0A)).is_some(),
        ensures
            final(self).spec_color() == old(self).spec_color(),
            print_steps(old(self).spec_offset(), old(screen).chars@, old(self).spec_color(), s.spec_bytes().push(0x0A))
                == Some((final(self).spec_offset(), final(screen).chars@)),
    {
        proof {
            lemma_print_steps_push(old(self).offset, old(screen).chars@, old(self).color, s.spec_bytes(), 0x0A);
        }
        self.print(screen, s);
        self.write_byte(screen, 0x0A);
    }
}

/// Printing `bytes` then one more byte is the same as printing both at once.
proof fn lemma_print_steps_push(offset: usize, cells: Seq<VGAChar>, color: VGAColorCode, bytes: Seq<u8>, b: u8)
    ensures
        print_steps(offset, cells, color, bytes.push(b)) == match print_steps(offset, cells, color, bytes) {
            Some((o, c)) => write_step(o, c, color, glyph(b)),
            None => None,
        },
    decreases bytes.len(),
{
    if bytes.len() == 0 {
        assert(bytes.push(b).drop_first() =~= Seq::<u8>::empty());
        assert(bytes.push(b)[0] == b);
        match write_step(offset, cells, color, glyph(b)) {
            Some((o, c)) => {
                assert(print_steps(o, c, color, Seq::<u8>::empty()) == Some((o, c)));
            },
            None => {},
        }
    } else {
        assert(bytes.push(b).drop_first() =~= bytes.drop_first().push(b));
        assert(bytes.push(b)[0] == bytes[0]);
        match write_step(offset, cells, color, glyph(bytes[0])) {
            Some((o, c)) => {
                lemma_print_steps_push(o, c, color, bytes.drop_first(), b);
            },
            None => {},
        }
    }
}

} // verus!
