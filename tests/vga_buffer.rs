use kernel_boot::vga_buffer::{VGABuffer, VGAChar, VGAColor, VGAColorCode, VGAWriter};

fn blank(color: VGAColorCode) -> VGABuffer {
    VGABuffer { chars: [VGAChar { ascii: b' ', color }; 2000] }
}

#[test]
fn color_codes() {
    assert_eq!(VGAColorCode::new(VGAColor::White, VGAColor::Black).value(), 0x0F);
    assert_eq!(VGAColorCode::new(VGAColor::Yellow, VGAColor::Blue).value(), 0x1E);
    assert_eq!(VGAColorCode::new(VGAColor::Black, VGAColor::LightRed).value(), 0xC0);
    assert_eq!(VGAColor::LightMagenta.number(), 0xD);
}

#[test]
fn writer_starts_at_column_and_row() {
    assert_eq!(VGAWriter::new(0, 0).offset(), 0);
    assert_eq!(VGAWriter::new(5, 3).offset(), 245);
    assert_eq!(VGAWriter::new(0, 24).offset(), 1920);
}

#[test]
fn print_writes_cells_and_advances() {
    let white = VGAColorCode::new(VGAColor::White, VGAColor::Black);
    let mut screen = blank(VGAColorCode::new(VGAColor::Green, VGAColor::Black));
    let mut w = VGAWriter::new(2, 1);
    w.print(&mut screen, "hi");
    assert_eq!(w.offset(), 84);
    assert_eq!(screen.chars[82], VGAChar { ascii: b'h', color: white });
    assert_eq!(screen.chars[83], VGAChar { ascii: b'i', color: white });
    assert_eq!(screen.chars[84].ascii, b' ');
    assert_eq!(screen.chars[84].color.value(), 0x02);
}

#[test]
fn unprintable_bytes_become_blocks() {
    let mut screen = blank(VGAColorCode::new(VGAColor::White, VGAColor::Black));
    let mut w = VGAWriter::new(0, 0);
    w.print(&mut screen, "a\tb\u{e9}~");
    let glyphs: Vec<u8> = screen.chars[0..6].iter().map(|c| c.ascii).collect();
    assert_eq!(glyphs, vec![b'a', 219, b'b', 219, 219, b'~']);
    assert_eq!(w.offset(), 6);
}

#[test]
fn newline_moves_to_next_row_start() {
    let mut screen = blank(VGAColorCode::new(VGAColor::White, VGAColor::Black));
    let mut w = VGAWriter::new(5, 3);
    w.print(&mut screen, "a\nb");
    assert_eq!(screen.chars[245].ascii, b'a');
    assert_eq!(screen.chars[320].ascii, b'b');
    assert_eq!(w.offset(), 321);
    w.println(&mut screen, "c");
    assert_eq!(screen.chars[321].ascii, b'c');
    assert_eq!(w.offset(), 400);
}

#[test]
fn newline_on_last_row_scrolls() {
    let black = VGAColorCode::new(VGAColor::White, VGAColor::Black);
    let mut screen = blank(black);
    screen.chars[0].ascii = b'T';
    screen.chars[80].ascii = b'S';
    let mut w = VGAWriter::new(0, 24);
    w.println(&mut screen, "xy");
    assert_eq!(w.offset(), 1920);
    assert_eq!(screen.chars[0].ascii, b'S');
    assert_eq!(screen.chars[1840].ascii, b'x');
    assert_eq!(screen.chars[1841].ascii, b'y');
    for i in 1920..2000 {
        assert_eq!(screen.chars[i], VGAChar { ascii: b' ', color: black });
    }
}

#[test]
fn fits_tells_when_a_write_would_leave_the_screen() {
    let mut screen = blank(VGAColorCode::from_value(0x07));
    assert_eq!(VGAColorCode::from_value(0x07).value(), 0x07);
    let w = VGAWriter::new(78, 24);
    assert!(w.fits(&screen, "ab"));
    assert!(!w.fits(&screen, "abc"));
    assert!(w.fits(&screen, "a\nc"));
    assert!(!w.fits(&screen, "ab\nc"));
    let mut w2 = VGAWriter::new(78, 24);
    w2.print(&mut screen, "ab");
    assert_eq!(w2.offset(), 2000);
    assert!(!w2.fits(&screen, "x"));
    assert!(w2.fits(&screen, "\n"));
    assert!(VGAWriter::new(0, 30).fits(&screen, "\n\n"));
    assert!(!VGAWriter::new(0, 30).fits(&screen, "x"));
}
