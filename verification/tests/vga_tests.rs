use kernel_core::vga::{
    Color, ColorCode, ScreenChar, VGAWriter, BUFFER_CELLS, BUFFER_HEIGHT, BUFFER_WIDTH, UNPRINTABLE,
    _print,
};

fn green() -> ColorCode {
    ColorCode::new(Color::Green, Color::Black)
}

#[test]
fn screen_constants() {
    assert_eq!(BUFFER_HEIGHT, 25);
    assert_eq!(BUFFER_WIDTH, 80);
    assert_eq!(BUFFER_CELLS, BUFFER_HEIGHT * BUFFER_WIDTH);
    assert_eq!(UNPRINTABLE, 0xfe);
}

#[test]
fn color_codes() {
    assert_eq!(Color::Black.code(), 0);
    assert_eq!(Color::Blue.code(), 1);
    assert_eq!(Color::Green.code(), 2);
    assert_eq!(Color::Cyan.code(), 3);
    assert_eq!(Color::Red.code(), 4);
    assert_eq!(Color::Magenta.code(), 5);
    assert_eq!(Color::Brown.code(), 6);
    assert_eq!(Color::LightGray.code(), 7);
    assert_eq!(Color::DarkGray.code(), 8);
    assert_eq!(Color::LightBlue.code(), 9);
    assert_eq!(Color::LightGreen.code(), 10);
    assert_eq!(Color::LightCyan.code(), 11);
    assert_eq!(Color::LightRed.code(), 12);
    assert_eq!(Color::Pink.code(), 13);
    assert_eq!(Color::Yellow.code(), 14);
    assert_eq!(Color::White.code(), 15);
}

#[test]
fn color_code_packs_background_high() {
    assert_eq!(ColorCode::new(Color::Green, Color::Black), ColorCode(0x02));
    assert_eq!(ColorCode::new(Color::White, Color::Blue), ColorCode(0x1F));
    assert_eq!(ColorCode::new(Color::Yellow, Color::Red), ColorCode(0x4E));
    assert_eq!(ColorCode::new(Color::Black, Color::White), ColorCode(0xF0));
    assert_eq!(ColorCode::new(Color::White, Color::White), ColorCode(0xFF));
}

#[test]
fn new_writer_is_blank() {
    let w = VGAWriter::new(green());
    assert_eq!(w.row(), 0);
    assert_eq!(w.column(), 0);
    assert_eq!(w.color(), green());
    assert_eq!(w.cells().len(), 2000);
    for c in w.cells().iter() {
        assert_eq!(*c, ScreenChar(b' ', green()));
    }
}

#[test]
fn write_str_places_bytes_left_to_right() {
    let mut w = VGAWriter::new(green());
    w.write_str("Hi!");
    assert_eq!(w.cell(0, 0), ScreenChar(b'H', green()));
    assert_eq!(w.cell(0, 1), ScreenChar(b'i', green()));
    assert_eq!(w.cell(0, 2), ScreenChar(b'!', green()));
    assert_eq!(w.cell(0, 3), ScreenChar(b' ', green()));
    assert_eq!(w.row(), 0);
    assert_eq!(w.column(), 3);
}

#[test]
fn line_feed_starts_a_new_line() {
    let mut w = VGAWriter::new(green());
    w.write_str("a\nbc\n");
    assert_eq!(w.cell(0, 0).0, b'a');
    assert_eq!(w.cell(0, 1).0, b' ');
    assert_eq!(w.cell(1, 0).0, b'b');
    assert_eq!(w.cell(1, 1).0, b'c');
    assert_eq!(w.row(), 2);
    assert_eq!(w.column(), 0);
}

#[test]
fn full_row_wraps_on_the_next_byte() {
    let mut w = VGAWriter::new(green());
    for _ in 0..80 {
        w.write_byte(b'x');
    }
    assert_eq!(w.row(), 0);
    assert_eq!(w.column(), 80);
    assert_eq!(w.cell(0, 79).0, b'x');
    w.write_byte(b'y');
    assert_eq!(w.row(), 1);
    assert_eq!(w.column(), 1);
    assert_eq!(w.cell(1, 0).0, b'y');
}

#[test]
fn line_feed_after_full_row_moves_one_row() {
    let mut w = VGAWriter::new(green());
    for _ in 0..80 {
        w.write_byte(b'x');
    }
    w.write_byte(b'\n');
    assert_eq!(w.row(), 1);
    assert_eq!(w.column(), 0);
}

#[test]
fn unprintable_bytes_become_boxes() {
    let mut w = VGAWriter::new(green());
    w.write_str("\u{e9}\t~\u{7f} ");
    assert_eq!(w.cell(0, 0).0, 0xfe);
    assert_eq!(w.cell(0, 1).0, 0xfe);
    assert_eq!(w.cell(0, 2).0, 0xfe);
    assert_eq!(w.cell(0, 3).0, b'~');
    assert_eq!(w.cell(0, 4).0, 0xfe);
    assert_eq!(w.cell(0, 5).0, b' ');
    assert_eq!(w.column(), 6);
}

#[test]
fn write_byte_stores_any_byte_but_line_feed() {
    let mut w = VGAWriter::new(green());
    w.write_byte(0x00);
    w.write_byte(0xff);
    assert_eq!(w.cell(0, 0).0, 0x00);
    assert_eq!(w.cell(0, 1).0, 0xff);
    assert_eq!(w.column(), 2);
}

#[test]
fn scroll_moves_rows_up_and_blanks_the_last() {
    let mut w = VGAWriter::new(green());
    for i in 0..25u8 {
        w.write_byte(b'A' + i);
        w.write_byte(b'\n');
    }
    assert_eq!(w.row(), 24);
    assert_eq!(w.column(), 0);
    for r in 0..24usize {
        assert_eq!(w.cell(r, 0), ScreenChar(b'B' + r as u8, green()));
        assert_eq!(w.cell(r, 1), ScreenChar(b' ', green()));
    }
    for c in 0..80usize {
        assert_eq!(w.cell(24, c), ScreenChar(b' ', green()));
    }
}

#[test]
fn scroll_on_wrap_in_last_row() {
    let mut w = VGAWriter::new(green());
    for _ in 0..24 {
        w.new_line();
    }
    assert_eq!(w.row(), 24);
    for _ in 0..80 {
        w.write_byte(b'z');
    }
    assert_eq!(w.row(), 24);
    assert_eq!(w.column(), 80);
    w.write_byte(b'!');
    assert_eq!(w.row(), 24);
    assert_eq!(w.column(), 1);
    assert_eq!(w.cell(24, 0).0, b'!');
    assert_eq!(w.cell(24, 1).0, b' ');
    for c in 0..80usize {
        assert_eq!(w.cell(23, c).0, b'z');
    }
}

#[test]
fn new_line_keeps_cells_above_last_row() {
    let mut w = VGAWriter::new(green());
    w.write_str("top");
    w.new_line();
    assert_eq!(w.cell(0, 0).0, b't');
    assert_eq!(w.cell(0, 2).0, b'p');
    assert_eq!(w.row(), 1);
}

#[test]
fn empty_text_changes_nothing() {
    let mut w = VGAWriter::new(green());
    w.write_str("ab");
    w.write_str("");
    assert_eq!(w.row(), 0);
    assert_eq!(w.column(), 2);
    assert_eq!(w.cell(0, 0).0, b'a');
    assert_eq!(w.cell(0, 1).0, b'b');
}

#[test]
fn print_writes_through_the_writer() {
    let mut a = VGAWriter::new(green());
    let mut b = VGAWriter::new(green());
    _print(&mut a, "Interrupts and pic inited!\n");
    b.write_str("Interrupts and pic inited!\n");
    assert_eq!(a.cells()[..], b.cells()[..]);
    assert_eq!(a.row(), 1);
    assert_eq!(a.column(), 0);
    assert_eq!(a.cell(0, 25).0, b'!');
}
