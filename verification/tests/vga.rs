use blog_os::vga_buffer::byte_to_ascii;
use blog_os::vga_buffer::Color;
use blog_os::vga_buffer::ColorCode;
use blog_os::vga_buffer::Pallet;
use blog_os::vga_buffer::ScreenChar;
use blog_os::vga_buffer::TextType;
use blog_os::vga_buffer::Writer;
use blog_os::vga_buffer::BUFFER_HEIGHT;
use blog_os::vga_buffer::BUFFER_WIDTH;
use blog_os::vga_buffer::LAST_ROW;
use blog_os::vga_buffer::PLACEHOLDER_CHAR;

fn all_colors() -> Vec<Color> {
    vec![
        Color::Black,
        Color::Blue,
        Color::Green,
        Color::Cyan,
        Color::Red,
        Color::Magenta,
        Color::Brown,
        Color::LightGray,
        Color::DarkGray,
        Color::LightBlue,
        Color::LightGreen,
        Color::LightCyan,
        Color::LightRed,
        Color::Pink,
        Color::Yellow,
        Color::White,
    ]
}

fn default_pallet() -> Pallet {
    Pallet {
        text: ColorCode::new(Color::Green, Color::Black),
        error: ColorCode::new(Color::LightRed, Color::DarkGray),
    }
}

#[test]
fn color_code_roundtrip_all_pairs() {
    for &fg in all_colors().iter() {
        for &bg in all_colors().iter() {
            let code = ColorCode::new(fg, bg);
            assert_eq!(code.foreground(), fg);
            assert_eq!(code.background(), bg);
        }
    }
}

#[test]
fn color_codes_are_distinct() {
    let mut seen = Vec::new();
    for &fg in all_colors().iter() {
        for &bg in all_colors().iter() {
            let code = ColorCode::new(fg, bg);
            assert!(!seen.contains(&code));
            seen.push(code);
        }
    }
    assert_eq!(seen.len(), 256);
}

#[test]
fn color_from_code_inverts_code() {
    for k in 0u8..16 {
        assert_eq!(Color::from_code(k).code(), k);
    }
}

#[test]
fn byte_to_ascii_placeholder_substitution() {
    for b in 0u8..=255 {
        let out = byte_to_ascii(b);
        if (32..=126).contains(&b) || b == b'\n' {
            assert_eq!(out, b);
        } else {
            assert_eq!(out, PLACEHOLDER_CHAR);
        }
    }
}

#[test]
fn hello_world_lands_on_current_row() {
    let mut w = Writer::new(default_pallet());
    let row = w.row_position();
    assert_eq!(row, LAST_ROW);
    assert_eq!(w.col_position(), 0);
    w.write_string("Hello, World!", TextType::Text);
    let expected = b"Hello, World!";
    assert_eq!(expected.len(), 13);
    for (i, &ch) in expected.iter().enumerate() {
        let cell = w.cell_at(row, i);
        assert_eq!(cell.ascii_char, ch);
        assert_eq!(cell.color_code, default_pallet().text);
    }
    assert_eq!(w.col_position(), 13);
    assert_eq!(w.row_position(), row);
}

#[test]
fn non_ascii_bytes_become_placeholder_on_grid() {
    let mut w = Writer::new(default_pallet());
    w.write_bytes(&[0x01, 0x9c, b'A'], TextType::Text);
    assert_eq!(w.cell_at(LAST_ROW, 0).ascii_char, 0x01);
    assert_eq!(w.cell_at(LAST_ROW, 1).ascii_char, 0x9c);
    assert_eq!(w.cell_at(LAST_ROW, 2).ascii_char, b'A');

    let mut w2 = Writer::new(default_pallet());
    w2.write_string("a\u{0301}b", TextType::Text);
    assert_eq!(w2.cell_at(LAST_ROW, 0).ascii_char, b'a');
    assert_eq!(w2.cell_at(LAST_ROW, 1).ascii_char, PLACEHOLDER_CHAR);
    assert_eq!(w2.cell_at(LAST_ROW, 2).ascii_char, PLACEHOLDER_CHAR);
    assert_eq!(w2.cell_at(LAST_ROW, 3).ascii_char, b'b');
    assert_eq!(w2.col_position(), 4);
}

#[test]
fn long_line_wraps_with_implicit_newline() {
    let mut w = Writer::new(default_pallet());
    let mut line = Vec::new();
    for _ in 0..BUFFER_WIDTH {
        line.push(b'x');
    }
    line.push(b'y');
    w.write_bytes(&line, TextType::Text);
    // The row filled up, an implicit newline scrolled it away, and the
    // overflowing byte starts the fresh bottom row.
    assert_eq!(w.row_position(), LAST_ROW);
    assert_eq!(w.col_position(), 1);
    assert_eq!(w.cell_at(LAST_ROW, 0).ascii_char, b'y');
    assert_eq!(w.cell_at(LAST_ROW - 1, 0).ascii_char, b'x');
    assert_eq!(w.cell_at(LAST_ROW - 1, BUFFER_WIDTH - 1).ascii_char, b'x');
}

#[test]
fn scroll_keeps_recent_lines_and_blanks_bottom() {
    let mut w = Writer::new(default_pallet());
    // Far more lines than the grid has rows.
    let total = BUFFER_HEIGHT + 10;
    for i in 0..total {
        let line = format!("line{:02}\n", i);
        w.write_string(&line, TextType::Text);
    }
    // Each written line ends in a newline from the bottom row, so the most
    // recent line sits just above the bottom; older lines stack upward.
    for age in 0..BUFFER_HEIGHT - 1 {
        let row = LAST_ROW - 1 - age;
        let expected = format!("line{:02}", total - 1 - age);
        for (c, ch) in expected.bytes().enumerate() {
            assert_eq!(w.cell_at(row, c).ascii_char, ch, "row {} col {}", row, c);
        }
    }
    // The bottom row is blank, in the normal class's color.
    for c in 0..BUFFER_WIDTH {
        let cell = w.cell_at(LAST_ROW, c);
        assert_eq!(cell, ScreenChar { ascii_char: b' ', color_code: default_pallet().text });
    }
}

#[test]
fn panic_mode_restores_cursor_exactly() {
    let mut w = Writer::new(default_pallet());
    w.write_string("abc", TextType::Text);
    assert_eq!(w.col_position(), 3);
    let before = (w.row_position(), w.col_position());

    let mut p = w.enter_panic_mode();
    p.write_string("PANIC: something went badly wrong");
    let w = p.leave();
    assert_eq!((w.row_position(), w.col_position()), before);

    // The panic text starts at the top row, in the error class's color.
    assert_eq!(w.cell_at(0, 0).ascii_char, b'P');
    assert_eq!(w.cell_at(0, 0).color_code, default_pallet().error);

    // Repeated sessions restore the same point again.
    let mut p2 = w.enter_panic_mode();
    p2.write_string("second report\nwith two lines");
    let w = p2.leave();
    assert_eq!((w.row_position(), w.col_position()), before);
}

#[test]
fn panic_mode_restores_any_prior_cursor() {
    for &text in ["", "12345", "one\ntwo", "ends with newline\n"].iter() {
        let mut w = Writer::new(default_pallet());
        w.write_string(text, TextType::Text);
        let before = (w.row_position(), w.col_position());
        let mut p = w.enter_panic_mode();
        p.write_bytes(&[0xffu8; 200]);
        let w = p.leave();
        assert_eq!((w.row_position(), w.col_position()), before);
    }
}

#[test]
fn test_println_simple() {
    let mut w = Writer::new(default_pallet());
    w.write_string("test_println_simple output\n", TextType::Text);
    assert_eq!(w.col_position(), 0);
}

#[test]
fn test_println_many() {
    let mut w = Writer::new(default_pallet());
    for i in 1..=200 {
        let line = format!("Printing many lines: {} of {}\n", i, 200);
        w.write_string(&line, TextType::Text);
    }
    assert_eq!(w.row_position(), LAST_ROW);
    assert_eq!(w.col_position(), 0);
}

#[test]
fn test_println_output() {
    let s = "Some test string that fits on one line.";
    assert!(s.len() <= BUFFER_WIDTH);
    assert!(s.is_ascii());
    let mut w = Writer::new(default_pallet());
    let line = format!("\n{}\n", s);
    w.write_string(&line, TextType::Text);
    for (i, c) in s.chars().enumerate() {
        let byte = w.cell_at(LAST_ROW - 1, i).ascii_char;
        assert_eq!(char::from(byte), c);
    }
}
