use vga_text::{
    print_to_screen, Color, ColorCode, ScreenChar, Writer, BUFFER_HEIGHT, BUFFER_WIDTH,
    PLACEHOLDER,
};

fn yellow_on_black() -> ColorCode {
    ColorCode::new(Color::Yellow, Color::Black)
}

fn cell(w: &Writer, row: usize, col: usize) -> ScreenChar {
    w.read_char(row, col).unwrap()
}

fn ch(w: &Writer, row: usize, col: usize) -> u8 {
    cell(w, row, col).ascii_character
}

fn row_text(w: &Writer, row: usize) -> Vec<u8> {
    (0..BUFFER_WIDTH).map(|c| ch(w, row, c)).collect()
}

fn assert_row_blank(w: &Writer, row: usize, color: ColorCode) {
    for c in 0..BUFFER_WIDTH {
        assert_eq!(cell(w, row, c), ScreenChar { ascii_character: b' ', color_code: color });
    }
}

#[test]
fn color_code_packs_nibbles() {
    assert_eq!(yellow_on_black().value(), 0x0e);
    assert_eq!(ColorCode::new(Color::White, Color::Blue).value(), 0x1f);
    assert_eq!(ColorCode::new(Color::Black, Color::White).value(), 0xf0);
    assert_eq!(ColorCode::new(Color::LightGreen, Color::Red).value(), 0x4a);
}

#[test]
fn color_indices() {
    assert_eq!(Color::Black.index(), 0);
    assert_eq!(Color::LightGray.index(), 7);
    assert_eq!(Color::Pink.index(), 13);
    assert_eq!(Color::White.index(), 15);
}

#[test]
fn fresh_writer_is_blank() {
    let w = Writer::new(yellow_on_black());
    assert_eq!(w.column_position(), 0);
    assert_eq!(w.color_code(), yellow_on_black());
    for r in 0..BUFFER_HEIGHT {
        assert_row_blank(&w, r, yellow_on_black());
    }
}

#[test]
fn read_char_outside_grid_is_none() {
    let w = Writer::new(yellow_on_black());
    assert_eq!(w.read_char(BUFFER_HEIGHT, 0), None);
    assert_eq!(w.read_char(0, BUFFER_WIDTH), None);
    assert!(w.read_char(BUFFER_HEIGHT - 1, BUFFER_WIDTH - 1).is_some());
}

#[test]
fn write_string_hi() {
    let mut w = Writer::new(yellow_on_black());
    w.write_string("Hi");
    assert_eq!(ch(&w, 24, 0), b'H');
    assert_eq!(ch(&w, 24, 1), b'i');
    assert_eq!(w.column_position(), 2);
}

#[test]
fn eighty_one_bytes_wrap() {
    let mut w = Writer::new(yellow_on_black());
    for _ in 0..80 {
        w.write_byte(b'x');
    }
    assert_eq!(row_text(&w, 24), vec![b'x'; 80]);
    assert_eq!(w.column_position(), 80);
    assert_row_blank(&w, 23, yellow_on_black());
    w.write_byte(b'x');
    assert_eq!(row_text(&w, 23), vec![b'x'; 80]);
    assert_eq!(ch(&w, 24, 0), b'x');
    for c in 1..BUFFER_WIDTH {
        assert_eq!(ch(&w, 24, c), b' ');
    }
    assert_eq!(w.column_position(), 1);
}

#[test]
fn newline_between_letters() {
    let mut w = Writer::new(yellow_on_black());
    w.write_string("a\nb");
    assert_eq!(ch(&w, 23, 0), b'a');
    assert_eq!(ch(&w, 24, 0), b'b');
    for c in 1..BUFFER_WIDTH {
        assert_eq!(ch(&w, 23, c), b' ');
        assert_eq!(ch(&w, 24, c), b' ');
    }
    assert_eq!(w.column_position(), 1);
}

#[test]
fn nul_byte_becomes_placeholder() {
    let mut w = Writer::new(yellow_on_black());
    w.write_string("\u{0}");
    assert_eq!(ch(&w, 24, 0), 0xfe);
    assert_eq!(PLACEHOLDER, 0xfe);
    assert_eq!(w.column_position(), 1);
}

#[test]
fn printable_bytes_pass_through() {
    let mut w = Writer::new(yellow_on_black());
    for b in 0x20u8..=0x7e {
        let s = String::from_utf8(vec![b]).unwrap();
        w.write_string(&s);
        let col = w.column_position();
        assert_eq!(ch(&w, 24, col - 1), b);
    }
}

#[test]
fn non_printable_bytes_are_substituted() {
    let mut w = Writer::new(yellow_on_black());
    for b in (0x00u8..0x20).chain(std::iter::once(0x7f)) {
        if b == b'\n' {
            continue;
        }
        let s = String::from_utf8(vec![b]).unwrap();
        w.write_string(&s);
        let col = w.column_position();
        assert_eq!(ch(&w, 24, col - 1), PLACEHOLDER);
    }
    let mut w = Writer::new(yellow_on_black());
    w.write_string("\u{e9}!");
    assert_eq!(ch(&w, 24, 0), PLACEHOLDER);
    assert_eq!(ch(&w, 24, 1), PLACEHOLDER);
    assert_eq!(ch(&w, 24, 2), b'!');
    assert_eq!(w.column_position(), 3);
}

#[test]
fn write_byte_does_not_substitute() {
    let mut w = Writer::new(yellow_on_black());
    w.write_byte(0x00);
    w.write_byte(0xb6);
    assert_eq!(ch(&w, 24, 0), 0x00);
    assert_eq!(ch(&w, 24, 1), 0xb6);
}

#[test]
fn newline_scrolls_at_any_column() {
    for n in [0usize, 1, 37, 79, 80] {
        let mut w = Writer::new(yellow_on_black());
        for _ in 0..n {
            w.write_byte(b'q');
        }
        w.write_byte(b'\n');
        assert_eq!(w.column_position(), 0);
        for c in 0..BUFFER_WIDTH {
            assert_eq!(ch(&w, 23, c), if c < n { b'q' } else { b' ' });
        }
        assert_row_blank(&w, 24, yellow_on_black());
    }
}

#[test]
fn scroll_moves_every_row_up() {
    let mut w = Writer::new(yellow_on_black());
    for r in 0..BUFFER_HEIGHT {
        let line: String = (0..BUFFER_WIDTH)
            .map(|c| (b'A' + ((r + c) % 26) as u8) as char)
            .collect();
        w.write_string(&line);
        if r + 1 < BUFFER_HEIGHT {
            w.write_byte(b'\n');
        }
    }
    let before: Vec<Vec<ScreenChar>> = (0..BUFFER_HEIGHT)
        .map(|r| (0..BUFFER_WIDTH).map(|c| cell(&w, r, c)).collect())
        .collect();
    w.write_byte(b'\n');
    for r in 1..BUFFER_HEIGHT {
        for c in 0..BUFFER_WIDTH {
            assert_eq!(cell(&w, r - 1, c), before[r][c]);
        }
    }
    assert_row_blank(&w, 24, yellow_on_black());
}

#[test]
fn cells_carry_the_current_color() {
    let mut w = Writer::new(ColorCode::new(Color::LightGray, Color::Blue));
    w.write_string("ok");
    let green = ColorCode::new(Color::Green, Color::Black);
    let mut g = Writer::new(green);
    g.write_string("ok");
    assert_eq!(
        cell(&w, 24, 0),
        ScreenChar { ascii_character: b'o', color_code: ColorCode::new(Color::LightGray, Color::Blue) }
    );
    assert_eq!(cell(&g, 24, 1), ScreenChar { ascii_character: b'k', color_code: green });
}

#[test]
fn startup_greeting() {
    let w = print_to_screen();
    let mut expected: Vec<u8> = b"Hello!@ W".to_vec();
    expected.extend_from_slice(&[PLACEHOLDER; 4]);
    expected.extend_from_slice(b"rld!");
    assert_eq!(w.column_position(), expected.len());
    for (c, b) in expected.iter().enumerate() {
        assert_eq!(cell(&w, 24, c), ScreenChar { ascii_character: *b, color_code: yellow_on_black() });
    }
    assert_eq!(ch(&w, 24, expected.len()), b' ');
}
