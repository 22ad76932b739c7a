use vga_buffer::{Buffer, Color, ColorCode, ScreenChar, BUFFER_HEIGHT, BUFFER_WIDTH};

fn cell(byte: u8) -> ScreenChar {
    ScreenChar { ascii_character: byte, color_code: ColorCode::new(Color::White, Color::Blue) }
}

#[test]
fn display_is_twenty_five_rows_of_eighty_columns() {
    assert_eq!(BUFFER_HEIGHT, 25);
    assert_eq!(BUFFER_WIDTH, 80);
}

#[test]
fn blank_cell_is_a_space_in_the_given_colors() {
    let code = ColorCode::new(Color::Yellow, Color::Black);
    assert_eq!(ScreenChar::blank(code), ScreenChar { ascii_character: b' ', color_code: code });
}

#[test]
fn filled_region_holds_the_cell_everywhere() {
    let buffer = Buffer::filled(cell(b'#'));
    for row in 0..BUFFER_HEIGHT {
        for col in 0..BUFFER_WIDTH {
            assert_eq!(buffer.read(row, col), cell(b'#'));
        }
    }
}

#[test]
fn region_write_is_read_back() {
    let mut buffer = Buffer::filled(cell(b' '));
    buffer.write(3, 7, cell(b'Q'));
    assert_eq!(buffer.read(3, 7), cell(b'Q'));
    buffer.write(3, 7, cell(b'R'));
    assert_eq!(buffer.read(3, 7), cell(b'R'));
}

#[test]
fn region_write_changes_one_cell_only() {
    let mut buffer = Buffer::filled(cell(b'.'));
    buffer.write(24, 79, cell(b'Z'));
    buffer.write(0, 0, cell(b'A'));
    for row in 0..BUFFER_HEIGHT {
        for col in 0..BUFFER_WIDTH {
            let expected = if (row, col) == (24, 79) {
                cell(b'Z')
            } else if (row, col) == (0, 0) {
                cell(b'A')
            } else {
                cell(b'.')
            };
            assert_eq!(buffer.read(row, col), expected);
        }
    }
}

#[test]
fn region_keeps_attribute_with_the_byte() {
    let mut buffer = Buffer::filled(cell(b' '));
    let red = ScreenChar { ascii_character: b'!', color_code: ColorCode(0x4f) };
    buffer.write(10, 40, red);
    let read = buffer.read(10, 40);
    assert_eq!(read.ascii_character, b'!');
    assert_eq!(read.color_code, ColorCode(0x4f));
}
