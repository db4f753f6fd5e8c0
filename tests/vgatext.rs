use kdrivers::error::KErrorType;
use kdrivers::vgatext::{
    get_vga_color, put_text, put_text_offset, put_text_offset_color, put_text_with_attribute,
    TextBuffer, VgaColor, TERM_COLOR, VGA_CELLS, VGA_HEIGHT, VGA_WIDTH,
};

#[test]
fn buffer_size() {
    assert_eq!(VGA_WIDTH * VGA_HEIGHT, VGA_CELLS);
    assert_eq!(VGA_CELLS, 2000);
}

#[test]
fn default_attribute_is_green_on_black() {
    assert_eq!(get_vga_color(VgaColor::Green, VgaColor::Black, false), TERM_COLOR);
    assert_eq!(TERM_COLOR, 0x02);
}

#[test]
fn attribute_byte_layout() {
    assert_eq!(get_vga_color(VgaColor::White, VgaColor::Blue, false), 0x1F);
    assert_eq!(get_vga_color(VgaColor::LightGreen, VgaColor::Black, false), 0x0A);
    assert_eq!(get_vga_color(VgaColor::Red, VgaColor::Cyan, true), 0xB4);
    assert_eq!(get_vga_color(VgaColor::Black, VgaColor::White, false), 0xF0);
    assert_eq!(get_vga_color(VgaColor::Black, VgaColor::White, true), 0xF0);
}

#[test]
fn empty_text_is_a_no_op() {
    for offset in [0usize, 1, 999, 1999, 2000] {
        let mut fb = TextBuffer::new();
        assert!(put_text_offset(&mut fb, "", offset).is_ok());
        for i in 0..VGA_CELLS {
            assert_eq!(fb.cell(i), 0);
        }
    }
    let mut fb = TextBuffer::new();
    assert!(put_text(&mut fb, "").is_ok());
    assert_eq!(fb.cell(0), 0);
}

#[test]
fn text_ending_at_last_cell_fits() {
    let mut fb = TextBuffer::new();
    assert!(put_text_offset(&mut fb, "ab", 1998).is_ok());
    assert_eq!(fb.cell(1998), 0x0261);
    assert_eq!(fb.cell(1999), 0x0262);
    assert_eq!(fb.cell(1997), 0);
}

#[test]
fn text_one_past_last_cell_is_rejected() {
    let mut fb = TextBuffer::new();
    let err = put_text_offset(&mut fb, "ab", 1999).unwrap_err();
    assert_eq!(err.error_type(), KErrorType::InvalidInput);
    assert_eq!(err.message(), "text length exceeds buffer capacity");
    assert_eq!(fb.cell(1999), 0);
}

#[test]
fn offset_past_buffer_is_rejected() {
    let mut fb = TextBuffer::new();
    assert!(put_text_offset(&mut fb, "", 2001).is_err());
    assert!(put_text_offset(&mut fb, "x", usize::MAX).is_err());
}

#[test]
fn full_screen_fits_and_one_more_does_not() {
    let full = "x".repeat(2000);
    let mut fb = TextBuffer::new();
    assert!(put_text(&mut fb, &full).is_ok());
    assert_eq!(fb.cell(0), 0x0278);
    assert_eq!(fb.cell(1999), 0x0278);
    let over = "y".repeat(2001);
    let err = put_text(&mut fb, &over).unwrap_err();
    assert_eq!(err.error_type(), KErrorType::InvalidInput);
    assert_eq!(fb.cell(0), 0x0278);
}

#[test]
fn letter_with_attribute_round_trips() {
    let mut fb = TextBuffer::new();
    assert!(put_text_with_attribute(&mut fb, "A", 0, 0x0A).is_ok());
    assert_eq!(fb.cell(0), 0x0A41);
    let mut fb = TextBuffer::new();
    assert!(put_text_offset_color(&mut fb, "A", 0, VgaColor::LightGreen, VgaColor::Black, false).is_ok());
    assert_eq!(fb.cell(0), 0x0A41);
}

#[test]
fn text_written_left_to_right_from_offset() {
    let mut fb = TextBuffer::new();
    assert!(put_text_offset_color(&mut fb, "Hi!", 80, VgaColor::White, VgaColor::Blue, false).is_ok());
    assert_eq!(fb.cell(79), 0);
    assert_eq!(fb.cell(80), 0x1F48);
    assert_eq!(fb.cell(81), 0x1F69);
    assert_eq!(fb.cell(82), 0x1F21);
    assert_eq!(fb.cell(83), 0);
}

#[test]
fn only_low_seven_bits_of_a_byte_are_kept() {
    let mut fb = TextBuffer::new();
    assert!(put_text_with_attribute(&mut fb, "\u{e9}", 0, 0x07).is_ok());
    assert_eq!(fb.cell(0), 0x0743);
    assert_eq!(fb.cell(1), 0x0729);
}
