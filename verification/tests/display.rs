use chip8::display::Display;

#[test]
fn fresh_display_is_blank() {
    let display = Display::new();
    let vram = display.get_vram_copy();
    assert_eq!(vram.len(), 2048);
    assert!(vram.iter().all(|&b| b == 0));
}

#[test]
fn drawing_a_row_turns_pixels_on_without_collision() {
    let mut display = Display::new();
    let collision = display.draw_sprite(0, 0, &[0xFF]);
    assert!(!collision);
    let vram = display.get_vram_copy();
    for col in 0..8 {
        assert_eq!(vram[col], 1);
    }
    for p in 8..2048 {
        assert_eq!(vram[p], 0);
    }
}

#[test]
fn drawing_the_same_row_again_erases_it_and_collides() {
    let mut display = Display::new();
    let first = display.draw_sprite(0, 0, &[0xFF]);
    let second = display.draw_sprite(0, 0, &[0xFF]);
    assert!(!first);
    assert!(second);
    let vram = display.get_vram_copy();
    assert!(vram.iter().all(|&b| b == 0));
}

#[test]
fn drawing_near_the_right_edge_wraps_to_the_left() {
    let mut display = Display::new();
    let collision = display.draw_sprite(60, 0, &[0xFF]);
    assert!(!collision);
    let vram = display.get_vram_copy();
    for col in 0..64 {
        let expected = if (60..64).contains(&col) || col < 4 { 1 } else { 0 };
        assert_eq!(vram[col], expected);
    }
    for p in 64..2048 {
        assert_eq!(vram[p], 0);
    }
}

#[test]
fn drawing_near_the_bottom_edge_wraps_to_the_top() {
    let mut display = Display::new();
    let collision = display.draw_sprite(0, 31, &[0x80, 0x80]);
    assert!(!collision);
    let vram = display.get_vram_copy();
    assert_eq!(vram[31 * 64], 1);
    assert_eq!(vram[0], 1);
    let on: usize = vram.iter().map(|&b| b as usize).sum();
    assert_eq!(on, 2);
}

#[test]
fn clear_turns_every_pixel_off() {
    let mut display = Display::new();
    display.draw_sprite(10, 10, &[0xFF, 0xFF]);
    display.clear();
    let vram = display.get_vram_copy();
    assert!(vram.iter().all(|&b| b == 0));
}

#[test]
fn clear_bits_leave_pixels_untouched() {
    let mut display = Display::new();
    display.draw_sprite(0, 0, &[0xFF]);
    let collision = display.draw_sprite(0, 0, &[0x00]);
    assert!(!collision);
    let vram = display.get_vram_copy();
    for col in 0..8 {
        assert_eq!(vram[col], 1);
    }
}
