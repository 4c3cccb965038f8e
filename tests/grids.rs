use chip8::display::ChipDisplay;
use chip8::screen::{Screen, Sprite};

#[test]
fn screen_pixels_are_addressed_row_major() {
    let mut s = Screen::new(10, 4);
    assert_eq!(s.get_width(), 10);
    assert_eq!(s.get_height(), 4);
    *s.pixel_mut(3, 2) = 7;
    assert_eq!(s.pixel(3, 2), 7);
    assert_eq!(s.pixel(2, 3), 0);
    s.clear();
    assert_eq!(s.pixel(3, 2), 0);
}

#[test]
fn sprite_pixels_are_addressed_row_major() {
    let mut s = Sprite::new(8, 5);
    assert_eq!(s.get_width(), 8);
    assert_eq!(s.get_height(), 5);
    *s.pixel_mut(7, 4) = 1;
    assert_eq!(s.pixel(7, 4), 1);
    assert_eq!(s.pixel(4, 7 - 3), 0);
}

#[test]
fn display_draw_clips_and_reports_collision() {
    let mut d = ChipDisplay::new();
    assert_eq!(d.get_width(), 64);
    assert_eq!(d.get_height(), 32);
    let sprite = vec![0xFF, 0x81];
    assert!(!d.draw(&sprite, 60, 31));
    for x in 60..64 {
        assert_eq!(d.pixel(x, 31), 1);
    }
    assert_eq!(d.pixel(59, 31), 0);
    assert_eq!(d.get_pixels().iter().filter(|p| **p != 0).count(), 4);
    assert!(d.draw(&vec![0x80], 60, 31));
    assert_eq!(d.pixel(60, 31), 0);
    assert_eq!(d.pixel(61, 31), 1);
    d.clear();
    assert!(d.get_pixels().iter().all(|p| *p == 0));
}
