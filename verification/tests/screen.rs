use chip8::screen::{PixelState, Screen, MAX_SPRITE_ROWS, SCREEN_HEIGHT, SCREEN_WIDTH};

fn lit(screen: &Screen) -> Vec<(u8, u8)> {
    let mut on = vec![];
    for y in 0..32u8 {
        for x in 0..64u8 {
            if screen.get_pixel(&x, &y) == Some(PixelState::On) {
                on.push((x, y));
            }
        }
    }
    on
}

#[test]
fn dimensions() {
    assert_eq!(SCREEN_WIDTH, 64);
    assert_eq!(SCREEN_HEIGHT, 32);
    assert_eq!(MAX_SPRITE_ROWS, 15);
}

#[test]
fn new_screen_is_all_off() {
    let screen = Screen::new();
    for y in 0..32u8 {
        for x in 0..64u8 {
            assert_eq!(screen.get_pixel(&x, &y), Some(PixelState::Off));
        }
    }
}

#[test]
fn get_pixel_outside_the_grid_is_none() {
    let screen = Screen::new();
    assert_eq!(screen.get_pixel(&64, &0), None);
    assert_eq!(screen.get_pixel(&0, &32), None);
    assert_eq!(screen.get_pixel(&255, &255), None);
    assert_eq!(screen.get_pixel(&63, &31), Some(PixelState::Off));
}

#[test]
fn set_pixel_changes_one_pixel() {
    let mut screen = Screen::new();
    screen.set_pixel(&5, &7, PixelState::On);
    screen.set_pixel(&63, &31, PixelState::On);
    screen.set_pixel(&0, &0, PixelState::On);
    assert_eq!(lit(&screen), vec![(0, 0), (5, 7), (63, 31)]);
    screen.set_pixel(&5, &7, PixelState::Off);
    assert_eq!(lit(&screen), vec![(0, 0), (63, 31)]);
}

#[test]
fn x_is_the_column_and_y_the_row() {
    let mut screen = Screen::new();
    screen.set_pixel(&40, &3, PixelState::On);
    assert_eq!(screen.get_pixel(&40, &3), Some(PixelState::On));
    assert_eq!(screen.get_pixel(&3, &3), Some(PixelState::Off));
    assert_eq!(screen.get_pixel(&40, &4), Some(PixelState::Off));
}

#[test]
fn clear_screen_turns_every_pixel_off() {
    let mut screen = Screen::new();
    for y in 0..32u8 {
        for x in 0..64u8 {
            if (x + y) % 3 == 0 {
                screen.set_pixel(&x, &y, PixelState::On);
            }
        }
    }
    assert!(!lit(&screen).is_empty());
    screen.clear_screen();
    assert!(lit(&screen).is_empty());
}

#[test]
fn draw_row_sets_bits_from_the_left() {
    let mut screen = Screen::new();
    assert!(!screen.draw_row(0b1010_0001, 10, 4));
    assert_eq!(lit(&screen), vec![(10, 4), (12, 4), (17, 4)]);
}

#[test]
fn draw_row_toggles_and_reports_a_collision() {
    let mut screen = Screen::new();
    screen.set_pixel(&11, &4, PixelState::On);
    screen.set_pixel(&30, &4, PixelState::On);
    assert!(screen.draw_row(0b1100_0000, 10, 4));
    assert_eq!(lit(&screen), vec![(10, 4), (30, 4)]);
}

#[test]
fn draw_row_with_clear_bits_touches_nothing() {
    let mut screen = Screen::new();
    screen.set_pixel(&11, &4, PixelState::On);
    assert!(!screen.draw_row(0b1011_1111, 10, 4));
    assert_eq!(
        lit(&screen),
        vec![(10, 4), (11, 4), (12, 4), (13, 4), (14, 4), (15, 4), (16, 4), (17, 4)]
    );
    let mut screen = Screen::new();
    screen.set_pixel(&11, &4, PixelState::On);
    assert!(!screen.draw_row(0, 10, 4));
    assert_eq!(lit(&screen), vec![(11, 4)]);
}

#[test]
fn draw_sprite_draws_each_row_below_the_last() {
    let mut screen = Screen::new();
    assert!(!screen.draw_sprite(&[0xF0, 0x90, 0x90, 0x90, 0xF0], 0, 0));
    assert_eq!(
        lit(&screen),
        vec![
            (0, 0), (1, 0), (2, 0), (3, 0),
            (0, 1), (3, 1),
            (0, 2), (3, 2),
            (0, 3), (3, 3),
            (0, 4), (1, 4), (2, 4), (3, 4),
        ]
    );
}

#[test]
fn draw_sprite_without_rows_draws_nothing() {
    let mut screen = Screen::new();
    screen.set_pixel(&1, &1, PixelState::On);
    assert!(!screen.draw_sprite(&[], 1, 1));
    assert_eq!(lit(&screen), vec![(1, 1)]);
}

#[test]
fn drawing_twice_restores_the_screen() {
    let mut screen = Screen::new();
    screen.set_pixel(&12, &9, PixelState::On);
    screen.set_pixel(&50, &20, PixelState::On);
    let before = lit(&screen);
    let sprite = [0xFF, 0x81, 0x00, 0x3C];
    assert!(screen.draw_sprite(&sprite, 5, 8));
    assert_ne!(lit(&screen), before);
    assert!(screen.draw_sprite(&sprite, 5, 8));
    assert_eq!(lit(&screen), before);
}

#[test]
fn second_draw_on_a_blank_screen_collides() {
    let mut screen = Screen::new();
    assert!(!screen.draw_sprite(&[0x80], 0, 0));
    assert!(screen.draw_sprite(&[0x80], 0, 0));
    assert!(lit(&screen).is_empty());
}

#[test]
fn second_draw_over_lit_pixels_only_does_not_collide() {
    let mut screen = Screen::new();
    screen.set_pixel(&0, &0, PixelState::On);
    assert!(screen.draw_sprite(&[0x80], 0, 0));
    assert!(lit(&screen).is_empty());
    assert!(!screen.draw_sprite(&[0x80], 0, 0));
    assert_eq!(lit(&screen), vec![(0, 0)]);
}

#[test]
fn sprite_at_column_sixty_wraps_to_the_left_edge() {
    let mut screen = Screen::new();
    assert!(!screen.draw_sprite(&[0xFF], 60, 0));
    assert_eq!(
        lit(&screen),
        vec![(0, 0), (1, 0), (2, 0), (3, 0), (60, 0), (61, 0), (62, 0), (63, 0)]
    );
}

#[test]
fn sprite_at_the_bottom_wraps_to_the_top() {
    let mut screen = Screen::new();
    assert!(!screen.draw_sprite(&[0x80, 0x80, 0x80], 7, 30));
    assert_eq!(lit(&screen), vec![(7, 0), (7, 30), (7, 31)]);
}

#[test]
fn coordinates_are_taken_modulo_the_grid() {
    let mut wrapped = Screen::new();
    let mut plain = Screen::new();
    assert!(!wrapped.draw_sprite(&[0xC3, 0x18], 64 + 60, 32 + 31));
    assert!(!plain.draw_sprite(&[0xC3, 0x18], 60, 31));
    assert_eq!(lit(&wrapped), lit(&plain));
    assert_eq!(
        lit(&plain),
        vec![(0, 0), (63, 0), (2, 31), (3, 31), (60, 31), (61, 31)]
    );
    let mut high = Screen::new();
    assert!(!high.draw_sprite(&[0x80], 255, 255));
    assert_eq!(lit(&high), vec![(63, 31)]);
}

#[test]
fn full_height_sprite_of_fifteen_rows() {
    let mut screen = Screen::new();
    let sprite = [0x01; 15];
    assert!(!screen.draw_sprite(&sprite, 0, 20));
    let mut expected = vec![];
    for row in 0..15u8 {
        expected.push((7u8, (20 + row) % 32));
    }
    expected.sort_by_key(|(x, y)| (*y, *x));
    assert_eq!(lit(&screen), expected);
}
