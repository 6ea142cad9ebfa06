use cellui::font::{window_size, CHARLIST, CHAR_HEIGHT, CHAR_WIDTH, LINE_SPACING, MARGIN};
use cellui::{Color, Fonts, Placement, Rect};

#[test]
fn glyphs_stand_side_by_side_in_list_order() {
    let fonts = Fonts::new();
    assert_eq!(fonts.get_char_rect('A'), Rect::new(0, 0, 8, 14));
    assert_eq!(fonts.get_char_rect('B'), Rect::new(8, 0, 8, 14));
    assert_eq!(fonts.get_char_rect('Z'), Rect::new(25 * 8, 0, 8, 14));
    assert_eq!(fonts.get_char_rect('a'), Rect::new(26 * 8, 0, 8, 14));
    assert_eq!(fonts.get_char_rect(' '), Rect::new(52 * 8, 0, 8, 14));
    assert_eq!(fonts.get_char_rect('0'), Rect::new(53 * 8, 0, 8, 14));
    assert_eq!(fonts.get_char_rect(','), Rect::new(63 * 8, 0, 8, 14));
    assert_eq!(fonts.get_char_rect('\\'), Rect::new(87 * 8, 0, 8, 14));
    assert_eq!(fonts.get_char_rect('~'), Rect::new(94 * 8, 0, 8, 14));
}

#[test]
fn every_listed_character_has_its_own_glyph() {
    let fonts = Fonts::new();
    assert_eq!(CHARLIST.chars().count(), 95);
    for (index, character) in CHARLIST.chars().enumerate() {
        assert!(fonts.has_glyph(character));
        assert_eq!(
            fonts.get_char_rect(character),
            Rect::new(index as i32 * CHAR_WIDTH, 0, CHAR_WIDTH, CHAR_HEIGHT)
        );
    }
}

#[test]
fn font_has_printable_ascii_only() {
    let fonts = Fonts::new();
    for code in 0u32..0x300 {
        let character = char::from_u32(code).unwrap();
        assert_eq!(fonts.has_glyph(character), (0x20..=0x7e).contains(&code), "code {}", code);
    }
    assert!(!fonts.has_glyph('✓'));
    assert!(!fonts.has_glyph('\n'));
}

#[test]
fn character_is_placed_on_the_pixel_grid() {
    let fonts = Fonts::new();
    assert_eq!(
        fonts.place_character_at_point('A', 0, 0),
        Placement {
            source: Rect::new(0, 0, 8, 14),
            dest: Rect::new(4, 4, 8, 14),
            backdrop: Rect::new(4, 3, 8, 16),
        }
    );
    assert_eq!(
        fonts.place_character_at_point('b', 3, 2),
        Placement {
            source: Rect::new(27 * 8, 0, 8, 14),
            dest: Rect::new(4 + 3 * 8, 4 + 2 * 16, 8, 14),
            backdrop: Rect::new(4 + 3 * 8, 4 + 2 * 16 - 1, 8, 16),
        }
    );
    assert_eq!(
        fonts.place_character_at_point('+', -1, -1),
        Placement {
            source: Rect::new(78 * 8, 0, 8, 14),
            dest: Rect::new(-4, -12, 8, 14),
            backdrop: Rect::new(-4, -13, 8, 16),
        }
    );
}

#[test]
fn cells_that_fit_are_told_apart() {
    assert!(Fonts::cell_fits(0, 0));
    assert!(Fonts::cell_fits(79, 23));
    assert!(Fonts::cell_fits(-1, -1));
    // 4 + 8 * x stays within i32 up to x = 268435455
    assert!(Fonts::cell_fits(268_435_455, 0));
    assert!(!Fonts::cell_fits(268_435_456, 0));
    assert!(Fonts::cell_fits(-268_435_456, 0));
    assert!(!Fonts::cell_fits(-268_435_457, 0));
    // 4 + 16 * y stays within i32 up to y = 134217727
    assert!(Fonts::cell_fits(0, 134_217_727));
    assert!(!Fonts::cell_fits(0, 134_217_728));
    // 4 + 16 * y - 1 stays within i32 down to y = -134217728
    assert!(Fonts::cell_fits(0, -134_217_728));
    assert!(!Fonts::cell_fits(0, -134_217_729));
    assert!(!Fonts::cell_fits(i32::MAX, i32::MAX));
    assert!(!Fonts::cell_fits(i32::MIN, i32::MIN));
    let fonts = Fonts::new();
    assert_eq!(
        fonts.place_character_at_point('A', 268_435_455, -134_217_728).dest,
        Rect::new(i32::MAX - 3, i32::MIN + 4, 8, 14)
    );
    assert_eq!(
        fonts.place_character_at_point('A', 268_435_455, -134_217_728).backdrop,
        Rect::new(i32::MAX - 3, i32::MIN + 3, 8, 16)
    );
}

#[test]
fn background_starts_black_and_can_be_set() {
    let mut fonts = Fonts::new();
    assert_eq!(fonts.background(), Color { r: 0, g: 0, b: 0 });
    fonts.set_background_color(23, 54, 89);
    assert_eq!(fonts.background(), Color { r: 23, g: 54, b: 89 });
    assert_eq!(fonts.get_char_rect('C'), Rect::new(16, 0, 8, 14));
}

#[test]
fn window_holds_the_grid_and_its_margins() {
    assert_eq!(window_size(80, 24), Some((648, 392)));
    assert_eq!(window_size(0, 0), Some((2 * MARGIN, 2 * MARGIN)));
    assert_eq!(
        window_size(1, 1),
        Some((CHAR_WIDTH + 2 * MARGIN, CHAR_HEIGHT + LINE_SPACING + 2 * MARGIN))
    );
}

#[test]
fn window_too_large_to_measure_has_no_size() {
    assert_eq!(window_size(-1, 24), None);
    assert_eq!(window_size(80, -1), None);
    // 8 * columns + 8 stays within i32 up to columns = 268435454
    assert_eq!(window_size(268_435_454, 0), Some((i32::MAX - 7, 8)));
    assert_eq!(window_size(268_435_455, 0), None);
    // 16 * rows + 8 stays within i32 up to rows = 134217727
    assert_eq!(window_size(0, 134_217_727), Some((8, i32::MAX - 7)));
    assert_eq!(window_size(0, 134_217_728), None);
    assert_eq!(window_size(i32::MAX, i32::MAX), None);
}
