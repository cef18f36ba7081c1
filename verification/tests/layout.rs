use wavevm_console::color::{color_from_value, Color, ColoredString};
use wavevm_console::layout::{attach_to, generate_regions, rect_within, AttachSide, Rect, UIRegions};
use wavevm_console::scrollbar::{scale, CustomScrollbar};

fn rect(x: u16, y: u16, width: u16, height: u16) -> Rect {
    Rect { x, y, width, height }
}

#[test]
fn rect_within_moves_by_the_parent_corner() {
    assert_eq!(rect_within(rect(2, 1, 20, 1), rect(10, 30, 50, 3)), rect(12, 31, 20, 1));
    assert_eq!(rect_within(rect(0, 0, 3, 4), rect(1, 2, 0, 0)), rect(1, 2, 3, 4));
}

#[test]
fn rect_within_is_cut_at_the_last_cell() {
    assert_eq!(
        rect_within(rect(0xf0, 0xfe, 0x100, 5), rect(0xff00, 0xff00, 1, 1)),
        rect(0xfff0, 0xfffe, 0xf, 1)
    );
    assert_eq!(rect_within(rect(0xffff, 0xffff, 1, 1), rect(0, 0, 9, 9)), rect(0xffff, 0xffff, 0, 0));
    assert_eq!(
        rect_within(rect(0, 0, 0xffff, 0xffff), rect(0, 0, 1, 1)),
        rect(0, 0, 0xffff, 0xffff)
    );
}

#[test]
fn attach_to_each_side() {
    let parent = rect(10, 20, 30, 40);
    let r = rect(0, 0, 5, 6);
    assert_eq!(attach_to(r, parent, AttachSide::Left), rect(5, 20, 5, 6));
    assert_eq!(attach_to(r, parent, AttachSide::Right), rect(40, 20, 5, 6));
    assert_eq!(attach_to(r, parent, AttachSide::Top), rect(10, 14, 5, 6));
    assert_eq!(attach_to(r, parent, AttachSide::Bottom), rect(10, 60, 5, 6));
}

#[test]
fn regions_of_a_usual_screen() {
    let regions = generate_regions(120, 40);
    assert_eq!(
        regions,
        UIRegions {
            valid: true,
            full: rect(0, 0, 120, 40),
            main: rect(0, 0, 63, 37),
            input: rect(0, 37, 120, 3),
            sidebar: rect(64, 0, 56, 37),
            registers: rect(64, 4, 56, 10),
            memory: rect(64, 14, 56, 23),
            scrollbar: rect(63, 0, 1, 37),
            status: rect(64, 0, 56, 4),
        }
    );
}

#[test]
fn regions_of_the_smallest_screen() {
    let regions = generate_regions(73, 24);
    assert!(regions.valid);
    assert_eq!(regions.main, rect(0, 0, 16, 21));
    assert_eq!(regions.memory, rect(17, 14, 56, 7));
}

#[test]
fn regions_of_a_screen_that_is_too_small() {
    for (w, h) in [(72, 24), (73, 23), (0, 0), (10, 100), (100, 10)] {
        let regions = generate_regions(w, h);
        assert!(!regions.valid);
        assert_eq!(regions, UIRegions::default());
        assert_eq!(regions.main, rect(0, 0, 0, 0));
    }
}

#[test]
fn regions_of_the_largest_screen() {
    let regions = generate_regions(0xffff, 0xffff);
    assert!(regions.valid);
    assert_eq!(regions.input, rect(0, 0xfffc, 0xffff, 3));
    assert_eq!(regions.sidebar, rect(0xffff - 56, 0, 56, 0xfffc));
}

#[test]
fn scrollbar_of_a_tenth_fills_one_cell_of_ten() {
    let bar = CustomScrollbar {
        start: 0,
        end: 10,
        length: 100,
        color: Color::White,
        track_color: Color::DarkGray,
        vertical: true,
    };
    assert_eq!(bar.thumb(10), (0, 1));
    let area = rect(63, 0, 1, 10);
    assert!(bar.is_filled(area, 0, 0));
    for y in 1..10 {
        assert!(!bar.is_filled(area, 0, y));
    }
}

#[test]
fn scrollbar_scales_by_span_over_length() {
    assert_eq!(scale(50, 100, 20), 10);
    assert_eq!(scale(99, 100, 20), 19);
    assert_eq!(scale(100, 100, 20), 20);
    assert_eq!(scale(7, 3, 2), 4);
    assert_eq!(scale(1, 3, 2), 0);
}

#[test]
fn scrollbar_holds_negative_rows_at_the_start() {
    assert_eq!(scale(-5, 100, 20), 0);
    assert_eq!(scale(i16::MIN, 100, 20), 0);
}

#[test]
fn scrollbar_of_short_content_may_fill_the_track() {
    let bar = CustomScrollbar {
        start: 0,
        end: 5,
        length: 5,
        color: Color::White,
        track_color: Color::DarkGray,
        vertical: false,
    };
    assert_eq!(bar.thumb(20), (0, 20));
    assert!(bar.is_filled(rect(0, 0, 20, 1), 19, 0));
}

#[test]
fn scrollbar_without_content() {
    assert_eq!(scale(0, 0, 20), 0);
    assert_eq!(scale(3, 0, 20), 0xffff);
    assert_eq!(scale(3, 0, 0), 0);
    assert_eq!(scale(3, -4, 20), 0);
    assert_eq!(scale(i16::MAX, 1, 0xffff), 0xffff);
}

#[test]
fn scrollbar_agrees_with_single_precision_where_that_is_exact() {
    for length in [1i16, 2, 4, 8, 16, 64, 128] {
        for span in [1u16, 2, 5, 10, 40, 100] {
            for at in 0..200i16 {
                let ratio = span as f32 / length as f32;
                let expected = (at.max(0) as f32 * ratio) as u16;
                assert_eq!(scale(at, length, span), expected);
            }
        }
    }
}

#[test]
fn colour_of_a_word_is_what_single_precision_gives() {
    for value in 0..=0xffffu16 {
        let expected = if value == 0 {
            Color::Rgb(64, 64, 64)
        } else {
            let r = (value >> 11 & 0b11111) as f32 / 31f32;
            let g = (value >> 5 & 0b111111) as f32 / 63f32;
            let b = (value & 0b11111) as f32 / 31f32;
            let r = r * 0.5 + 0.5;
            let g = g * 0.5 + 0.5;
            let b = b * 0.5 + 0.5;
            Color::Rgb((r * 255f32) as u8, (g * 255f32) as u8, (b * 255f32) as u8)
        };
        assert_eq!(color_from_value(value), expected, "{:04x}", value);
    }
}

#[test]
fn colour_of_chosen_words() {
    assert_eq!(color_from_value(0), Color::Rgb(64, 64, 64));
    assert_eq!(color_from_value(0xffff), Color::Rgb(255, 255, 255));
    assert_eq!(color_from_value(0x0001), Color::Rgb(127, 127, 131));
    assert_eq!(color_from_value(0xf800), Color::Rgb(255, 127, 127));
    assert_eq!(color_from_value(0x07e0), Color::Rgb(127, 255, 127));
}

#[test]
fn coloured_string_holds_text_and_colour() {
    let s = ColoredString::new("abc".to_string(), Color::LightBlue);
    assert_eq!(s.text, "abc");
    assert_eq!(s.color, Color::LightBlue);
}
