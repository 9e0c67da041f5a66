use raylib::text_box::{Glyph, Sight, Step, TextBoxWalk};

const CLEAR: Sight = Sight {
    overflows_width: false,
    overflows_height: false,
    overflows_height_below: false,
    indented: false,
};

const IDLE: Step = Step {
    rewind: false,
    break_before: false,
    stop: false,
    draw_selection: false,
    draw_glyph: false,
    break_after: false,
    advance: false,
};

/// What a walk asks the screen to do.
#[derive(Clone, Debug, PartialEq)]
enum Drawn {
    Selection { x: f32, y: f32, width: f32, height: f32 },
    Glyph { codepoint: char, x: f32, y: f32, selected: bool },
}

const BASE_SIZE: i32 = 10;
const ORIGIN_X: f32 = 25.0;
const ORIGIN_Y: f32 = 40.0;

/// Width of a glyph at the base size of the test font.
fn advance_of(codepoint: char) -> f32 {
    match codepoint {
        ' ' => 4.0,
        '\t' => 16.0,
        'i' | 'l' | '.' | ',' | '\'' => 3.0,
        'm' | 'w' | 'W' | 'M' => 9.0,
        other => 5.0 + (other as u32 % 3) as f32,
    }
}

/// The drawing written as a single loop that keeps the positions in the
/// text and the offsets on the screen side by side, recording what it would
/// draw.
fn single_loop(
    text: &str,
    width: f32,
    height: f32,
    font_size: f32,
    spacing: f32,
    word_wrap: bool,
    mut select_start: i32,
    select_length: i32,
) -> Vec<Drawn> {
    let mut drawn = Vec::new();
    let mut text_offset_y = 0.0;
    let mut text_offset_x = 0.0;
    let scale_factor = font_size / BASE_SIZE as f32;

    #[derive(PartialEq)]
    enum MeasureState {
        Measure,
        Draw,
    }
    let mut state = if word_wrap { MeasureState::Measure } else { MeasureState::Draw };

    let mut start_line = -1;
    let mut end_line = -1;
    let mut last_k: i32 = -1;

    let mut i: i32 = -1;
    loop {
        i += 1;
        if i as usize >= text.len() {
            break;
        }
        let codepoint = text[i as usize..].chars().next().unwrap();
        i += codepoint.len_utf8() as i32 - 1;
        let mut k = i;

        let mut glyph_width = 0.0;
        if codepoint != '\n' {
            glyph_width = advance_of(codepoint) * scale_factor;
            if (i as usize + 1) < text.len() {
                glyph_width += spacing;
            }
        }

        match state {
            MeasureState::Measure => {
                if codepoint.is_whitespace() {
                    end_line = i;
                }
                if text_offset_x + glyph_width > width {
                    end_line = if end_line < 1 { i } else { end_line };
                    if i == end_line {
                        end_line -= codepoint.len_utf8() as i32;
                    }
                    if (start_line + codepoint.len_utf8() as i32) == end_line {
                        end_line = i - codepoint.len_utf8() as i32;
                    }
                    state = MeasureState::Draw;
                } else if i as usize + 1 == text.len() {
                    end_line = i;
                    state = MeasureState::Draw;
                } else if codepoint == '\n' {
                    state = MeasureState::Draw;
                }
                if state == MeasureState::Draw {
                    text_offset_x = 0.0;
                    i = start_line;
                    glyph_width = 0.0;
                    k = last_k;
                    last_k = k - 1;
                }
            }
            MeasureState::Draw => {
                if codepoint == '\n' {
                    if !word_wrap {
                        text_offset_y +=
                            (BASE_SIZE as f32 + BASE_SIZE as f32 / 2.0) * scale_factor;
                        text_offset_x = 0.0;
                    }
                } else {
                    if !word_wrap && (text_offset_x + glyph_width > width) {
                        text_offset_y +=
                            (BASE_SIZE as f32 + BASE_SIZE as f32 / 2.0) * scale_factor;
                        text_offset_x = 0.0;
                    }
                    if text_offset_y + BASE_SIZE as f32 * scale_factor > height {
                        break;
                    }
                    let is_glyph_selected = if select_start >= 0
                        && k >= select_start
                        && k < (select_start + select_length)
                    {
                        drawn.push(Drawn::Selection {
                            x: ORIGIN_X + text_offset_x - 1.0,
                            y: ORIGIN_Y + text_offset_y,
                            width: glyph_width,
                            height: BASE_SIZE as f32 * scale_factor,
                        });
                        true
                    } else {
                        false
                    };
                    if codepoint != ' ' && codepoint != '\t' {
                        drawn.push(Drawn::Glyph {
                            codepoint,
                            x: ORIGIN_X + text_offset_x,
                            y: ORIGIN_Y + text_offset_y,
                            selected: is_glyph_selected,
                        });
                    }
                }
                if word_wrap && i == end_line {
                    text_offset_y += (BASE_SIZE as f32 + BASE_SIZE as f32 / 2.0) * scale_factor;
                    text_offset_x = 0.0;
                    start_line = end_line;
                    end_line = -1;
                    select_start += last_k - k;
                    state = MeasureState::Measure;
                }
            }
        }

        if text_offset_x != 0.0 || codepoint != ' ' {
            text_offset_x += glyph_width;
        }
    }
    drawn
}

/// The same drawing, with the walk deciding and the offsets kept here.
/// Gives what was drawn and the number of steps taken.
fn walked(
    text: &str,
    width: f32,
    height: f32,
    font_size: f32,
    spacing: f32,
    word_wrap: bool,
    select_start: i32,
    select_length: i32,
) -> (Vec<Drawn>, usize) {
    let mut drawn = Vec::new();
    let mut steps = 0;
    let mut text_offset_y = 0.0;
    let mut text_offset_x = 0.0;
    let scale_factor = font_size / BASE_SIZE as f32;
    let line_height = (BASE_SIZE as f32 + BASE_SIZE as f32 / 2.0) * scale_factor;
    let glyph_height = BASE_SIZE as f32 * scale_factor;

    let mut walk = TextBoxWalk::new(text, word_wrap, select_start, select_length);
    while let Some(glyph) = walk.glyph() {
        let mut glyph_width = 0.0;
        if glyph.codepoint != '\n' {
            glyph_width = advance_of(glyph.codepoint) * scale_factor;
            if glyph.spaced {
                glyph_width += spacing;
            }
        }
        let sight = Sight {
            overflows_width: text_offset_x + glyph_width > width,
            overflows_height: text_offset_y + glyph_height > height,
            overflows_height_below: (text_offset_y + line_height) + glyph_height > height,
            indented: text_offset_x != 0.0,
        };
        let step = walk.step(sight).unwrap();
        steps += 1;
        if step.rewind {
            text_offset_x = 0.0;
        }
        if step.break_before {
            text_offset_y += line_height;
            text_offset_x = 0.0;
        }
        if step.stop {
            break;
        }
        if step.draw_selection {
            drawn.push(Drawn::Selection {
                x: ORIGIN_X + text_offset_x - 1.0,
                y: ORIGIN_Y + text_offset_y,
                width: glyph_width,
                height: glyph_height,
            });
        }
        if step.draw_glyph {
            drawn.push(Drawn::Glyph {
                codepoint: glyph.codepoint,
                x: ORIGIN_X + text_offset_x,
                y: ORIGIN_Y + text_offset_y,
                selected: step.draw_selection,
            });
        }
        if step.break_after {
            text_offset_y += line_height;
            text_offset_x = 0.0;
        }
        if step.advance {
            text_offset_x += glyph_width;
        }
    }
    assert_eq!(walk.glyph(), None);
    assert_eq!(walk.step(CLEAR), None);
    (drawn, steps)
}

const SAMPLE: &str = "Text cannot escape\tthis container\t...word wrap also works when active so here's \
a long text for testing.\n\nLorem ipsum dolor sit amet, consectetur adipiscing elit, sed do eiusmod \
tempor incididunt ut labore et dolore magna aliqua. Nec ullamcorper sit amet risus nullam eget felis eget.";

const TEXTS: [&str; 14] = [
    "",
    "a",
    " ",
    "\n",
    "ab cd",
    "  leading and trailing  ",
    "one\ntwo\n\nthree\n",
    "tabs\tand\tspaces  mixed",
    "averyverylongwordthatdoesnotfitanywhereatall and more",
    "h\u{e9}llo w\u{f6}rld \u{20ac}\u{20ac}\u{20ac} \u{1f600}\u{1f600} end",
    "\u{2003}wide\u{2003}spaces\u{a0}and\u{3000}others",
    "\u{20ac}",
    "x \u{1f600}",
    SAMPLE,
];

#[test]
fn walk_draws_what_a_single_loop_draws_with_word_wrap() {
    for text in TEXTS.iter() {
        for width in [0.0, 3.0, 8.0, 20.0, 37.5, 60.0, 150.0, 746.0, 10000.0] {
            for height in [0.0, 10.0, 31.0, 196.0, 10000.0] {
                let expected = single_loop(text, width, height, 20.0, 2.0, true, 0, 0);
                let (drawn, _) = walked(text, width, height, 20.0, 2.0, true, 0, 0);
                assert_eq!(drawn, expected, "text {:?} in {} x {}", text, width, height);
            }
        }
    }
}

#[test]
fn walk_draws_what_a_single_loop_draws_without_word_wrap() {
    for text in TEXTS.iter() {
        for width in [0.0, 3.0, 8.0, 20.0, 37.5, 60.0, 150.0, 746.0, 10000.0] {
            for height in [0.0, 10.0, 31.0, 196.0, 10000.0] {
                let expected = single_loop(text, width, height, 20.0, 2.0, false, 0, 0);
                let (drawn, _) = walked(text, width, height, 20.0, 2.0, false, 0, 0);
                assert_eq!(drawn, expected, "text {:?} in {} x {}", text, width, height);
            }
        }
    }
}

#[test]
fn walk_selects_what_a_single_loop_selects() {
    for text in TEXTS.iter() {
        for word_wrap in [true, false] {
            for width in [8.0, 37.5, 60.0, 150.0, 10000.0] {
                for select_start in [-3, -1, 0, 1, 2, 5, 17, 40, 120, 400] {
                    for select_length in [-2, 0, 1, 3, 10, 1000] {
                        let expected = single_loop(
                            text,
                            width,
                            400.0,
                            10.0,
                            1.0,
                            word_wrap,
                            select_start,
                            select_length,
                        );
                        let (drawn, _) = walked(
                            text,
                            width,
                            400.0,
                            10.0,
                            1.0,
                            word_wrap,
                            select_start,
                            select_length,
                        );
                        assert_eq!(
                            drawn, expected,
                            "text {:?}, wrap {}, width {}, selection {} + {}",
                            text, word_wrap, width, select_start, select_length
                        );
                    }
                }
            }
        }
    }
}

#[test]
fn walk_draws_the_same_at_other_sizes_and_spacings() {
    for (font_size, spacing) in [(5.0, 0.0), (10.0, 0.5), (32.0, 4.0), (7.5, -1.0)] {
        for word_wrap in [true, false] {
            for width in [25.0, 100.0, 333.0] {
                let expected = single_loop(SAMPLE, width, 200.0, font_size, spacing, word_wrap, 12, 30);
                let (drawn, _) = walked(SAMPLE, width, 200.0, font_size, spacing, word_wrap, 12, 30);
                assert_eq!(drawn, expected);
            }
        }
    }
}

#[test]
fn walk_ends_within_three_passes_over_the_text() {
    for text in TEXTS.iter() {
        for word_wrap in [true, false] {
            for width in [0.0, 8.0, 37.5, 150.0, 10000.0] {
                let (_, steps) = walked(text, width, 10000.0, 20.0, 2.0, word_wrap, 0, 0);
                if word_wrap {
                    assert!(steps <= 3 * text.len() + 1, "{} steps over {:?}", steps, text);
                } else {
                    assert_eq!(steps, text.chars().count());
                }
            }
        }
    }
}

#[test]
fn walk_over_nothing_is_over_at_once() {
    for word_wrap in [true, false] {
        let mut walk = TextBoxWalk::new("", word_wrap, 0, 0);
        assert_eq!(walk.glyph(), None);
        assert_eq!(walk.step(CLEAR), None);
        assert_eq!(walk.step_with(true, CLEAR), None);
        assert_eq!(walk.glyph(), None);
    }
}

#[test]
fn glyph_tells_index_codepoint_and_spacing() {
    let mut walk = TextBoxWalk::new("a\u{20ac}\u{1f600}b", false, 0, 0);
    assert_eq!(walk.glyph(), Some(Glyph { index: 0, codepoint: 'a', spaced: true }));
    assert_eq!(walk.glyph(), Some(Glyph { index: 0, codepoint: 'a', spaced: true }));
    walk.step(CLEAR).unwrap();
    assert_eq!(walk.glyph(), Some(Glyph { index: 1, codepoint: '\u{20ac}', spaced: true }));
    walk.step(CLEAR).unwrap();
    assert_eq!(walk.glyph(), Some(Glyph { index: 4, codepoint: '\u{1f600}', spaced: true }));
    walk.step(CLEAR).unwrap();
    assert_eq!(walk.glyph(), Some(Glyph { index: 8, codepoint: 'b', spaced: false }));
    walk.step(CLEAR).unwrap();
    assert_eq!(walk.glyph(), None);
}

#[test]
fn drawing_without_word_wrap_draws_each_glyph_and_moves_on() {
    let mut walk = TextBoxWalk::new("ab", false, -1, 0);
    let step = walk.step(CLEAR).unwrap();
    assert_eq!(step, Step { draw_glyph: true, advance: true, ..IDLE });
    let step = walk.step(Sight { indented: true, ..CLEAR }).unwrap();
    assert_eq!(step, Step { draw_glyph: true, advance: true, ..IDLE });
    assert_eq!(walk.step(CLEAR), None);
}

#[test]
fn a_space_at_the_start_of_a_line_takes_no_room() {
    let mut walk = TextBoxWalk::new("  a ", false, -1, 0);
    assert_eq!(walk.step(CLEAR).unwrap(), IDLE);
    assert_eq!(walk.step(CLEAR).unwrap(), IDLE);
    assert_eq!(walk.step(CLEAR).unwrap(), Step { draw_glyph: true, advance: true, ..IDLE });
    let step = walk.step(Sight { indented: true, ..CLEAR }).unwrap();
    assert_eq!(step, Step { advance: true, ..IDLE });
}

#[test]
fn a_tab_is_not_drawn_but_takes_room() {
    let mut walk = TextBoxWalk::new("\t", false, -1, 0);
    assert_eq!(walk.step(CLEAR).unwrap(), Step { advance: true, ..IDLE });
}

#[test]
fn a_line_break_without_word_wrap_starts_a_new_line() {
    let mut walk = TextBoxWalk::new("\n", false, 0, 5);
    let sight = Sight { overflows_height: true, overflows_height_below: true, indented: true, ..CLEAR };
    let step = walk.step(sight).unwrap();
    assert_eq!(step, Step { break_before: true, advance: true, ..IDLE });
    assert_eq!(walk.glyph(), None);
}

#[test]
fn a_glyph_that_does_not_fit_goes_to_a_new_line_without_word_wrap() {
    let mut walk = TextBoxWalk::new("ab", false, -1, 0);
    walk.step(CLEAR).unwrap();
    let sight = Sight { overflows_width: true, indented: true, ..CLEAR };
    let step = walk.step(sight).unwrap();
    assert_eq!(step, Step { break_before: true, draw_glyph: true, advance: true, ..IDLE });
}

#[test]
fn a_space_that_does_not_fit_is_dropped_without_word_wrap() {
    let mut walk = TextBoxWalk::new("a b", false, -1, 0);
    walk.step(CLEAR).unwrap();
    let sight = Sight { overflows_width: true, indented: true, ..CLEAR };
    let step = walk.step(sight).unwrap();
    assert_eq!(step, Step { break_before: true, ..IDLE });
}

#[test]
fn the_walk_stops_where_the_text_leaves_the_rectangle() {
    let mut walk = TextBoxWalk::new("abc", false, -1, 0);
    walk.step(CLEAR).unwrap();
    let step = walk.step(Sight { overflows_height: true, indented: true, ..CLEAR }).unwrap();
    assert_eq!(step, Step { stop: true, ..IDLE });
    assert_eq!(walk.glyph(), None);
    assert_eq!(walk.step(CLEAR), None);
}

#[test]
fn the_height_is_looked_at_on_the_line_that_the_glyph_goes_to() {
    let below = Sight { overflows_width: true, overflows_height_below: true, indented: true, ..CLEAR };
    let mut walk = TextBoxWalk::new("ab", false, -1, 0);
    walk.step(CLEAR).unwrap();
    assert_eq!(walk.step(below).unwrap(), Step { break_before: true, stop: true, ..IDLE });

    let here = Sight { overflows_width: true, overflows_height: true, indented: true, ..CLEAR };
    let mut walk = TextBoxWalk::new("ab", false, -1, 0);
    walk.step(CLEAR).unwrap();
    let step = walk.step(here).unwrap();
    assert_eq!(step, Step { break_before: true, draw_glyph: true, advance: true, ..IDLE });

    let mut walk = TextBoxWalk::new("ab", true, -1, 0);
    walk.step(CLEAR).unwrap();
    walk.step(Sight { indented: true, ..CLEAR }).unwrap();
    let sight = Sight { overflows_width: true, overflows_height_below: true, ..CLEAR };
    let step = walk.step(sight).unwrap();
    assert_eq!(step, Step { draw_glyph: true, advance: true, ..IDLE });
}

#[test]
fn a_line_break_never_stops_the_walk() {
    let mut walk = TextBoxWalk::new("\n\n", false, -1, 0);
    let sight = Sight { overflows_height: true, overflows_height_below: true, ..CLEAR };
    assert_eq!(walk.step(sight).unwrap(), Step { break_before: true, advance: true, ..IDLE });
    assert_eq!(walk.step(sight).unwrap(), Step { break_before: true, advance: true, ..IDLE });
    assert_eq!(walk.step(sight), None);
}

/// The indexes of the glyphs of a walk and its steps, with the same sight at
/// every step but for the steps listed in `overflowing`, at which the glyph
/// does not fit into the width.
fn trace(text: &str, overflowing: &[usize]) -> Vec<(usize, Step)> {
    let mut walk = TextBoxWalk::new(text, true, -1, 0);
    let mut steps = Vec::new();
    while let Some(glyph) = walk.glyph() {
        let sight = Sight { overflows_width: overflowing.contains(&steps.len()), ..CLEAR };
        steps.push((glyph.index, walk.step(sight).unwrap()));
    }
    steps
}

#[test]
fn word_wrap_measures_a_line_and_then_draws_it() {
    let measure = Step { advance: true, ..IDLE };
    let rewind = Step { rewind: true, ..IDLE };
    let draw = Step { draw_glyph: true, advance: true, ..IDLE };
    let last = Step { draw_glyph: true, break_after: true, advance: true, ..IDLE };
    assert_eq!(
        trace("abc", &[]),
        vec![(0, measure), (1, measure), (2, rewind), (0, draw), (1, draw), (2, last)]
    );
}

#[test]
fn word_wrap_breaks_the_line_at_the_last_whitespace() {
    let measure = Step { advance: true, ..IDLE };
    let blank = IDLE;
    let rewind = Step { rewind: true, ..IDLE };
    let draw = Step { draw_glyph: true, advance: true, ..IDLE };
    let last = Step { draw_glyph: true, break_after: true, advance: true, ..IDLE };
    assert_eq!(
        trace("ab cd", &[4]),
        vec![
            (0, measure),
            (1, measure),
            (2, blank),
            (3, measure),
            (4, rewind),
            (0, draw),
            (1, draw),
            (2, Step { break_after: true, ..IDLE }),
            (3, measure),
            (4, rewind),
            (3, draw),
            (4, last),
        ]
    );
}

#[test]
fn word_wrap_breaks_inside_a_word_that_is_too_long() {
    let measure = Step { advance: true, ..IDLE };
    let rewind = Step { rewind: true, ..IDLE };
    let draw = Step { draw_glyph: true, advance: true, ..IDLE };
    let last = Step { draw_glyph: true, break_after: true, advance: true, ..IDLE };
    assert_eq!(
        trace("abcd", &[2]),
        vec![
            (0, measure),
            (1, measure),
            (2, rewind),
            (0, draw),
            (1, last),
            (2, measure),
            (3, rewind),
            (2, draw),
            (3, last),
        ]
    );
}

#[test]
fn word_wrap_draws_a_line_on_when_its_first_glyph_does_not_fit() {
    let rewind = Step { rewind: true, ..IDLE };
    let draw = Step { draw_glyph: true, advance: true, ..IDLE };
    assert_eq!(trace("abc", &[0]), vec![(0, rewind), (0, draw), (1, draw), (2, draw)]);
}

#[test]
fn word_wrap_ends_a_line_at_a_line_break() {
    let measure = Step { advance: true, ..IDLE };
    let rewind = Step { rewind: true, ..IDLE };
    let draw = Step { draw_glyph: true, advance: true, ..IDLE };
    let last = Step { draw_glyph: true, break_after: true, advance: true, ..IDLE };
    assert_eq!(
        trace("a\nb", &[]),
        vec![
            (0, measure),
            (1, rewind),
            (0, draw),
            (1, Step { break_after: true, advance: true, ..IDLE }),
            (2, rewind),
            (2, last),
        ]
    );
}

#[test]
fn whether_a_codepoint_is_whitespace_decides_where_the_line_may_end() {
    let overflow = Sight { overflows_width: true, ..CLEAR };
    let mut indexes = Vec::new();
    let mut walk = TextBoxWalk::new("abcd", true, -1, 0);
    for (whitespace, sight) in
        [(false, CLEAR), (true, CLEAR), (false, CLEAR), (false, overflow)]
    {
        walk.step_with(whitespace, sight).unwrap();
    }
    while let Some(glyph) = walk.glyph() {
        let step = walk.step_with(false, CLEAR).unwrap();
        indexes.push((glyph.index, step.break_after));
        if step.break_after {
            break;
        }
    }
    assert_eq!(indexes, vec![(0, false), (1, true)]);
    assert_eq!(walk.glyph().map(|glyph| glyph.index), Some(2));
}

#[test]
fn step_takes_whitespace_from_the_codepoint() {
    for (text, breaks_after) in [("a\u{2003}cd", 1), ("a\u{a0}cd", 1), ("a_cd", 2), ("a\tcd", 1)] {
        let mut walk = TextBoxWalk::new(text, true, -1, 0);
        let mut glyphs = 0;
        while let Some(_) = walk.glyph() {
            let sight = Sight { overflows_width: glyphs == 3, ..CLEAR };
            walk.step(sight).unwrap();
            glyphs += 1;
            if glyphs == 4 {
                break;
            }
        }
        let mut drawn = 0;
        loop {
            let step = walk.step(CLEAR).unwrap();
            if step.break_after {
                break;
            }
            drawn += 1;
        }
        assert_eq!(drawn, breaks_after, "in {:?}", text);
    }
}

#[test]
fn selection_is_told_for_each_glyph_in_its_range() {
    let mut walk = TextBoxWalk::new("abcde", false, 1, 3);
    let mut selected = Vec::new();
    while let Some(_) = walk.glyph() {
        selected.push(walk.step(CLEAR).unwrap().draw_selection);
    }
    assert_eq!(selected, vec![false, true, true, true, false]);
}

#[test]
fn a_selected_space_is_painted_but_not_drawn() {
    let mut walk = TextBoxWalk::new("a b", false, 0, 3);
    let indented = Sight { indented: true, ..CLEAR };
    assert_eq!(
        walk.step(CLEAR).unwrap(),
        Step { draw_selection: true, draw_glyph: true, advance: true, ..IDLE }
    );
    assert_eq!(walk.step(indented).unwrap(), Step { draw_selection: true, advance: true, ..IDLE });
    assert_eq!(
        walk.step(indented).unwrap(),
        Step { draw_selection: true, draw_glyph: true, advance: true, ..IDLE }
    );
}

#[test]
fn a_negative_start_or_an_empty_length_selects_nothing() {
    for (select_start, select_length) in [(-1, 10), (i32::MIN, i32::MAX), (0, 0), (2, -1), (0, i32::MIN)] {
        let mut walk = TextBoxWalk::new("abc", false, select_start, select_length);
        while let Some(_) = walk.glyph() {
            assert!(!walk.step(CLEAR).unwrap().draw_selection);
        }
    }
}

#[test]
fn selection_counts_bytes_and_looks_at_the_last_byte_of_a_codepoint() {
    let mut walk = TextBoxWalk::new("\u{20ac}a", false, 2, 1);
    assert!(walk.step(CLEAR).unwrap().draw_selection);
    assert!(!walk.step(CLEAR).unwrap().draw_selection);
    let mut walk = TextBoxWalk::new("\u{20ac}a", false, 0, 2);
    assert!(!walk.step(CLEAR).unwrap().draw_selection);
    assert!(!walk.step(CLEAR).unwrap().draw_selection);
}

#[test]
fn selection_reaches_to_the_end_of_the_range_of_numbers() {
    let mut walk = TextBoxWalk::new("abc", false, i32::MAX, i32::MAX);
    while let Some(_) = walk.glyph() {
        assert!(!walk.step(CLEAR).unwrap().draw_selection);
    }
    let mut walk = TextBoxWalk::new("abc", false, 1, i32::MAX);
    let mut selected = Vec::new();
    while let Some(_) = walk.glyph() {
        selected.push(walk.step(CLEAR).unwrap().draw_selection);
    }
    assert_eq!(selected, vec![false, true, true]);
}

#[test]
fn selection_moves_back_when_a_line_wraps() {
    let mut walk = TextBoxWalk::new("abcd", true, 4, 3);
    let mut selected = Vec::new();
    let mut steps = 0;
    while let Some(glyph) = walk.glyph() {
        let step = walk.step(Sight { overflows_width: steps == 2, ..CLEAR }).unwrap();
        steps += 1;
        if step.draw_glyph {
            selected.push((glyph.index, step.draw_selection));
        }
    }
    assert_eq!(selected, vec![(0, false), (1, false), (2, true), (3, true)]);
}
