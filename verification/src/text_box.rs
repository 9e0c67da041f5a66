//! Walking a text that is drawn into a rectangle, with or without word wrap.
//!
//! The text is walked codepoint by codepoint. With word wrap the walk goes
//! over every line twice: it first measures how much of the text fits into
//! the width of the rectangle, then goes back and draws that much, and so on
//! until the text ends or leaves the rectangle at the bottom. Without word
//! wrap it draws at once and breaks the line where a glyph would not fit.
//!
//! Widths and offsets are the caller's: the walk holds the positions in the
//! text and decides, from what the caller sees of each glyph, what is to be
//! done with it. [`Walk`] is the model; its positions (`i`, `start_line`,
//! `end_line`) are byte indexes, each of the last byte of a codepoint, or
//! `-1`. [`TextBoxWalk`] is the walk itself.

use vstd::prelude::*;
use vstd::string::StringSliceAdditionalSpecFns;
use vstd::utf8::{
    char_is_scalar, char_u32_cast, decode_first_scalar, encode_scalar, encode_utf8,
    encode_utf8_first_scalar, encode_utf8_valid_utf8, is_char_boundary,
    is_char_boundary_iff_not_is_continuation_byte, is_char_boundary_start_end_of_seq,
    length_of_first_scalar, pop_first_scalar, valid_utf8, valid_utf8_split,
};

verus! {

/// The bytes of `bytes` from `index` on.
pub open spec fn tail(bytes: Seq<u8>, index: int) -> Seq<u8> {
    bytes.subrange(index, bytes.len() as int)
}

/// The codepoint whose encoding starts at byte `index`.
pub open spec fn codepoint_at(bytes: Seq<u8>, index: int) -> char {
    decode_first_scalar(tail(bytes, index)) as char
}

/// The number of bytes that the codepoint at byte `index` takes.
pub open spec fn width_at(bytes: Seq<u8>, index: int) -> int {
    length_of_first_scalar(tail(bytes, index))
}

/// A codepoint that starts at a character boundary inside well-formed UTF-8
/// takes one to four bytes and ends at a character boundary.
pub proof fn lemma_codepoint_ends_at_boundary(bytes: Seq<u8>, index: int)
    requires
        valid_utf8(bytes),
        0 <= index < bytes.len(),
        is_char_boundary(bytes, index),
    ensures
        1 <= width_at(bytes, index) <= 4,
        index + width_at(bytes, index) <= bytes.len(),
        is_char_boundary(bytes, index + width_at(bytes, index)),
{
    let rest = tail(bytes, index);
    let width = width_at(bytes, index);
    valid_utf8_split(bytes, index);
    assert(valid_utf8(rest));
    let after = pop_first_scalar(rest);
    assert(valid_utf8(after));
    assert(after.len() == rest.len() - width);
    if index + width < bytes.len() {
        assert(after.len() > 0);
        assert(after[0] == bytes[index + width]);
        is_char_boundary_iff_not_is_continuation_byte(bytes, index + width);
    } else {
        is_char_boundary_start_end_of_seq(bytes);
    }
}

/// The number of bytes of `text`.
fn byte_len(text: &str) -> (len: usize)
    ensures
        len == text.spec_bytes().len(),
{
    text.as_bytes().len()
}

/// The codepoint that starts at byte `index` of `text`, and the number of
/// bytes that it takes.
fn read_codepoint(text: &str, index: usize) -> (found: (char, usize))
    requires
        index < text.spec_bytes().len(),
        is_char_boundary(text.spec_bytes(), index as int),
    ensures
        found.0 == codepoint_at(text.spec_bytes(), index as int),
        found.1 == width_at(text.spec_bytes(), index as int),
{
    broadcast use vstd::string::group_string_axioms;

    let ghost bytes = text.spec_bytes();
    proof {
        encode_utf8_valid_utf8(text@);
        valid_utf8_split(bytes, index as int);
    }
    let (_, rest) = text.split_at(index);
    proof {
        assert(rest.spec_bytes() == tail(bytes, index as int));
        assert(rest@.len() > 0) by {
            if rest@.len() == 0 {
                assert(encode_utf8(rest@).len() == 0);
            }
        }
        encode_utf8_first_scalar(rest@);
    }
    let mut chars = rest.chars();
    match chars.next() {
        Some(codepoint) => {
            let scalar = codepoint as u32;
            let width: usize = if scalar < 0x80 {
                1
            } else if scalar < 0x800 {
                2
            } else if scalar < 0x10000 {
                3
            } else {
                4
            };
            proof {
                char_is_scalar(codepoint);
                char_u32_cast(codepoint, scalar);
                assert(codepoint == rest@[0]);
                assert(width == encode_scalar(scalar).len());
            }
            (codepoint, width)
        },
        None => vstd::pervasive::unreached(),
    }
}

/// Whether the codepoint has the Unicode property `White_Space`, as
/// `char::is_whitespace` tells it.
pub uninterp spec fn white_space(codepoint: char) -> bool;

/// `char::is_whitespace`: whether the codepoint has the Unicode property
/// `White_Space`. The answer depends on the codepoint alone.
#[verifier::external_body]
fn is_whitespace(codepoint: char) -> (whitespace: bool)
    ensures
        whitespace == white_space(codepoint),
{
    codepoint.is_whitespace()
}

/// The glyph that the walk has arrived at.
#[derive(Clone, Copy, Debug, PartialEq, Eq)]
pub struct Glyph {
    /// Byte index at which the codepoint starts.
    pub index: usize,
    pub codepoint: char,
    /// Whether text follows the codepoint, so that the spacing between
    /// glyphs is added to its width.
    pub spaced: bool,
}

/// What the caller sees of the glyph at hand, with the width `w` of the
/// glyph (zero for a line break), the height `h` of a glyph, the height `l`
/// of a line, the offsets `x` and `y` reached so far and the rectangle `r`.
#[derive(Clone, Copy, Debug, PartialEq, Eq, Structural)]
pub struct Sight {
    /// `x + w > r.width`
    pub overflows_width: bool,
    /// `y + h > r.height`
    pub overflows_height: bool,
    /// `(y + l) + h > r.height`
    pub overflows_height_below: bool,
    /// `x != 0`
    pub indented: bool,
}

/// What is to be done with the glyph at hand. The parts that are set are
/// carried out in the order of the fields.
#[derive(Clone, Copy, Debug, PartialEq, Eq, Structural)]
pub struct Step {
    /// Measuring is over and drawing starts at the beginning of the line:
    /// `x = 0`.
    pub rewind: bool,
    /// The glyph goes to a new line: `y += l; x = 0`.
    pub break_before: bool,
    /// The glyph would leave the rectangle at the bottom: the walk is over
    /// and nothing more is drawn.
    pub stop: bool,
    /// The glyph is selected: its background is painted, `w` wide, and the
    /// glyph takes the tint of the selection.
    pub draw_selection: bool,
    /// The glyph is drawn at `(x, y)`.
    pub draw_glyph: bool,
    /// The line is full: `y += l; x = 0`.
    pub break_after: bool,
    /// The glyph takes its room: `x += w`.
    pub advance: bool,
}

impl Step {
    /// The step that does nothing.
    pub open spec fn idle() -> Step {
        Step {
            rewind: false,
            break_before: false,
            stop: false,
            draw_selection: false,
            draw_glyph: false,
            break_after: false,
            advance: false,
        }
    }
}

/// The model of a walk: the text and the positions in it.
pub struct Walk {
    /// The UTF-8 encoding of the text.
    pub text: Seq<u8>,
    pub word_wrap: bool,
    /// Whether the walk measures (else it draws).
    pub measuring: bool,
    /// Last byte before the line at hand.
    pub start_line: int,
    /// Last byte of the line at hand, once it is known; `-1` before.
    pub end_line: int,
    /// `-1` less the number of lines measured so far.
    pub last_k: int,
    /// Last byte of the codepoint that was looked at last.
    pub i: int,
    /// Byte index at which the selection starts; it moves as lines wrap.
    pub select_start: int,
    /// Length of the selection in bytes.
    pub select_length: int,
    /// Whether the text has left the rectangle at the bottom.
    pub stopped: bool,
}

impl Walk {
    /// The walk at its start.
    pub open spec fn start(
        text: Seq<u8>,
        word_wrap: bool,
        select_start: int,
        select_length: int,
    ) -> Walk {
        Walk {
            text,
            word_wrap,
            measuring: word_wrap,
            start_line: -1,
            end_line: -1,
            last_k: -1,
            i: -1,
            select_start,
            select_length,
            stopped: false,
        }
    }

    /// What holds of every walk: the positions lie in the text, each at the
    /// end of a codepoint, the line at hand does not start behind the
    /// position of the walk, and no more lines were measured than there are
    /// bytes before the line at hand.
    pub open spec fn wf(self) -> bool {
        &&& valid_utf8(self.text)
        &&& -1 <= self.start_line <= self.i < self.text.len()
        &&& -1 <= self.end_line < self.text.len()
        &&& is_char_boundary(self.text, self.i + 1)
        &&& is_char_boundary(self.text, self.start_line + 1)
        &&& is_char_boundary(self.text, self.end_line + 1)
        &&& self.last_k <= -1
        &&& if !self.word_wrap {
            !self.measuring && self.last_k == -1
        } else if self.measuring {
            -1 - self.last_k <= self.start_line + 1
        } else {
            -1 - self.last_k <= self.start_line + 2 <= self.text.len()
        }
    }

    /// Whether the walk is over: the text has ended or has left the
    /// rectangle at the bottom.
    pub open spec fn done(self) -> bool {
        self.stopped || self.i + 1 >= self.text.len()
    }

    /// The codepoint that the next step looks at.
    pub open spec fn codepoint(self) -> char {
        codepoint_at(self.text, self.i + 1)
    }

    /// The number of bytes of the codepoint that the next step looks at.
    pub open spec fn width(self) -> int {
        width_at(self.text, self.i + 1)
    }

    /// The glyph that the next step looks at.
    pub open spec fn glyph(self) -> Glyph {
        Glyph {
            index: (self.i + 1) as usize,
            codepoint: self.codepoint(),
            spaced: self.i + self.width() + 1 < self.text.len(),
        }
    }

    /// The passes that the walk still makes over the line at hand: measuring
    /// comes before drawing.
    pub open spec fn passes_left(self) -> int {
        if self.measuring {
            1
        } else {
            0
        }
    }

    /// Whether the codepoint that ends at byte `k` is selected.
    pub open spec fn selects(self, k: int) -> bool {
        self.select_start >= 0 && k >= self.select_start && k < self.select_start
            + self.select_length
    }

    /// A step of measuring. A whitespace marks a place for the line to end.
    /// The line is measured when the glyph would not fit, when the text
    /// ends, or at a line break; the walk then goes back to draw it. A line
    /// that would not fit ends at the place marked last, or just before the
    /// glyph where nothing is marked, and before the glyph also where the
    /// mark is the glyph itself.
    pub open spec fn measured(self, whitespace: bool, sight: Sight) -> (Walk, Step) {
        let width = self.width();
        let i = self.i + width;
        let marked = if whitespace {
            i
        } else {
            self.end_line
        };
        let (end_line, switch) = if sight.overflows_width {
            let first = if marked < 1 {
                i
            } else {
                marked
            };
            let second = if i == first {
                first - width
            } else {
                first
            };
            let third = if self.start_line + width == second {
                i - width
            } else {
                second
            };
            (third, true)
        } else if i + 1 == self.text.len() {
            (i, true)
        } else {
            (marked, self.codepoint() == '\n')
        };
        if switch {
            (
                Walk {
                    measuring: false,
                    end_line,
                    i: self.start_line,
                    last_k: self.last_k - 1,
                    ..self
                },
                Step { rewind: true, ..Step::idle() },
            )
        } else {
            (
                Walk { end_line, i, ..self },
                Step { advance: sight.indented || self.codepoint() != ' ', ..Step::idle() },
            )
        }
    }

    /// A step of drawing. Without word wrap a line break, or a glyph that
    /// would not fit, starts a new line. A glyph that would then leave the
    /// rectangle at the bottom ends the walk. Else the glyph is drawn,
    /// unless it is blank, and with word wrap the glyph that ends the line
    /// sends the walk back to measuring.
    pub open spec fn drawn(self, sight: Sight) -> (Walk, Step) {
        let codepoint = self.codepoint();
        let i = self.i + self.width();
        let newline = codepoint == '\n';
        let break_before = !self.word_wrap && (newline || sight.overflows_width);
        let stop = !newline && (if break_before {
            sight.overflows_height_below
        } else {
            sight.overflows_height
        });
        if stop {
            (Walk { stopped: true, i, ..self }, Step { break_before, stop: true, ..Step::idle() })
        } else {
            let wrap = self.word_wrap && i == self.end_line;
            let step = Step {
                rewind: false,
                break_before,
                stop: false,
                draw_selection: !newline && self.selects(i),
                draw_glyph: !newline && codepoint != ' ' && codepoint != '\t',
                break_after: wrap,
                advance: (!break_before && !wrap && sight.indented) || codepoint != ' ',
            };
            if wrap {
                (
                    Walk {
                        measuring: true,
                        start_line: self.end_line,
                        end_line: -1,
                        select_start: self.select_start + self.last_k - i,
                        i,
                        ..self
                    },
                    step,
                )
            } else {
                (Walk { i, ..self }, step)
            }
        }
    }

    /// A step of the walk.
    pub open spec fn stepped(self, whitespace: bool, sight: Sight) -> (Walk, Step) {
        if self.measuring {
            self.measured(whitespace, sight)
        } else {
            self.drawn(sight)
        }
    }

    /// A step keeps the walk well formed.
    pub proof fn lemma_step_keeps_wf(self, whitespace: bool, sight: Sight)
        requires
            self.wf(),
            !self.done(),
        ensures
            self.stepped(whitespace, sight).0.wf(),
    {
        lemma_codepoint_ends_at_boundary(self.text, self.i + 1);
        is_char_boundary_start_end_of_seq(self.text);
    }

    /// The walk comes to an end: with every step the line at hand starts
    /// further on, or else the walk turns from measuring to drawing, or else
    /// it moves on in the text; unless the step ends the walk.
    pub proof fn lemma_step_makes_progress(self, whitespace: bool, sight: Sight)
        requires
            self.wf(),
            !self.done(),
        ensures
            ({
                let next = self.stepped(whitespace, sight).0;
                next.stopped || decreases_to!(
                    self.text.len() - self.start_line,
                    self.passes_left(),
                    self.text.len() - self.i
                    =>
                    next.text.len() - next.start_line,
                    next.passes_left(),
                    next.text.len() - next.i
                )
            }),
    {
        lemma_codepoint_ends_at_boundary(self.text, self.i + 1);
    }
}

/// A walk over a text that is drawn into a rectangle.
pub struct TextBoxWalk<'a> {
    text: &'a str,
    word_wrap: bool,
    measuring: bool,
    /// Byte index behind the line before the one at hand.
    line: usize,
    /// Byte index behind the line at hand, once it is known; zero before.
    line_end: usize,
    /// The number of lines measured so far.
    lines: usize,
    /// Byte index of the codepoint that the next step looks at.
    next: usize,
    /// Where the selection starts, as long as that is inside the text.
    selection: Option<usize>,
    select_start: Ghost<int>,
    select_length: i32,
    stopped: bool,
}

impl<'a> View for TextBoxWalk<'a> {
    type V = Walk;

    closed spec fn view(&self) -> Walk {
        Walk {
            text: self.text.spec_bytes(),
            word_wrap: self.word_wrap,
            measuring: self.measuring,
            start_line: self.line - 1,
            end_line: self.line_end - 1,
            last_k: -1 - self.lines,
            i: self.next - 1,
            select_start: self.select_start@,
            select_length: self.select_length as int,
            stopped: self.stopped,
        }
    }
}

impl<'a> TextBoxWalk<'a> {
    #[verifier::type_invariant]
    spec fn inv(self) -> bool {
        &&& self@.wf()
        &&& self.selection == if self.select_start@ >= 0 {
            Some(self.select_start@ as usize)
        } else {
            None::<usize>
        }
        &&& self.select_start@ <= usize::MAX
    }

    /// A walk at the start of `text`. `select_start` and `select_length`
    /// give the selection in bytes; a negative start selects nothing.
    pub fn new(text: &'a str, word_wrap: bool, select_start: i32, select_length: i32) -> (walk:
        Self)
        ensures
            walk@ == Walk::start(
                text.spec_bytes(),
                word_wrap,
                select_start as int,
                select_length as int,
            ),
            walk@.wf(),
    {
        proof {
            encode_utf8_valid_utf8(text@);
            is_char_boundary_start_end_of_seq(text.spec_bytes());
        }
        TextBoxWalk {
            text,
            word_wrap,
            measuring: word_wrap,
            line: 0,
            line_end: 0,
            lines: 0,
            next: 0,
            selection: if select_start >= 0 {
                Some(select_start as usize)
            } else {
                None
            },
            select_start: Ghost(select_start as int),
            select_length,
            stopped: false,
        }
    }

    /// The glyph that the next step looks at, or `None` where the walk is
    /// over.
    pub fn glyph(&self) -> (glyph: Option<Glyph>)
        ensures
            self@.wf(),
            glyph == if self@.done() {
                None
            } else {
                Some(self@.glyph())
            },
    {
        proof {
            use_type_invariant(self);
        }
        let len = byte_len(self.text);
        if self.stopped || self.next >= len {
            None
        } else {
            proof {
                lemma_codepoint_ends_at_boundary(self.text.spec_bytes(), self.next as int);
            }
            let (codepoint, width) = read_codepoint(self.text, self.next);
            Some(Glyph { index: self.next, codepoint, spaced: self.next + width < len })
        }
    }

    /// A step of the walk, given whether the codepoint at hand is a
    /// whitespace and what the caller sees of its glyph. Gives `None`, and
    /// changes nothing, where the walk is over.
    pub fn step_with(&mut self, whitespace: bool, sight: Sight) -> (step: Option<Step>)
        ensures
            final(self)@.wf(),
            match step {
                None => old(self)@.done() && final(self)@ == old(self)@,
                Some(step) => !old(self)@.done() && (final(self)@, step) == old(self)@.stepped(
                    whitespace,
                    sight,
                ),
            },
    {
        proof {
            use_type_invariant(&*self);
        }
        let len = byte_len(self.text);
        if self.stopped || self.next >= len {
            return None;
        }
        proof {
            lemma_codepoint_ends_at_boundary(self.text.spec_bytes(), self.next as int);
            self@.lemma_step_keeps_wf(whitespace, sight);
        }
        let (codepoint, width) = read_codepoint(self.text, self.next);
        let after = self.next + width;
        if self.measuring {
            let mut line_end = if whitespace {
                after
            } else {
                self.line_end
            };
            let switch: bool;
            if sight.overflows_width {
                if line_end < 2 {
                    line_end = after;
                }
                if after == line_end {
                    line_end = line_end - width;
                }
                if line_end >= width && line_end - width == self.line {
                    line_end = after - width;
                }
                switch = true;
            } else if after == len {
                line_end = after;
                switch = true;
            } else {
                switch = codepoint == '\n';
            }
            if switch {
                *self = TextBoxWalk {
                    text: self.text,
                    word_wrap: self.word_wrap,
                    measuring: false,
                    line: self.line,
                    line_end,
                    lines: self.lines + 1,
                    next: self.line,
                    selection: self.selection,
                    select_start: self.select_start,
                    select_length: self.select_length,
                    stopped: self.stopped,
                };
                Some(
                    Step {
                        rewind: true,
                        break_before: false,
                        stop: false,
                        draw_selection: false,
                        draw_glyph: false,
                        break_after: false,
                        advance: false,
                    },
                )
            } else {
                *self = TextBoxWalk {
                    text: self.text,
                    word_wrap: self.word_wrap,
                    measuring: true,
                    line: self.line,
                    line_end,
                    lines: self.lines,
                    next: after,
                    selection: self.selection,
                    select_start: self.select_start,
                    select_length: self.select_length,
                    stopped: self.stopped,
                };
                Some(
                    Step {
                        rewind: false,
                        break_before: false,
                        stop: false,
                        draw_selection: false,
                        draw_glyph: false,
                        break_after: false,
                        advance: sight.indented || codepoint != ' ',
                    },
                )
            }
        } else {
            let newline = codepoint == '\n';
            let break_before = !self.word_wrap && (newline || sight.overflows_width);
            let stop = !newline && (if break_before {
                sight.overflows_height_below
            } else {
                sight.overflows_height
            });
            if stop {
                *self = TextBoxWalk {
                    text: self.text,
                    word_wrap: self.word_wrap,
                    measuring: false,
                    line: self.line,
                    line_end: self.line_end,
                    lines: self.lines,
                    next: after,
                    selection: self.selection,
                    select_start: self.select_start,
                    select_length: self.select_length,
                    stopped: true,
                };
                return Some(
                    Step {
                        rewind: false,
                        break_before,
                        stop: true,
                        draw_selection: false,
                        draw_glyph: false,
                        break_after: false,
                        advance: false,
                    },
                );
            }
            let wrap = self.word_wrap && after == self.line_end;
            let selected = match self.selection {
                Some(start) => after - 1 >= start && self.select_length > 0 && after - 1 - start
                    < self.select_length as usize,
                None => false,
            };
            let step = Step {
                rewind: false,
                break_before,
                stop: false,
                draw_selection: !newline && selected,
                draw_glyph: !newline && codepoint != ' ' && codepoint != '\t',
                break_after: wrap,
                advance: (!break_before && !wrap && sight.indented) || codepoint != ' ',
            };
            if wrap {
                let selection = match self.selection {
                    Some(start) => if start >= self.lines && start - self.lines >= after {
                        Some(start - self.lines - after)
                    } else {
                        None
                    },
                    None => None,
                };
                *self = TextBoxWalk {
                    text: self.text,
                    word_wrap: self.word_wrap,
                    measuring: true,
                    line: self.line_end,
                    line_end: 0,
                    lines: self.lines,
                    next: after,
                    selection,
                    select_start: Ghost(self.select_start@ - self.lines - after),
                    select_length: self.select_length,
                    stopped: self.stopped,
                };
            } else {
                *self = TextBoxWalk {
                    text: self.text,
                    word_wrap: self.word_wrap,
                    measuring: false,
                    line: self.line,
                    line_end: self.line_end,
                    lines: self.lines,
                    next: after,
                    selection: self.selection,
                    select_start: self.select_start,
                    select_length: self.select_length,
                    stopped: self.stopped,
                };
            }
            Some(step)
        }
    }

    /// A step of the walk, given what the caller sees of the glyph at hand.
    /// Gives `None`, and changes nothing, where the walk is over.
    pub fn step(&mut self, sight: Sight) -> (step: Option<Step>)
        ensures
            final(self)@.wf(),
            match step {
                None => old(self)@.done() && final(self)@ == old(self)@,
                Some(step) => !old(self)@.done() && (final(self)@, step) == old(self)@.stepped(
                    white_space(old(self)@.codepoint()),
                    sight,
                ),
            },
    {
        match self.glyph() {
            Some(glyph) => self.step_with(is_whitespace(glyph.codepoint), sight),
            None => None,
        }
    }
}

} // verus!
