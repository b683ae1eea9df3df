//! The progress bar: a pure renderer from a progress fraction to one
//! line of text.
//!
//! Progress is a fraction `num / den` with `0 <= num <= den`: a
//! normalized value in `[0, 1]`, held as two integers.  The animation
//! only ever renders the fractions `i / STEPS`.  Rendering draws `filled = floor(num * width / den)`
//! fill glyphs, then `width - filled` empty glyphs, bracketed, with a
//! right-aligned integer percentage after them.
use vstd::arithmetic::div_mod::{lemma_div_is_ordered, lemma_div_multiples_vanish};
use vstd::prelude::*;

use crate::text::push_char;

verus! {

/// Number of discrete steps an animation is divided into; frames are
/// rendered for the fractions `0 / STEPS` up to `STEPS / STEPS`.
pub const STEPS: u64 = 50;

/// The closed set of bar styles and their glyph pairs.
#[derive(Clone, Copy, Debug, PartialEq, Eq, Structural)]
pub enum ProgressStyle {
    /// `[####......]`
    Hash,
    /// `[========  ]`
    Equals,
    /// `[████░░░░░░]`
    Block,
    /// `[▓▓▓▓▒▒▒░░░]`, with the fill glyph picked by a half-way
    /// threshold.
    Gradient,
}

/// The fill glyph of a style.  For `Gradient` it depends on whether
/// the filled part exceeds the empty part: a cosmetic threshold, not
/// a true gradient ramp.
pub open spec fn spec_fill_char(style: ProgressStyle, filled: int, empty: int) -> char {
    match style {
        ProgressStyle::Hash => '#',
        ProgressStyle::Equals => '=',
        ProgressStyle::Block => '█',
        ProgressStyle::Gradient => if filled > empty {
            '▓'
        } else {
            '▒'
        },
    }
}

/// The empty glyph of a style.
pub open spec fn spec_empty_char(style: ProgressStyle) -> char {
    match style {
        ProgressStyle::Hash => '.',
        ProgressStyle::Equals => ' ',
        ProgressStyle::Block => '░',
        ProgressStyle::Gradient => '░',
    }
}

/// How many cells of a `width`-cell bar are filled at `num / den`.
pub open spec fn spec_filled(num: int, den: int, width: int) -> int {
    num * width / den
}

/// The percentage shown after the bar, rounded down.
pub open spec fn spec_percent(num: int, den: int) -> int {
    num * 100 / den
}

pub open spec fn spec_digit_char(d: int) -> char {
    if d == 0 {
        '0'
    } else if d == 1 {
        '1'
    } else if d == 2 {
        '2'
    } else if d == 3 {
        '3'
    } else if d == 4 {
        '4'
    } else if d == 5 {
        '5'
    } else if d == 6 {
        '6'
    } else if d == 7 {
        '7'
    } else if d == 8 {
        '8'
    } else {
        '9'
    }
}

/// The percentage as three characters, right-aligned with spaces.
pub open spec fn spec_percent_chars(p: int) -> Seq<char> {
    if p >= 100 {
        seq!['1', '0', '0']
    } else if p >= 10 {
        seq![' ', spec_digit_char(p / 10), spec_digit_char(p % 10)]
    } else {
        seq![' ', ' ', spec_digit_char(p)]
    }
}

/// The glyphs of the bar itself: `filled` fill glyphs then
/// `width - filled` empty glyphs.
pub open spec fn spec_bar_glyphs(style: ProgressStyle, width: int, num: int, den: int) -> Seq<
    char,
> {
    let filled = spec_filled(num, den, width);
    let empty = width - filled;
    Seq::new(filled as nat, |i: int| spec_fill_char(style, filled, empty)) + Seq::new(
        empty as nat,
        |i: int| spec_empty_char(style),
    )
}

/// The whole rendered line: the bracketed glyphs and the trailing
/// percentage.
pub open spec fn spec_render(style: ProgressStyle, width: int, num: int, den: int) -> Seq<char> {
    seq!['['] + spec_bar_glyphs(style, width, num, den) + seq![']', ' '] + spec_percent_chars(
        spec_percent(num, den),
    ) + seq!['%']
}

/// With `num <= den`, at most `width` cells are filled.
pub proof fn lemma_filled_le_width(num: int, den: int, width: int)
    requires
        0 <= num <= den,
        1 <= den,
        0 <= width,
    ensures
        0 <= spec_filled(num, den, width) <= width,
{
    assert(num * width <= den * width) by (nonlinear_arith)
        requires
            0 <= num <= den,
            0 <= width,
    ;
    assert(0 <= num * width) by (nonlinear_arith)
        requires
            0 <= num,
            0 <= width,
    ;
    lemma_div_is_ordered(num * width, den * width, den);
    lemma_div_multiples_vanish(width, den);
}

/// A rendered bar always holds exactly `width` glyphs between its
/// brackets, `filled + empty` of them with `filled + empty == width`,
/// whatever the style.
pub proof fn lemma_render_width(style: ProgressStyle, width: int, num: int, den: int)
    requires
        0 <= num <= den,
        1 <= den,
        0 <= width,
    ensures
        spec_bar_glyphs(style, width, num, den).len() == width,
        spec_filled(num, den, width) + (width - spec_filled(num, den, width)) == width,
        spec_render(style, width, num, den).len() == width + 7,
{
    lemma_filled_le_width(num, den, width);
    lemma_filled_le_width(num, den, 100);
}

/// Zero progress renders an all-empty bar.
pub proof fn lemma_render_zero(style: ProgressStyle, width: int, den: int)
    requires
        1 <= den,
        0 <= width,
    ensures
        spec_filled(0, den, width) == 0,
        forall|i: int|
            0 <= i < width ==> #[trigger] spec_bar_glyphs(style, width, 0, den)[i]
                == spec_empty_char(style),
{
    assert(0 * width == 0) by (nonlinear_arith);
    lemma_div_multiples_vanish(0, den);
    assert(spec_filled(0, den, width) == 0);
}

/// Full progress renders an all-filled bar.
pub proof fn lemma_render_full(style: ProgressStyle, width: int, den: int)
    requires
        1 <= den,
        0 <= width,
    ensures
        spec_filled(den, den, width) == width,
        forall|i: int|
            0 <= i < width ==> #[trigger] spec_bar_glyphs(style, width, den, den)[i]
                == spec_fill_char(style, width, 0),
{
    lemma_div_multiples_vanish(width, den);
    assert(den * width == width * den) by (nonlinear_arith);
    assert(spec_filled(den, den, width) == width);
}

/// A fixed-width progress bar with a chosen style.  Rendering is a
/// pure function of the progress fraction; the bar holds no other
/// state.
pub struct ProgressBar {
    width: usize,
    style: ProgressStyle,
}

impl ProgressBar {
    #[verifier::type_invariant]
    spec fn inv(self) -> bool {
        self.width <= 1000
    }

    pub closed spec fn spec_width(&self) -> int {
        self.width as int
    }

    pub closed spec fn spec_style(&self) -> ProgressStyle {
        self.style
    }

    /// A bar of the default width of twenty cells.
    pub fn new(style: ProgressStyle) -> (r: ProgressBar)
        ensures
            r.spec_width() == 20,
            r.spec_style() == style,
    {
        ProgressBar { width: 20, style }
    }

    fn fill_char(&self, filled: usize, empty: usize) -> (r: char)
        ensures
            r == spec_fill_char(self.spec_style(), filled as int, empty as int),
    {
        match self.style {
            ProgressStyle::Hash => '#',
            ProgressStyle::Equals => '=',
            ProgressStyle::Block => '█',
            ProgressStyle::Gradient => if filled > empty {
                '▓'
            } else {
                '▒'
            },
        }
    }

    fn empty_char(&self) -> (r: char)
        ensures
            r == spec_empty_char(self.spec_style()),
    {
        match self.style {
            ProgressStyle::Hash => '.',
            ProgressStyle::Equals => ' ',
            ProgressStyle::Block => '░',
            ProgressStyle::Gradient => '░',
        }
    }

    /// Render the line for progress `num / den`.
    pub fn render(&self, num: u64, den: u64) -> (r: String)
        requires
            1 <= den,
            num <= den,
        ensures
            r@ == spec_render(self.spec_style(), self.spec_width(), num as int, den as int),
    {
        proof {
            use_type_invariant(self);
            lemma_filled_le_width(num as int, den as int, self.width as int);
            lemma_filled_le_width(num as int, den as int, 100);
            assert((num as int) * (self.width as int) <= 0xffff_ffff_ffff_ffff * 1000)
                by (nonlinear_arith)
                requires
                    num <= 0xffff_ffff_ffff_ffffu64,
                    self.width <= 1000,
            ;
            assert((num as int) * 100 <= 0xffff_ffff_ffff_ffff * 100) by (nonlinear_arith)
                requires
                    num <= 0xffff_ffff_ffff_ffffu64,
            ;
        }
        let filled = ((num as u128) * (self.width as u128) / (den as u128)) as usize;
        let empty = self.width - filled;
        let fc = self.fill_char(filled, empty);
        let ec = self.empty_char();
        let ghost gfilled = spec_filled(num as int, den as int, self.spec_width());

        let mut out = String::new();
        push_char(&mut out, '[');
        let mut i: usize = 0;
        while i < filled
            invariant
                i <= filled,
                fc == spec_fill_char(self.spec_style(), gfilled, self.spec_width() - gfilled),
                filled == gfilled,
                out@ == seq!['['] + Seq::new(
                    i as nat,
                    |j: int| spec_fill_char(self.spec_style(), gfilled, self.spec_width() - gfilled),
                ),
            decreases filled - i,
        {
            push_char(&mut out, fc);
            proof {
                assert(out@ =~= seq!['['] + Seq::new(
                    (i + 1) as nat,
                    |j: int| spec_fill_char(self.spec_style(), gfilled, self.spec_width() - gfilled),
                ));
            }
            i = i + 1;
        }
        let mut k: usize = 0;
        while k < empty
            invariant
                k <= empty,
                ec == spec_empty_char(self.spec_style()),
                filled == gfilled,
                empty == self.spec_width() - gfilled,
                out@ == seq!['['] + Seq::new(
                    filled as nat,
                    |j: int| spec_fill_char(self.spec_style(), gfilled, self.spec_width() - gfilled),
                ) + Seq::new(k as nat, |j: int| spec_empty_char(self.spec_style())),
            decreases empty - k,
        {
            push_char(&mut out, ec);
            proof {
                assert(out@ =~= seq!['['] + Seq::new(
                    filled as nat,
                    |j: int| spec_fill_char(self.spec_style(), gfilled, self.spec_width() - gfilled),
                ) + Seq::new((k + 1) as nat, |j: int| spec_empty_char(self.spec_style())));
            }
            k = k + 1;
        }
        push_char(&mut out, ']');
        push_char(&mut out, ' ');
        let p = ((num as u128) * 100 / (den as u128)) as u64;
        if p >= 100 {
            push_char(&mut out, '1');
            push_char(&mut out, '0');
            push_char(&mut out, '0');
        } else if p >= 10 {
            push_char(&mut out, ' ');
            push_char(&mut out, digit_char(p / 10));
            push_char(&mut out, digit_char(p % 10));
        } else {
            push_char(&mut out, ' ');
            push_char(&mut out, ' ');
            push_char(&mut out, digit_char(p));
        }
        push_char(&mut out, '%');
        proof {
            assert(out@ =~= spec_render(
                self.spec_style(),
                self.spec_width(),
                num as int,
                den as int,
            ));
        }
        out
    }
}

pub fn digit_char(d: u64) -> (r: char)
    requires
        d <= 9,
    ensures
        r == spec_digit_char(d as int),
{
    match d {
        0 => '0',
        1 => '1',
        2 => '2',
        3 => '3',
        4 => '4',
        5 => '5',
        6 => '6',
        7 => '7',
        8 => '8',
        _ => '9',
    }
}

} // verus!
