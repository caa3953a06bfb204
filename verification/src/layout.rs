//! Injected screen geometry and style metrics, and the text-fit oracle the
//! reveal-region layout grows against.
//!
//! The oracle models wrapping with a "break words, no hyphenation" policy
//! over a fixed-advance font: a line holds `width / char_width` characters
//! (at least one — a character is placed even on a too-narrow line), and the
//! text fits when the wrapped line count, at one line height per line, stays
//! within the candidate bounds.

use crate::geometry::{spec_inset, Insets, Rect, COORD_LIMIT, INSET_MAX};
use vstd::prelude::*;

verus! {

/// Largest character count the fit oracle accepts; also the largest buffer
/// bound a widget may be constructed with, so the grown reveal rectangle
/// always stays inside the `i32` coordinate space.
pub const MAX_TEXT_LEN: usize = 100000;

/// Largest font metric (line height, character advance, character height).
pub const METRIC_MAX: i32 = 4096;

/// Screen geometry and style metrics, injected at each call that needs them
/// rather than compiled in, so the same logic serves any screen.
#[derive(Clone, Copy, Debug, PartialEq, Eq, Structural)]
pub struct LayoutConfig {
    /// The full screen; the extended reveal region is clamped to it.
    pub screen: Rect,
    /// Height of one wrapped text line, and the step the reveal region
    /// grows by.
    pub line_height: i32,
    /// Horizontal advance of one character of the secret's font.
    pub char_width: i32,
    /// Visible height of a character, used to center the last character on
    /// the placeholder baseline.
    pub char_height: i32,
    /// Padding between a widget's allocated rectangle and its input row.
    pub input_insets: Insets,
    /// Internal padding between the reveal rectangle and the text inside it.
    pub shown_insets: Insets,
}

impl LayoutConfig {
    /// Sane metrics: a real screen, positive font metrics within
    /// [`METRIC_MAX`], non-negative bounded paddings.
    pub open spec fn wf(self) -> bool {
        self.screen.wf() && 1 <= self.line_height <= METRIC_MAX as int && 1 <= self.char_width
            <= METRIC_MAX as int && 0 <= self.char_height <= METRIC_MAX as int
            && self.input_insets.bounded() && self.input_insets.nonnegative()
            && self.shown_insets.bounded() && self.shown_insets.nonnegative()
    }
}

/// How many lines `n` characters occupy when wrapped into a line of width
/// `w` with character advance `cw`: `ceil(n / chars_per_line)`, where a line
/// narrower than one character still carries one.
pub open spec fn spec_lines_needed(n: int, cw: int, w: int) -> int
    recommends
        cw >= 1,
{
    if n <= 0 {
        0
    } else {
        let cpl = if w < cw {
            1
        } else {
            w / cw
        };
        (n + cpl - 1) / cpl
    }
}

/// Whether `n` characters, wrapped to the width of `inner`, fit inside
/// `inner` at one line height per line.
pub open spec fn spec_fits(n: int, inner: Rect, cfg: LayoutConfig) -> bool {
    spec_lines_needed(n, cfg.char_width as int, inner.x1 - inner.x0) * cfg.line_height <= inner.y1
        - inner.y0
}

/// The text-fit oracle: answers whether `n` characters fit inside `inner`.
pub fn text_fits(n: usize, inner: Rect, cfg: &LayoutConfig) -> (b: bool)
    requires
        cfg.wf(),
        n <= MAX_TEXT_LEN as int,
        inner.bounded(),
        -(MAX_TEXT_LEN as int) <= inner.x0 <= MAX_TEXT_LEN as int,
        -(MAX_TEXT_LEN as int) <= inner.x1 <= MAX_TEXT_LEN as int,
    ensures
        b == spec_fits(n as int, inner, *cfg),
{
    let w: i32 = inner.x1 - inner.x0;
    let h: i32 = inner.y1 - inner.y0;
    let ghost lines_spec = spec_lines_needed(n as int, cfg.char_width as int, w as int);
    let lines: usize = if n == 0 {
        0
    } else {
        let cpl: usize = if w < cfg.char_width {
            1
        } else {
            let c: usize = (w as usize) / (cfg.char_width as usize);
            proof {
                vstd::arithmetic::div_mod::lemma_div_by_self(cfg.char_width as int);
                vstd::arithmetic::div_mod::lemma_div_is_ordered(
                    cfg.char_width as int,
                    w as int,
                    cfg.char_width as int,
                );
            }
            c
        };
        assert(1 <= cpl <= 2 * MAX_TEXT_LEN);
        let l: usize = (n + cpl - 1) / cpl;
        proof {
            vstd::arithmetic::div_mod::lemma_div_nonincreasing((n + cpl - 1) as int, cpl as int);
        }
        l
    };
    assert(0 <= lines <= n + 2 * MAX_TEXT_LEN);
    proof {
        vstd::arithmetic::mul::lemma_mul_upper_bound(
            lines as int,
            3 * MAX_TEXT_LEN as int,
            cfg.line_height as int,
            METRIC_MAX as int,
        );
        vstd::arithmetic::mul::lemma_mul_nonnegative(lines as int, cfg.line_height as int);
    }
    let needed: u64 = (lines as u64) * (cfg.line_height as u64);
    if h < 0 {
        false
    } else {
        needed <= h as u64
    }
}

} // verus!
